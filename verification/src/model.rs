//! The request model: every text field of the interface, the active panel
//! and sub-selectors, the editing mode, and the routing that decides which
//! field a keystroke reaches.

use vstd::prelude::*;
use vstd::string::StringExecFns;

use crate::input::{CursorMove, FieldOp, FieldView, TextField};
use crate::key::{KeyCode, KeyEvent};
use crate::tmux::Direction;

verus! {

/// The editing mode; determines how keys are classified.
#[derive(Clone, Copy, PartialEq, Eq, Structural, Debug)]
pub enum Mode {
    Normal,
    Insert,
    Visual,
}

/// A logical region of the interface.
#[derive(Clone, Copy, PartialEq, Eq, Structural, Debug)]
pub enum Panel {
    Method,
    Url,
    Input,
    Output,
}

/// Which table of the input panel is selected.
#[derive(Clone, Copy, PartialEq, Eq, Structural, Debug)]
pub enum InputType {
    Auth,
    Headers,
    Body,
}

/// How the request authenticates; `NoAuth` disables the auth fields.
#[derive(Clone, Copy, PartialEq, Eq, Structural, Debug)]
pub enum AuthFormat {
    NoAuth,
    Basic,
    Bearer,
}

/// How the request body is assembled.
#[derive(Clone, Copy, PartialEq, Eq, Structural, Debug)]
pub enum BodyFormat {
    Json,
    Form,
}

/// Which half of a key/value row is selected.
#[derive(Clone, Copy, PartialEq, Eq, Structural, Debug)]
pub enum InputField {
    Key,
    Value,
}

/// An HTTP request method.
#[allow(non_camel_case_types)]
#[derive(Clone, Copy, PartialEq, Eq, Structural, Debug)]
pub enum Method {
    OPTIONS,
    GET,
    HEAD,
    POST,
    PUT,
    PATCH,
    DELETE,
    TRACE,
    CONNECT,
}

impl Method {
    /// The method's wire name.
    pub open spec fn label(self) -> Seq<char> {
        match self {
            Method::OPTIONS => "OPTIONS"@,
            Method::GET => "GET"@,
            Method::HEAD => "HEAD"@,
            Method::POST => "POST"@,
            Method::PUT => "PUT"@,
            Method::PATCH => "PATCH"@,
            Method::DELETE => "DELETE"@,
            Method::TRACE => "TRACE"@,
            Method::CONNECT => "CONNECT"@,
        }
    }

    /// The method after the one given, in display order, wrapping around.
    pub open spec fn succ(self) -> Method {
        match self {
            Method::OPTIONS => Method::GET,
            Method::GET => Method::HEAD,
            Method::HEAD => Method::POST,
            Method::POST => Method::PUT,
            Method::PUT => Method::PATCH,
            Method::PATCH => Method::DELETE,
            Method::DELETE => Method::TRACE,
            Method::TRACE => Method::CONNECT,
            Method::CONNECT => Method::OPTIONS,
        }
    }

    /// The method before the one given, in display order, wrapping around.
    pub open spec fn pred(self) -> Method {
        match self {
            Method::OPTIONS => Method::CONNECT,
            Method::GET => Method::OPTIONS,
            Method::HEAD => Method::GET,
            Method::POST => Method::HEAD,
            Method::PUT => Method::POST,
            Method::PATCH => Method::PUT,
            Method::DELETE => Method::PATCH,
            Method::TRACE => Method::DELETE,
            Method::CONNECT => Method::TRACE,
        }
    }

    pub fn to_string(&self) -> (r: String)
        ensures
            r@ == self.label(),
    {
        match self {
            Method::OPTIONS => String::from_str("OPTIONS"),
            Method::GET => String::from_str("GET"),
            Method::HEAD => String::from_str("HEAD"),
            Method::POST => String::from_str("POST"),
            Method::PUT => String::from_str("PUT"),
            Method::PATCH => String::from_str("PATCH"),
            Method::DELETE => String::from_str("DELETE"),
            Method::TRACE => String::from_str("TRACE"),
            Method::CONNECT => String::from_str("CONNECT"),
        }
    }

    /// The method named by `name`; an unknown name falls back to GET, as a
    /// request file with no usable method is still loaded.
    pub fn from_name(name: &str) -> (r: Method)
        ensures
            r == Method::spec_from_name(name@),
    {
        if str_eq(name, "OPTIONS") {
            Method::OPTIONS
        } else if str_eq(name, "GET") {
            Method::GET
        } else if str_eq(name, "HEAD") {
            Method::HEAD
        } else if str_eq(name, "POST") {
            Method::POST
        } else if str_eq(name, "PUT") {
            Method::PUT
        } else if str_eq(name, "PATCH") {
            Method::PATCH
        } else if str_eq(name, "DELETE") {
            Method::DELETE
        } else if str_eq(name, "TRACE") {
            Method::TRACE
        } else if str_eq(name, "CONNECT") {
            Method::CONNECT
        } else {
            Method::GET
        }
    }

    pub open spec fn spec_from_name(name: Seq<char>) -> Method {
        if name == "OPTIONS"@ {
            Method::OPTIONS
        } else if name == "GET"@ {
            Method::GET
        } else if name == "HEAD"@ {
            Method::HEAD
        } else if name == "POST"@ {
            Method::POST
        } else if name == "PUT"@ {
            Method::PUT
        } else if name == "PATCH"@ {
            Method::PATCH
        } else if name == "DELETE"@ {
            Method::DELETE
        } else if name == "TRACE"@ {
            Method::TRACE
        } else if name == "CONNECT"@ {
            Method::CONNECT
        } else {
            Method::GET
        }
    }
}

impl AuthFormat {
    /// The auth format named by `label`; anything unknown disables auth.
    pub fn from_label(label: &str) -> (r: AuthFormat)
        ensures
            r == AuthFormat::spec_from_label(label@),
    {
        if str_eq(label, "Basic") {
            AuthFormat::Basic
        } else if str_eq(label, "Bearer") {
            AuthFormat::Bearer
        } else {
            AuthFormat::NoAuth
        }
    }

    pub open spec fn spec_from_label(label: Seq<char>) -> AuthFormat {
        if label == "Basic"@ {
            AuthFormat::Basic
        } else if label == "Bearer"@ {
            AuthFormat::Bearer
        } else {
            AuthFormat::NoAuth
        }
    }
}

/// Whether two string slices hold the same scalar values.
fn str_eq(a: &str, b: &str) -> (r: bool)
    ensures
        r == (a@ == b@),
{
    let sa = String::from_str(a);
    let sb = String::from_str(b);
    sa.eq(&sb)
}

/// One key/value row of a Headers or Body table.
pub struct InputRow {
    pub key: TextField,
    pub value: TextField,
}

/// Model of a key/value row.
#[verifier::ext_equal]
pub ghost struct RowView {
    pub key: FieldView,
    pub value: FieldView,
}

impl View for InputRow {
    type V = RowView;

    open spec fn view(&self) -> RowView {
        RowView { key: self.key@, value: self.value@ }
    }
}

impl RowView {
    /// A row is well-formed when both halves are well-formed editable
    /// single-line fields.
    pub open spec fn wf(self) -> bool {
        &&& self.key.kind is Oneline
        &&& self.key.wf()
        &&& self.value.kind is Oneline
        &&& self.value.wf()
    }

    /// A row is empty when both halves hold no text.
    pub open spec fn is_empty(self) -> bool {
        self.key.text().len() == 0 && self.value.text().len() == 0
    }

    /// The view of a fresh row with both halves blank.
    pub open spec fn blank() -> RowView {
        RowView {
            key: FieldView::oneline(Seq::empty()),
            value: FieldView::oneline(Seq::empty()),
        }
    }
}

impl InputRow {
    pub open spec fn wf(&self) -> bool {
        self@.wf()
    }

    pub fn blank() -> (r: Self)
        ensures
            r@ == RowView::blank(),
            r.wf(),
    {
        proof {
            reveal_strlit("");
            assert(""@ =~= Seq::<char>::empty());
        }
        InputRow { key: TextField::new_oneline(""), value: TextField::new_oneline("") }
    }

    pub fn from_pair(key: &str, value: &str) -> (r: Self)
        ensures
            r@ == (RowView {
                key: FieldView::oneline(key@),
                value: FieldView::oneline(value@),
            }),
            r.wf(),
    {
        InputRow { key: TextField::new_oneline(key), value: TextField::new_oneline(value) }
    }

    /// Both halves hold no text.
    pub fn is_empty(&self) -> (r: bool)
        requires
            self.wf(),
        ensures
            r == self@.is_empty(),
    {
        self.key.is_empty() && self.value.is_empty()
    }

    /// The row's texts as a plain pair.
    pub fn as_pair(&self) -> (r: (String, String))
        ensures
            r.0@ == self@.key.text(),
            r.1@ == self@.value.text(),
    {
        (self.key.value(), self.value.value())
    }
}

/// The auth sub-panel: its format toggle and its text fields.
pub struct Auth {
    pub format: AuthFormat,
    pub basic_input: InputRow,
    pub bearer_input: TextField,
}

/// Model of the auth sub-panel.
#[verifier::ext_equal]
pub ghost struct AuthView {
    pub format: AuthFormat,
    pub basic: RowView,
    pub bearer: FieldView,
}

impl View for Auth {
    type V = AuthView;

    open spec fn view(&self) -> AuthView {
        AuthView { format: self.format, basic: self.basic_input@, bearer: self.bearer_input@ }
    }
}

impl AuthView {
    pub open spec fn wf(self) -> bool {
        &&& self.basic.wf()
        &&& self.bearer.kind is Oneline
        &&& self.bearer.wf()
    }
}

impl Auth {
    pub open spec fn wf(&self) -> bool {
        self@.wf()
    }

    /// The Basic-auth user name.
    pub fn username(&self) -> (r: String)
        ensures
            r@ == self@.basic.key.text(),
    {
        self.basic_input.key.value()
    }

    /// The Basic-auth password; `None` when the password field is empty.
    pub fn password(&self) -> (r: Option<String>)
        requires
            self.wf(),
        ensures
            match r {
                Some(p) => p@ == self@.basic.value.text() && self@.basic.value.text().len() > 0,
                None => self@.basic.value.text().len() == 0,
            },
    {
        if self.basic_input.value.is_empty() {
            None
        } else {
            Some(self.basic_input.value.value())
        }
    }

    /// The Bearer token text.
    pub fn token(&self) -> (r: String)
        ensures
            r@ == self@.bearer.text(),
    {
        self.bearer_input.value()
    }
}

/// The whole request model.
pub struct Model {
    pub filename: String,
    pub current_mode: Mode,
    pub current_panel: Panel,
    pub current_method: Method,
    pub dummy_input: TextField,
    pub url_input: TextField,
    pub auth: Auth,
    pub current_input_type: InputType,
    pub current_input_field: InputField,
    pub current_body_format: BodyFormat,
    pub input_index: usize,
    pub headers_input_table: Vec<InputRow>,
    pub body_input_table: Vec<InputRow>,
    pub json_body_input: TextField,
    pub output_input: TextField,
    pub message: String,
    pub exit: bool,
}

/// Mathematical model of the request model.
#[verifier::ext_equal]
pub ghost struct ModelView {
    pub filename: Seq<char>,
    pub current_mode: Mode,
    pub current_panel: Panel,
    pub current_method: Method,
    pub dummy_input: FieldView,
    pub url_input: FieldView,
    pub auth: AuthView,
    pub current_input_type: InputType,
    pub current_input_field: InputField,
    pub current_body_format: BodyFormat,
    pub input_index: int,
    pub headers_input_table: Seq<RowView>,
    pub body_input_table: Seq<RowView>,
    pub json_body_input: FieldView,
    pub output_input: FieldView,
    pub message: Seq<char>,
    pub exit: bool,
}

impl View for Model {
    type V = ModelView;

    open spec fn view(&self) -> ModelView {
        ModelView {
            filename: self.filename@,
            current_mode: self.current_mode,
            current_panel: self.current_panel,
            current_method: self.current_method,
            dummy_input: self.dummy_input@,
            url_input: self.url_input@,
            auth: self.auth@,
            current_input_type: self.current_input_type,
            current_input_field: self.current_input_field,
            current_body_format: self.current_body_format,
            input_index: self.input_index as int,
            headers_input_table: self.headers_input_table@.map_values(|r: InputRow| r@),
            body_input_table: self.body_input_table@.map_values(|r: InputRow| r@),
            json_body_input: self.json_body_input@,
            output_input: self.output_input@,
            message: self.message@,
            exit: self.exit,
        }
    }
}

pub open spec fn table_wf(t: Seq<RowView>) -> bool {
    &&& t.len() >= 1
    &&& forall|i: int| 0 <= i < t.len() ==> (#[trigger] t[i]).wf()
}

impl ModelView {
    /// The row table that the current input type works on: Auth shares the
    /// Headers table, Body has its own.
    pub open spec fn current_table(self) -> Seq<RowView> {
        match self.current_input_type {
            InputType::Auth | InputType::Headers => self.headers_input_table,
            InputType::Body => self.body_input_table,
        }
    }

    /// Well-formedness: every field is of the kind its slot demands, row
    /// tables are never empty, and the row index stays inside the current
    /// table.
    pub open spec fn wf(self) -> bool {
        &&& self.dummy_input == FieldView::null()
        &&& self.url_input.kind is Oneline && self.url_input.wf()
        &&& self.auth.wf()
        &&& table_wf(self.headers_input_table)
        &&& table_wf(self.body_input_table)
        &&& self.json_body_input.kind is Oneline && self.json_body_input.wf()
        &&& self.output_input.kind is Multiline && self.output_input.wf()
        &&& 0 <= self.input_index < self.current_table().len()
    }

    /// Which field is current, given panel, input type, auth and body
    /// formats, input field and row index.
    pub open spec fn current_field(self) -> FieldView {
        match self.current_panel {
            Panel::Method => self.dummy_input,
            Panel::Url => self.url_input,
            Panel::Input => match self.current_input_type {
                InputType::Auth => match self.auth.format {
                    AuthFormat::NoAuth => self.dummy_input,
                    AuthFormat::Basic => match self.current_input_field {
                        InputField::Key => self.auth.basic.key,
                        InputField::Value => self.auth.basic.value,
                    },
                    AuthFormat::Bearer => self.auth.bearer,
                },
                InputType::Body => if self.current_body_format is Json {
                    self.json_body_input
                } else {
                    match self.current_input_field {
                        InputField::Key => self.body_input_table[self.input_index].key,
                        InputField::Value => self.body_input_table[self.input_index].value,
                    }
                },
                InputType::Headers => match self.current_input_field {
                    InputField::Key => self.headers_input_table[self.input_index].key,
                    InputField::Value => self.headers_input_table[self.input_index].value,
                },
            },
            Panel::Output => self.output_input,
        }
    }

    /// The model with the current field replaced by `f`.
    pub open spec fn with_current_field(self, f: FieldView) -> ModelView {
        match self.current_panel {
            Panel::Method => ModelView { dummy_input: f, ..self },
            Panel::Url => ModelView { url_input: f, ..self },
            Panel::Input => match self.current_input_type {
                InputType::Auth => match self.auth.format {
                    AuthFormat::NoAuth => ModelView { dummy_input: f, ..self },
                    AuthFormat::Basic => match self.current_input_field {
                        InputField::Key => ModelView {
                            auth: AuthView {
                                basic: RowView { key: f, ..self.auth.basic },
                                ..self.auth
                            },
                            ..self
                        },
                        InputField::Value => ModelView {
                            auth: AuthView {
                                basic: RowView { value: f, ..self.auth.basic },
                                ..self.auth
                            },
                            ..self
                        },
                    },
                    AuthFormat::Bearer => ModelView {
                        auth: AuthView { bearer: f, ..self.auth },
                        ..self
                    },
                },
                InputType::Body => if self.current_body_format is Json {
                    ModelView { json_body_input: f, ..self }
                } else {
                    match self.current_input_field {
                        InputField::Key => ModelView {
                            body_input_table: self.body_input_table.update(
                                self.input_index,
                                RowView { key: f, ..self.body_input_table[self.input_index] },
                            ),
                            ..self
                        },
                        InputField::Value => ModelView {
                            body_input_table: self.body_input_table.update(
                                self.input_index,
                                RowView { value: f, ..self.body_input_table[self.input_index] },
                            ),
                            ..self
                        },
                    }
                },
                InputType::Headers => match self.current_input_field {
                    InputField::Key => ModelView {
                        headers_input_table: self.headers_input_table.update(
                            self.input_index,
                            RowView { key: f, ..self.headers_input_table[self.input_index] },
                        ),
                        ..self
                    },
                    InputField::Value => ModelView {
                        headers_input_table: self.headers_input_table.update(
                            self.input_index,
                            RowView { value: f, ..self.headers_input_table[self.input_index] },
                        ),
                        ..self
                    },
                },
            },
            Panel::Output => ModelView { output_input: f, ..self },
        }
    }

    /// The model after applying `op` to the current field.
    pub open spec fn apply_current(self, op: FieldOp) -> ModelView {
        self.with_current_field(self.current_field().apply(op))
    }

    /// Whether keys should be routed as in a multi-line field: the raw JSON
    /// body or the read-only output.
    pub open spec fn is_multiline_input(self) -> bool {
        (self.current_panel is Input && self.current_input_type is Body
            && self.current_body_format is Json) || self.current_panel is Output
    }

    /// The model with the current input type's row table replaced.
    pub open spec fn with_current_table(self, t: Seq<RowView>) -> ModelView {
        match self.current_input_type {
            InputType::Auth | InputType::Headers => ModelView { headers_input_table: t, ..self },
            InputType::Body => ModelView { body_input_table: t, ..self },
        }
    }

    /// A fresh model: Normal mode on the Method panel, GET, every field
    /// blank, one blank row in each table.
    pub open spec fn init(filename: Seq<char>) -> ModelView {
        ModelView {
            filename,
            current_mode: Mode::Normal,
            current_panel: Panel::Method,
            current_method: Method::GET,
            dummy_input: FieldView::null(),
            url_input: FieldView::oneline(Seq::empty()),
            auth: AuthView {
                format: AuthFormat::NoAuth,
                basic: RowView::blank(),
                bearer: FieldView::oneline(Seq::empty()),
            },
            current_input_type: InputType::Auth,
            current_input_field: InputField::Key,
            current_body_format: BodyFormat::Json,
            input_index: 0,
            headers_input_table: seq![RowView::blank()],
            body_input_table: seq![RowView::blank()],
            json_body_input: FieldView::oneline(Seq::empty()),
            output_input: FieldView::multiline(Seq::empty()),
            message: Seq::empty(),
            exit: false,
        }
    }

    /// Advancing the input field: on Basic auth the two halves alternate;
    /// on a row table, stepping past the value of the last row first appends
    /// a blank row if the last row holds text, then advances the row index
    /// if one more row lies below.
    pub open spec fn next_input_field_spec(self) -> ModelView {
        match self.current_input_type {
            InputType::Auth => match self.auth.format {
                AuthFormat::NoAuth | AuthFormat::Bearer => self,
                AuthFormat::Basic => ModelView {
                    current_input_field: cyc_next_field(self.current_input_field),
                    ..self
                },
            },
            InputType::Headers | InputType::Body => {
                let step = if self.current_input_field is Value {
                    let t0 = self.current_table();
                    let t = if !t0.last().is_empty() {
                        t0.push(RowView::blank())
                    } else {
                        t0
                    };
                    let grown = self.with_current_table(t);
                    if grown.input_index < t.len() - 1 {
                        ModelView { input_index: grown.input_index + 1, ..grown }
                    } else {
                        grown
                    }
                } else {
                    self
                };
                ModelView { current_input_field: cyc_next_field(self.current_input_field), ..step }
            },
        }
    }

    /// Retreating the input field: on Basic auth the halves alternate; on a
    /// row table, stepping before the key of the first row wraps the row
    /// index to the last row, otherwise it decrements.
    pub open spec fn previous_input_field_spec(self) -> ModelView {
        match self.current_input_type {
            InputType::Auth => match self.auth.format {
                AuthFormat::NoAuth | AuthFormat::Bearer => self,
                AuthFormat::Basic => ModelView {
                    current_input_field: cyc_prev_field(self.current_input_field),
                    ..self
                },
            },
            InputType::Headers | InputType::Body => {
                let step = if self.current_input_field is Key {
                    if self.input_index == 0 {
                        ModelView { input_index: self.current_table().len() - 1, ..self }
                    } else {
                        ModelView { input_index: self.input_index - 1, ..self }
                    }
                } else {
                    self
                };
                ModelView { current_input_field: cyc_prev_field(self.current_input_field), ..step }
            },
        }
    }

    /// Switching the input type resets the input field and puts the row
    /// index on the last row of the newly selected table.
    pub open spec fn with_input_type(self, t: InputType) -> ModelView {
        let m = ModelView { current_input_type: t, current_input_field: InputField::Key, ..self };
        ModelView { input_index: m.current_table().len() - 1, ..m }
    }
}

pub open spec fn cyc_next_field(f: InputField) -> InputField {
    match f {
        InputField::Key => InputField::Value,
        InputField::Value => InputField::Key,
    }
}

pub open spec fn cyc_prev_field(f: InputField) -> InputField {
    match f {
        InputField::Key => InputField::Value,
        InputField::Value => InputField::Key,
    }
}

pub open spec fn cyc_next_type(t: InputType) -> InputType {
    match t {
        InputType::Auth => InputType::Headers,
        InputType::Headers => InputType::Body,
        InputType::Body => InputType::Auth,
    }
}

pub open spec fn cyc_prev_type(t: InputType) -> InputType {
    match t {
        InputType::Auth => InputType::Body,
        InputType::Headers => InputType::Auth,
        InputType::Body => InputType::Headers,
    }
}

pub open spec fn cyc_next_auth(f: AuthFormat) -> AuthFormat {
    match f {
        AuthFormat::NoAuth => AuthFormat::Basic,
        AuthFormat::Basic => AuthFormat::Bearer,
        AuthFormat::Bearer => AuthFormat::NoAuth,
    }
}

pub open spec fn cyc_prev_auth(f: AuthFormat) -> AuthFormat {
    match f {
        AuthFormat::NoAuth => AuthFormat::Bearer,
        AuthFormat::Basic => AuthFormat::NoAuth,
        AuthFormat::Bearer => AuthFormat::Basic,
    }
}

pub open spec fn cyc_next_body(f: BodyFormat) -> BodyFormat {
    match f {
        BodyFormat::Json => BodyFormat::Form,
        BodyFormat::Form => BodyFormat::Json,
    }
}

/// The key/value texts of the rows whose key is non-empty, in table order.
pub open spec fn non_empty_pairs(t: Seq<RowView>) -> Seq<(Seq<char>, Seq<char>)>
    decreases t.len(),
{
    if t.len() == 0 {
        Seq::empty()
    } else {
        let rest = non_empty_pairs(t.drop_last());
        if t.last().key.text().len() > 0 {
            rest.push((t.last().key.text(), t.last().value.text()))
        } else {
            rest
        }
    }
}

/// The row table a persistence collaborator's pairs populate: one row per
/// pair, or a single blank row when no pairs were supplied.
pub open spec fn table_from_pairs(pairs: Seq<(Seq<char>, Seq<char>)>) -> Seq<RowView> {
    if pairs.len() == 0 {
        seq![RowView::blank()]
    } else {
        pairs.map_values(
            |p: (Seq<char>, Seq<char>)|
                RowView { key: FieldView::oneline(p.0), value: FieldView::oneline(p.1) },
        )
    }
}

/// Build a row table out of a persistence collaborator's pairs.
fn table_from_pair_vec(pairs: &Vec<(String, String)>) -> (r: Vec<InputRow>)
    ensures
        r@.map_values(|row: InputRow| row@) == table_from_pairs(
            pairs@.map_values(|p: (String, String)| (p.0@, p.1@)),
        ),
        table_wf(r@.map_values(|row: InputRow| row@)),
{
    let ghost pview = pairs@.map_values(|p: (String, String)| (p.0@, p.1@));
    if pairs.len() == 0 {
        let mut t: Vec<InputRow> = Vec::new();
        t.push(InputRow::blank());
        proof {
            assert(t@.map_values(|row: InputRow| row@) =~= table_from_pairs(pview));
        }
        t
    } else {
        let mut t: Vec<InputRow> = Vec::new();
        let mut i: usize = 0;
        while i < pairs.len()
            invariant
                i <= pairs@.len(),
                t@.len() == i,
                pview == pairs@.map_values(|p: (String, String)| (p.0@, p.1@)),
                forall|k: int|
                    0 <= k < i ==> (#[trigger] t@[k])@ == (RowView {
                        key: FieldView::oneline(pview[k].0),
                        value: FieldView::oneline(pview[k].1),
                    }),
                forall|k: int| 0 <= k < t@.len() ==> (#[trigger] t@[k])@.wf(),
            decreases pairs@.len() - i,
        {
            let row = InputRow::from_pair(pairs[i].0.as_str(), pairs[i].1.as_str());
            t.push(row);
            i += 1;
        }
        proof {
            assert(t@.map_values(|row: InputRow| row@) =~= table_from_pairs(pview));
        }
        t
    }
}

impl Model {
    pub open spec fn wf(&self) -> bool {
        self@.wf()
    }

    /// A fresh model for the request file `filename`.
    pub fn new(filename: String) -> (r: Model)
        ensures
            r@ == ModelView::init(filename@),
            r.wf(),
    {
        let mut headers: Vec<InputRow> = Vec::new();
        headers.push(InputRow::blank());
        let mut body: Vec<InputRow> = Vec::new();
        body.push(InputRow::blank());
        let r = Model {
            filename,
            current_mode: Mode::Normal,
            current_panel: Panel::Method,
            current_method: Method::GET,
            dummy_input: TextField::new_null(),
            url_input: TextField::new_oneline(""),
            auth: Auth {
                format: AuthFormat::NoAuth,
                basic_input: InputRow::blank(),
                bearer_input: TextField::new_oneline(""),
            },
            current_input_type: InputType::Auth,
            current_input_field: InputField::Key,
            current_body_format: BodyFormat::Json,
            input_index: 0,
            headers_input_table: headers,
            body_input_table: body,
            json_body_input: TextField::new_oneline(""),
            output_input: TextField::new_multiline(""),
            message: String::new(),
            exit: false,
        };
        proof {
            reveal_strlit("");
            assert(""@ =~= Seq::<char>::empty());
            assert(FieldView::multiline(""@).lines =~= seq![Seq::<char>::empty()]);
            assert(r@ =~= ModelView::init(r.filename@));
        }
        r
    }

    /// A model populated with the texts a persistence collaborator read
    /// from a request file; selections, cursors and mode start fresh.
    pub fn with_content(
        filename: String,
        method_name: &str,
        url: &str,
        auth_format_label: &str,
        basic_username: &str,
        basic_password: &str,
        bearer_token: &str,
        headers: &Vec<(String, String)>,
        body: &Vec<(String, String)>,
        json_body: &str,
    ) -> (r: Model)
        ensures
            r@ == (ModelView {
                current_method: Method::spec_from_name(method_name@),
                url_input: FieldView::oneline(url@),
                auth: AuthView {
                    format: AuthFormat::spec_from_label(auth_format_label@),
                    basic: RowView {
                        key: FieldView::oneline(basic_username@),
                        value: FieldView::oneline(basic_password@),
                    },
                    bearer: FieldView::oneline(bearer_token@),
                },
                headers_input_table: table_from_pairs(
                    headers@.map_values(|p: (String, String)| (p.0@, p.1@)),
                ),
                body_input_table: table_from_pairs(
                    body@.map_values(|p: (String, String)| (p.0@, p.1@)),
                ),
                json_body_input: FieldView::oneline(json_body@),
                ..ModelView::init(filename@)
            }),
            r.wf(),
    {
        let headers_table = table_from_pair_vec(headers);
        let body_table = table_from_pair_vec(body);
        let r = Model {
            filename,
            current_mode: Mode::Normal,
            current_panel: Panel::Method,
            current_method: Method::from_name(method_name),
            dummy_input: TextField::new_null(),
            url_input: TextField::new_oneline(url),
            auth: Auth {
                format: AuthFormat::from_label(auth_format_label),
                basic_input: InputRow::from_pair(basic_username, basic_password),
                bearer_input: TextField::new_oneline(bearer_token),
            },
            current_input_type: InputType::Auth,
            current_input_field: InputField::Key,
            current_body_format: BodyFormat::Json,
            input_index: 0,
            headers_input_table: headers_table,
            body_input_table: body_table,
            json_body_input: TextField::new_oneline(json_body),
            output_input: TextField::new_multiline(""),
            message: String::new(),
            exit: false,
        };
        proof {
            reveal_strlit("");
            assert(""@ =~= Seq::<char>::empty());
            assert(FieldView::multiline(""@).lines =~= seq![Seq::<char>::empty()]);
            assert(r@ =~= (ModelView {
                current_method: Method::spec_from_name(method_name@),
                url_input: FieldView::oneline(url@),
                auth: AuthView {
                    format: AuthFormat::spec_from_label(auth_format_label@),
                    basic: RowView {
                        key: FieldView::oneline(basic_username@),
                        value: FieldView::oneline(basic_password@),
                    },
                    bearer: FieldView::oneline(bearer_token@),
                },
                headers_input_table: table_from_pairs(
                    headers@.map_values(|p: (String, String)| (p.0@, p.1@)),
                ),
                body_input_table: table_from_pairs(
                    body@.map_values(|p: (String, String)| (p.0@, p.1@)),
                ),
                json_body_input: FieldView::oneline(json_body@),
                ..ModelView::init(r.filename@)
            }));
        }
        r
    }

    /// The field that the panel, input type, formats, input field and row
    /// index currently select.
    pub fn current_input(&self) -> (r: &TextField)
        requires
            self.wf(),
        ensures
            r@ == self@.current_field(),
    {
        match self.current_panel {
            Panel::Method => &self.dummy_input,
            Panel::Url => &self.url_input,
            Panel::Input => match self.current_input_type {
                InputType::Auth => match self.auth.format {
                    AuthFormat::NoAuth => &self.dummy_input,
                    AuthFormat::Basic => match self.current_input_field {
                        InputField::Key => &self.auth.basic_input.key,
                        InputField::Value => &self.auth.basic_input.value,
                    },
                    AuthFormat::Bearer => &self.auth.bearer_input,
                },
                InputType::Body => {
                    if matches!(self.current_body_format, BodyFormat::Json) {
                        &self.json_body_input
                    } else {
                        match self.current_input_field {
                            InputField::Key => &self.body_input_table[self.input_index].key,
                            InputField::Value => &self.body_input_table[self.input_index].value,
                        }
                    }
                },
                InputType::Headers => match self.current_input_field {
                    InputField::Key => &self.headers_input_table[self.input_index].key,
                    InputField::Value => &self.headers_input_table[self.input_index].value,
                },
            },
            Panel::Output => &self.output_input,
        }
    }

    /// Apply a field operation to whichever field is current.
    #[verifier::rlimit(100)]
    pub fn apply_current(&mut self, op: FieldOp)
        requires
            old(self).wf(),
        ensures
            final(self)@ == old(self)@.apply_current(op),
            final(self).wf(),
    {
        match self.current_panel {
            Panel::Method => self.dummy_input.apply(op),
            Panel::Url => self.url_input.apply(op),
            Panel::Input => match self.current_input_type {
                InputType::Auth => match self.auth.format {
                    AuthFormat::NoAuth => self.dummy_input.apply(op),
                    AuthFormat::Basic => match self.current_input_field {
                        InputField::Key => self.auth.basic_input.key.apply(op),
                        InputField::Value => self.auth.basic_input.value.apply(op),
                    },
                    AuthFormat::Bearer => self.auth.bearer_input.apply(op),
                },
                InputType::Body => {
                    if matches!(self.current_body_format, BodyFormat::Json) {
                        self.json_body_input.apply(op);
                    } else {
                        let i = self.input_index;
                        let mut row = self.body_input_table.remove(i);
                        match self.current_input_field {
                            InputField::Key => row.key.apply(op),
                            InputField::Value => row.value.apply(op),
                        }
                        self.body_input_table.insert(i, row);
                        proof {
                            assert(self@.body_input_table =~= old(self)@.apply_current(
                                op,
                            ).body_input_table);
                        }
                    }
                },
                InputType::Headers => {
                    let i = self.input_index;
                    let mut row = self.headers_input_table.remove(i);
                    match self.current_input_field {
                        InputField::Key => row.key.apply(op),
                        InputField::Value => row.value.apply(op),
                    }
                    self.headers_input_table.insert(i, row);
                    proof {
                        assert(self@.headers_input_table =~= old(self)@.apply_current(
                            op,
                        ).headers_input_table);
                    }
                },
            },
            Panel::Output => self.output_input.apply(op),
        }
        proof {
            assert(self@ =~= old(self)@.apply_current(op));
        }
    }

    /// Enter Insert mode one position past the character under the cursor.
    pub fn append(&mut self)
        requires
            old(self).wf(),
        ensures
            final(self)@ == (ModelView { current_mode: Mode::Insert, ..old(self)@ }).apply_current(
                FieldOp::Move(CursorMove::NextChar),
            ),
            final(self).wf(),
    {
        self.current_mode = Mode::Insert;
        self.apply_current(FieldOp::Move(CursorMove::NextChar));
    }

    /// Enter Insert mode without moving the cursor.
    pub fn insert(&mut self)
        requires
            old(self).wf(),
        ensures
            final(self)@ == (ModelView { current_mode: Mode::Insert, ..old(self)@ }),
            final(self).wf(),
    {
        self.current_mode = Mode::Insert;
    }

    /// Step the cursor back one position, onto the last edited character.
    pub fn leave_insert(&mut self)
        requires
            old(self).wf(),
        ensures
            final(self)@ == old(self)@.apply_current(FieldOp::Move(CursorMove::PrevChar)),
            final(self).wf(),
    {
        self.apply_current(FieldOp::Move(CursorMove::PrevChar));
    }

    /// Enter Normal mode.
    pub fn normal(&mut self)
        requires
            old(self).wf(),
        ensures
            final(self)@ == (ModelView { current_mode: Mode::Normal, ..old(self)@ }),
            final(self).wf(),
    {
        self.current_mode = Mode::Normal;
    }

    /// Enter Visual mode and anchor a selection at the cursor.
    pub fn visual(&mut self)
        requires
            old(self).wf(),
        ensures
            final(self)@ == (ModelView { current_mode: Mode::Visual, ..old(self)@ }).apply_current(
                FieldOp::StartSelection,
            ),
            final(self).wf(),
    {
        self.current_mode = Mode::Visual;
        self.apply_current(FieldOp::StartSelection);
    }

    /// Drop the active selection.
    pub fn leave_visual(&mut self)
        requires
            old(self).wf(),
        ensures
            final(self)@ == old(self)@.apply_current(FieldOp::CancelSelection),
            final(self).wf(),
    {
        self.apply_current(FieldOp::CancelSelection);
    }

    /// Focus moves left: from the URL panel to the Method panel; from
    /// anywhere else it leaves the interface toward the multiplexer.
    pub fn select_panel_left(&mut self) -> (r: Option<Direction>)
        requires
            old(self).wf(),
        ensures
            final(self).wf(),
            match old(self).current_panel {
                Panel::Url => final(self)@ == (ModelView {
                    current_panel: Panel::Method,
                    ..old(self)@
                }) && r is None,
                _ => final(self)@ == old(self)@ && r == Some(Direction::Left),
            },
    {
        match self.current_panel {
            Panel::Url => {
                self.current_panel = Panel::Method;
                None
            },
            _ => Some(Direction::Left),
        }
    }

    /// Focus moves down: Method and URL lead to the Input panel, Input to
    /// the Output panel; from Output it leaves toward the multiplexer.
    pub fn select_panel_down(&mut self) -> (r: Option<Direction>)
        requires
            old(self).wf(),
        ensures
            final(self).wf(),
            match old(self).current_panel {
                Panel::Url | Panel::Method => final(self)@ == (ModelView {
                    current_panel: Panel::Input,
                    ..old(self)@
                }) && r is None,
                Panel::Input => final(self)@ == (ModelView {
                    current_panel: Panel::Output,
                    ..old(self)@
                }) && r is None,
                _ => final(self)@ == old(self)@ && r == Some(Direction::Down),
            },
    {
        match self.current_panel {
            Panel::Url | Panel::Method => {
                self.current_panel = Panel::Input;
                None
            },
            Panel::Input => {
                self.current_panel = Panel::Output;
                None
            },
            _ => Some(Direction::Down),
        }
    }

    /// Focus moves up: Output leads to Input, Input to URL; from Method or
    /// URL it leaves toward the multiplexer.
    pub fn select_panel_up(&mut self) -> (r: Option<Direction>)
        requires
            old(self).wf(),
        ensures
            final(self).wf(),
            match old(self).current_panel {
                Panel::Output => final(self)@ == (ModelView {
                    current_panel: Panel::Input,
                    ..old(self)@
                }) && r is None,
                Panel::Input => final(self)@ == (ModelView {
                    current_panel: Panel::Url,
                    ..old(self)@
                }) && r is None,
                _ => final(self)@ == old(self)@ && r == Some(Direction::Up),
            },
    {
        match self.current_panel {
            Panel::Output => {
                self.current_panel = Panel::Input;
                None
            },
            Panel::Input => {
                self.current_panel = Panel::Url;
                None
            },
            _ => Some(Direction::Up),
        }
    }

    /// Focus moves right: from the Method panel to the URL panel; from
    /// anywhere else it leaves toward the multiplexer.
    pub fn select_panel_right(&mut self) -> (r: Option<Direction>)
        requires
            old(self).wf(),
        ensures
            final(self).wf(),
            match old(self).current_panel {
                Panel::Method => final(self)@ == (ModelView {
                    current_panel: Panel::Url,
                    ..old(self)@
                }) && r is None,
                _ => final(self)@ == old(self)@ && r == Some(Direction::Right),
            },
    {
        match self.current_panel {
            Panel::Method => {
                self.current_panel = Panel::Url;
                None
            },
            _ => Some(Direction::Right),
        }
    }

    /// Where the cursor sits on the method selector: past the method name.
    pub fn method_cursor_position(&self) -> (r: u16)
        ensures
            r == self.current_method.label().len() as u16,
    {
        let s = self.current_method.to_string();
        proof {
            reveal_strlit("OPTIONS");
            reveal_strlit("GET");
            reveal_strlit("HEAD");
            reveal_strlit("POST");
            reveal_strlit("PUT");
            reveal_strlit("PATCH");
            reveal_strlit("DELETE");
            reveal_strlit("TRACE");
            reveal_strlit("CONNECT");
        }
        s.as_str().unicode_len() as u16
    }

    pub fn next_method(&mut self)
        ensures
            final(self)@ == (ModelView {
                current_method: old(self).current_method.succ(),
                ..old(self)@
            }),
    {
        self.current_method = match self.current_method {
            Method::OPTIONS => Method::GET,
            Method::GET => Method::HEAD,
            Method::HEAD => Method::POST,
            Method::POST => Method::PUT,
            Method::PUT => Method::PATCH,
            Method::PATCH => Method::DELETE,
            Method::DELETE => Method::TRACE,
            Method::TRACE => Method::CONNECT,
            Method::CONNECT => Method::OPTIONS,
        };
    }

    pub fn previous_method(&mut self)
        ensures
            final(self)@ == (ModelView {
                current_method: old(self).current_method.pred(),
                ..old(self)@
            }),
    {
        self.current_method = match self.current_method {
            Method::OPTIONS => Method::CONNECT,
            Method::GET => Method::OPTIONS,
            Method::HEAD => Method::GET,
            Method::POST => Method::HEAD,
            Method::PUT => Method::POST,
            Method::PATCH => Method::PUT,
            Method::DELETE => Method::PATCH,
            Method::TRACE => Method::DELETE,
            Method::CONNECT => Method::TRACE,
        };
    }

    /// Column of the current field's cursor, as the view layer shows it.
    pub fn cursor_col(&self) -> (r: u16)
        requires
            self.wf(),
        ensures
            r == self@.current_field().cursor_col as u16,
    {
        #[verifier::truncate]
        let r = (self.current_input().cursor().0) as u16;
        r
    }

    /// Hand the selected text out for the copy sink and drop the selection.
    pub fn copy(&mut self) -> (r: String)
        requires
            old(self).wf(),
        ensures
            r@ == old(self)@.current_field().selected_text(),
            final(self)@ == old(self)@.apply_current(FieldOp::CancelSelection),
            final(self).wf(),
    {
        let text = self.current_input().selected_text();
        self.apply_current(FieldOp::CancelSelection);
        text
    }

    /// Route an Insert-mode key to the current field.
    pub fn handle_insert_input(&mut self, event: KeyEvent)
        requires
            old(self).wf(),
        ensures
            final(self)@ == old(self)@.apply_current(FieldOp::InsertKey(event)),
            final(self).wf(),
    {
        self.apply_current(FieldOp::InsertKey(event));
    }

    /// Route a Normal-mode navigation key to the current field; keys that
    /// classify as no motion leave the model unchanged.
    pub fn handle_normal_input(&mut self, key_event: KeyEvent)
        requires
            old(self).wf(),
        ensures
            final(self).wf(),
            match normal_nav_move(key_event, old(self)@.is_multiline_input()) {
                Some(m) => final(self)@ == old(self)@.apply_current(FieldOp::Move(m)),
                None => final(self)@ == old(self)@,
            },
    {
        let multiline = self.is_multiline_input();
        match normal_move_for(key_event, multiline) {
            Some(m) => self.apply_current(FieldOp::Move(m)),
            None => {},
        }
    }

    /// Select the next input type, reset the input field and put the row
    /// index on the last row of the new table.
    pub fn next_input_type(&mut self)
        requires
            old(self).wf(),
        ensures
            final(self)@ == old(self)@.with_input_type(cyc_next_type(
                old(self).current_input_type,
            )),
            final(self).wf(),
    {
        self.current_input_type = match self.current_input_type {
            InputType::Auth => InputType::Headers,
            InputType::Headers => InputType::Body,
            InputType::Body => InputType::Auth,
        };
        self.current_input_field = InputField::Key;
        self.input_index = self.current_input_table().len() - 1;
    }

    /// Select the previous input type, reset the input field and put the
    /// row index on the last row of the new table.
    pub fn previous_input_type(&mut self)
        requires
            old(self).wf(),
        ensures
            final(self)@ == old(self)@.with_input_type(cyc_prev_type(
                old(self).current_input_type,
            )),
            final(self).wf(),
    {
        self.current_input_type = match self.current_input_type {
            InputType::Auth => InputType::Body,
            InputType::Headers => InputType::Auth,
            InputType::Body => InputType::Headers,
        };
        self.current_input_field = InputField::Key;
        self.input_index = self.current_input_table().len() - 1;
    }

    /// Advance the input field, appending a blank row and advancing the row
    /// index as the table rules demand. Row tables never become empty.
    pub fn next_input_field(&mut self)
        requires
            old(self).wf(),
        ensures
            final(self)@ == old(self)@.next_input_field_spec(),
            final(self).wf(),
            final(self)@.headers_input_table.len() >= 1,
            final(self)@.body_input_table.len() >= 1,
    {
        match self.current_input_type {
            InputType::Auth => match self.auth.format {
                AuthFormat::NoAuth | AuthFormat::Bearer => {},
                AuthFormat::Basic => {
                    self.current_input_field = next_field(self.current_input_field);
                },
            },
            InputType::Headers | InputType::Body => {
                if matches!(self.current_input_field, InputField::Value) {
                    if matches!(self.current_input_type, InputType::Body) {
                        let last = self.body_input_table.len() - 1;
                        let grow = !self.body_input_table[last].is_empty();
                        if grow {
                            self.body_input_table.push(InputRow::blank());
                        }
                        if self.input_index < self.body_input_table.len() - 1 {
                            self.input_index = self.input_index + 1;
                        }
                        proof {
                            assert(self@.body_input_table =~= old(self)@.next_input_field_spec().body_input_table);
                        }
                    } else {
                        let last = self.headers_input_table.len() - 1;
                        let grow = !self.headers_input_table[last].is_empty();
                        if grow {
                            self.headers_input_table.push(InputRow::blank());
                        }
                        if self.input_index < self.headers_input_table.len() - 1 {
                            self.input_index = self.input_index + 1;
                        }
                        proof {
                            assert(self@.headers_input_table =~= old(self)@.next_input_field_spec().headers_input_table);
                        }
                    }
                }
                self.current_input_field = next_field(self.current_input_field);
            },
        }
        proof {
            assert(self@ =~= old(self)@.next_input_field_spec());
        }
    }

    /// Retreat the input field, wrapping the row index to the last row when
    /// it steps before the first. Row tables never become empty.
    pub fn previous_input_field(&mut self)
        requires
            old(self).wf(),
        ensures
            final(self)@ == old(self)@.previous_input_field_spec(),
            final(self).wf(),
            final(self)@.headers_input_table.len() >= 1,
            final(self)@.body_input_table.len() >= 1,
    {
        match self.current_input_type {
            InputType::Auth => match self.auth.format {
                AuthFormat::NoAuth | AuthFormat::Bearer => {},
                AuthFormat::Basic => {
                    self.current_input_field = prev_field(self.current_input_field);
                },
            },
            InputType::Headers | InputType::Body => {
                if matches!(self.current_input_field, InputField::Key) {
                    if self.input_index == 0 {
                        self.input_index = self.current_input_table().len() - 1;
                    } else {
                        self.input_index = self.input_index - 1;
                    }
                }
                self.current_input_field = prev_field(self.current_input_field);
            },
        }
        proof {
            assert(self@ =~= old(self)@.previous_input_field_spec());
        }
    }

    /// Advance the format toggle of the current input type: the auth format
    /// on Auth, the body format on Body, nothing on Headers.
    pub fn next_input_format(&mut self)
        requires
            old(self).wf(),
        ensures
            final(self).wf(),
            final(self)@ == (match old(self).current_input_type {
                InputType::Auth => ModelView {
                    auth: AuthView { format: cyc_next_auth(old(self)@.auth.format), ..old(self)@.auth },
                    ..old(self)@
                },
                InputType::Headers => old(self)@,
                InputType::Body => ModelView {
                    current_body_format: cyc_next_body(old(self).current_body_format),
                    ..old(self)@
                },
            }),
    {
        match self.current_input_type {
            InputType::Auth => {
                self.auth.format = match self.auth.format {
                    AuthFormat::NoAuth => AuthFormat::Basic,
                    AuthFormat::Basic => AuthFormat::Bearer,
                    AuthFormat::Bearer => AuthFormat::NoAuth,
                };
            },
            InputType::Headers => {},
            InputType::Body => {
                self.current_body_format = match self.current_body_format {
                    BodyFormat::Json => BodyFormat::Form,
                    BodyFormat::Form => BodyFormat::Json,
                };
            },
        }
    }

    /// Retreat the format toggle of the current input type.
    pub fn previous_input_format(&mut self)
        requires
            old(self).wf(),
        ensures
            final(self).wf(),
            final(self)@ == (match old(self).current_input_type {
                InputType::Auth => ModelView {
                    auth: AuthView { format: cyc_prev_auth(old(self)@.auth.format), ..old(self)@.auth },
                    ..old(self)@
                },
                InputType::Headers => old(self)@,
                InputType::Body => ModelView {
                    current_body_format: cyc_next_body(old(self).current_body_format),
                    ..old(self)@
                },
            }),
    {
        match self.current_input_type {
            InputType::Auth => {
                self.auth.format = match self.auth.format {
                    AuthFormat::NoAuth => AuthFormat::Bearer,
                    AuthFormat::Basic => AuthFormat::NoAuth,
                    AuthFormat::Bearer => AuthFormat::Basic,
                };
            },
            InputType::Headers => {},
            InputType::Body => {
                self.current_body_format = match self.current_body_format {
                    BodyFormat::Json => BodyFormat::Form,
                    BodyFormat::Form => BodyFormat::Json,
                };
            },
        }
    }

    /// The row table the current input type works on.
    pub fn current_input_table(&self) -> (r: &Vec<InputRow>)
        ensures
            r@.map_values(|row: InputRow| row@) == self@.current_table(),
    {
        match self.current_input_type {
            InputType::Auth | InputType::Headers => &self.headers_input_table,
            InputType::Body => &self.body_input_table,
        }
    }

    /// The header rows whose key is non-empty, as plain text pairs, for the
    /// request-building collaborator.
    pub fn non_empty_headers(&self) -> (r: Vec<(String, String)>)
        requires
            self.wf(),
        ensures
            r@.map_values(|p: (String, String)| (p.0@, p.1@)) == non_empty_pairs(
                self@.headers_input_table,
            ),
    {
        non_empty_rows(&self.headers_input_table)
    }

    /// The body rows whose key is non-empty, as plain text pairs, for the
    /// request-building collaborator.
    pub fn non_empty_body(&self) -> (r: Vec<(String, String)>)
        requires
            self.wf(),
        ensures
            r@.map_values(|p: (String, String)| (p.0@, p.1@)) == non_empty_pairs(
                self@.body_input_table,
            ),
    {
        non_empty_rows(&self.body_input_table)
    }

    /// Whether keys should be routed as in a multi-line field.
    pub fn is_multiline_input(&self) -> (r: bool)
        ensures
            r == self@.is_multiline_input(),
    {
        (matches!(self.current_panel, Panel::Input) && matches!(
            self.current_input_type,
            InputType::Body,
        ) && matches!(self.current_body_format, BodyFormat::Json)) || matches!(
            self.current_panel,
            Panel::Output,
        )
    }

    /// Store the response text a submission collaborator brought back.
    pub fn set_output(&mut self, text: &str)
        requires
            old(self).wf(),
        ensures
            final(self)@ == (ModelView {
                output_input: FieldView::multiline(text@),
                ..old(self)@
            }),
            final(self).wf(),
    {
        self.output_input = TextField::new_multiline(text);
    }
}

/// Law: the Headers and Body row tables are never empty. Advancing or
/// retreating the input field of a well-formed model keeps at least one row
/// in each table and keeps the model well-formed, so no sequence of these
/// steps can empty a table.
pub proof fn lemma_row_tables_never_empty(m: ModelView)
    requires
        m.wf(),
    ensures
        m.next_input_field_spec().wf(),
        m.next_input_field_spec().headers_input_table.len() >= 1,
        m.next_input_field_spec().body_input_table.len() >= 1,
        m.previous_input_field_spec().wf(),
        m.previous_input_field_spec().headers_input_table.len() >= 1,
        m.previous_input_field_spec().body_input_table.len() >= 1,
{
    assert(RowView::blank().wf());
}

/// Exec counterpart of `cyc_next_field`.
fn next_field(f: InputField) -> (r: InputField)
    ensures
        r == cyc_next_field(f),
{
    match f {
        InputField::Key => InputField::Value,
        InputField::Value => InputField::Key,
    }
}

/// Exec counterpart of `cyc_prev_field`.
fn prev_field(f: InputField) -> (r: InputField)
    ensures
        r == cyc_prev_field(f),
{
    match f {
        InputField::Key => InputField::Value,
        InputField::Value => InputField::Key,
    }
}

/// Which cursor motion a Normal-mode key asks for: h/l and the arrows move
/// by a character, w/b by a word, ^/Home and $/End to the line boundaries;
/// j/k and the vertical arrows move by a line only on multi-line targets.
pub open spec fn normal_nav_move(e: KeyEvent, multiline: bool) -> Option<CursorMove> {
    match e.code {
        KeyCode::Char(c) => if c == 'h' {
            Some(CursorMove::PrevChar)
        } else if c == 'l' {
            Some(CursorMove::NextChar)
        } else if c == 'b' {
            Some(CursorMove::PrevWord)
        } else if c == 'w' {
            Some(CursorMove::NextWord)
        } else if c == '^' {
            Some(CursorMove::LineHead)
        } else if c == '$' {
            Some(CursorMove::LineEnd)
        } else if c == 'j' && multiline {
            Some(CursorMove::NextLine)
        } else if c == 'k' && multiline {
            Some(CursorMove::PrevLine)
        } else {
            None
        },
        KeyCode::Left => Some(CursorMove::PrevChar),
        KeyCode::Right => Some(CursorMove::NextChar),
        KeyCode::Home => Some(CursorMove::LineHead),
        KeyCode::End => Some(CursorMove::LineEnd),
        KeyCode::Down => if multiline {
            Some(CursorMove::NextLine)
        } else {
            None
        },
        KeyCode::Up => if multiline {
            Some(CursorMove::PrevLine)
        } else {
            None
        },
        _ => None,
    }
}

/// Exec counterpart of `normal_nav_move`.
fn normal_move_for(e: KeyEvent, multiline: bool) -> (r: Option<CursorMove>)
    ensures
        r == normal_nav_move(e, multiline),
{
    match e.code {
        KeyCode::Char(c) => {
            if c == 'h' {
                Some(CursorMove::PrevChar)
            } else if c == 'l' {
                Some(CursorMove::NextChar)
            } else if c == 'b' {
                Some(CursorMove::PrevWord)
            } else if c == 'w' {
                Some(CursorMove::NextWord)
            } else if c == '^' {
                Some(CursorMove::LineHead)
            } else if c == '$' {
                Some(CursorMove::LineEnd)
            } else if c == 'j' && multiline {
                Some(CursorMove::NextLine)
            } else if c == 'k' && multiline {
                Some(CursorMove::PrevLine)
            } else {
                None
            }
        },
        KeyCode::Left => Some(CursorMove::PrevChar),
        KeyCode::Right => Some(CursorMove::NextChar),
        KeyCode::Home => Some(CursorMove::LineHead),
        KeyCode::End => Some(CursorMove::LineEnd),
        KeyCode::Down => {
            if multiline {
                Some(CursorMove::NextLine)
            } else {
                None
            }
        },
        KeyCode::Up => {
            if multiline {
                Some(CursorMove::PrevLine)
            } else {
                None
            }
        },
        _ => None,
    }
}

/// The rows of `table` whose key is non-empty, as plain text pairs.
fn non_empty_rows(table: &Vec<InputRow>) -> (r: Vec<(String, String)>)
    requires
        table_wf(table@.map_values(|row: InputRow| row@)),
    ensures
        r@.map_values(|p: (String, String)| (p.0@, p.1@)) == non_empty_pairs(
            table@.map_values(|row: InputRow| row@),
        ),
{
    let ghost tview = table@.map_values(|row: InputRow| row@);
    let mut r: Vec<(String, String)> = Vec::new();
    let mut i: usize = 0;
    while i < table.len()
        invariant
            i <= table@.len(),
            tview == table@.map_values(|row: InputRow| row@),
            forall|k: int| 0 <= k < tview.len() ==> (#[trigger] tview[k]).wf(),
            r@.map_values(|p: (String, String)| (p.0@, p.1@)) == non_empty_pairs(
                tview.subrange(0, i as int),
            ),
        decreases table@.len() - i,
    {
        let row = &table[i];
        proof {
            assert(tview[i as int].wf());
            assert(tview.subrange(0, i + 1).drop_last() =~= tview.subrange(0, i as int));
        }
        if !row.key.is_empty() {
            let pair = row.as_pair();
            r.push(pair);
            proof {
                assert(r@.map_values(|p: (String, String)| (p.0@, p.1@)) =~= non_empty_pairs(
                    tview.subrange(0, i + 1),
                ));
            }
        } else {
            proof {
                assert(r@.map_values(|p: (String, String)| (p.0@, p.1@)) =~= non_empty_pairs(
                    tview.subrange(0, i + 1),
                ));
            }
        }
        i += 1;
    }
    proof {
        assert(tview.subrange(0, tview.len() as int) =~= tview);
    }
    r
}

} // verus!
