//! The modal key-routing state machine: classify each key event into a
//! message given the current mode and panel, and apply a message to the
//! model. Work that only an outside collaborator can do (the multiplexer,
//! the request submission, the copy sink) comes back as an `Effect`.

use vstd::prelude::*;

use crate::input::{CursorMove, FieldOp};
use crate::key::{KeyCode, KeyEvent, KeyModifiers};
use crate::model::{normal_nav_move, AuthView, InputType, Mode, Model, ModelView, Panel};
use crate::tmux::Direction;

verus! {

/// A state change that one key event asks for.
#[derive(Clone, Copy, PartialEq, Eq, Structural, Debug)]
pub enum Message {
    Append,
    Insert,
    LeaveInsert,
    Normal,
    Visual,
    LeaveVisual,
    SelectPanelLeft,
    SelectPanelDown,
    SelectPanelUp,
    SelectPanelRight,
    NextMethod,
    PreviousMethod,
    Copy,
    InsertInput(KeyEvent),
    NormalInput(KeyEvent),
    NextInputType,
    PreviousInputType,
    NextInputField,
    PreviousInputField,
    NextInputFormat,
    PreviousInputFormat,
    SubmitRequest,
    Quit,
}

/// Work that only a collaborator outside the core can perform.
pub enum Effect {
    SelectTmuxPanel(Direction),
    Submit,
    CopyText(String),
}

/// What one update step hands back: a follow-up message to apply next, and
/// work for an outside collaborator.
pub struct UpdateOutcome {
    pub next: Option<Message>,
    pub effect: Option<Effect>,
}

/// Global Normal-mode pre-emption: Control plus h/j/k/l changes panels and
/// is never forwarded to a text field; plain a/i/v enter the other modes.
pub open spec fn pre_normal_message(e: KeyEvent) -> Option<Message> {
    match e.modifiers {
        KeyModifiers::Control => match e.code {
            KeyCode::Char(c) => if c == 'h' {
                Some(Message::SelectPanelLeft)
            } else if c == 'j' {
                Some(Message::SelectPanelDown)
            } else if c == 'k' {
                Some(Message::SelectPanelUp)
            } else if c == 'l' {
                Some(Message::SelectPanelRight)
            } else {
                None
            },
            _ => None,
        },
        KeyModifiers::NoMods => match e.code {
            KeyCode::Char(c) => if c == 'a' {
                Some(Message::Append)
            } else if c == 'i' {
                Some(Message::Insert)
            } else if c == 'v' {
                Some(Message::Visual)
            } else {
                None
            },
            _ => None,
        },
        _ => None,
    }
}

/// Method-panel keys: j/k (or the vertical arrows) step through methods.
pub open spec fn method_panel_message(e: KeyEvent) -> Option<Message> {
    match e.code {
        KeyCode::Char(c) => if c == 'j' {
            Some(Message::NextMethod)
        } else if c == 'k' {
            Some(Message::PreviousMethod)
        } else {
            None
        },
        KeyCode::Down => Some(Message::NextMethod),
        KeyCode::Up => Some(Message::PreviousMethod),
        _ => None,
    }
}

/// Input-panel keys: shifted horizontal arrows switch the input type,
/// adding Control switches the format, Tab and BackTab step the input field.
pub open spec fn input_panel_message(e: KeyEvent) -> Option<Message> {
    match e.code {
        KeyCode::Right => if e.modifiers is Shift {
            Some(Message::NextInputType)
        } else if e.modifiers is ControlShift {
            Some(Message::NextInputFormat)
        } else {
            None
        },
        KeyCode::Left => if e.modifiers is Shift {
            Some(Message::PreviousInputType)
        } else if e.modifiers is ControlShift {
            Some(Message::PreviousInputFormat)
        } else {
            None
        },
        KeyCode::Tab => Some(Message::NextInputField),
        KeyCode::BackTab => Some(Message::PreviousInputField),
        _ => None,
    }
}

/// Panel-specific Normal-mode keys; the URL and Output panels add none.
pub open spec fn panel_message(panel: Panel, e: KeyEvent) -> Option<Message> {
    match panel {
        Panel::Method => method_panel_message(e),
        Panel::Url => None,
        Panel::Input => input_panel_message(e),
        Panel::Output => None,
    }
}

/// After the global and panel-specific handlers: Enter submits the request,
/// anything else is forwarded as Normal-mode navigation.
pub open spec fn post_normal_message(e: KeyEvent) -> Option<Message> {
    match e.code {
        KeyCode::Enter => Some(Message::SubmitRequest),
        _ => Some(Message::NormalInput(e)),
    }
}

/// A Normal-mode key, classified: global pre-emption first, then the
/// panel-specific handler, then the global fallback.
pub open spec fn normal_key_message(panel: Panel, e: KeyEvent) -> Option<Message> {
    match pre_normal_message(e) {
        Some(m) => Some(m),
        None => match panel_message(panel, e) {
            Some(m) => Some(m),
            None => post_normal_message(e),
        },
    }
}

/// An Insert-mode key, classified: Escape leaves the mode, anything else
/// is text input for the current field.
pub open spec fn insert_key_message(e: KeyEvent) -> Option<Message> {
    match e.code {
        KeyCode::Esc => Some(Message::LeaveInsert),
        _ => Some(Message::InsertInput(e)),
    }
}

/// A Visual-mode key, classified: Escape leaves the mode, y commits the
/// selection to the copy sink, anything else extends the selection as
/// Normal-mode navigation would move.
pub open spec fn visual_key_message(e: KeyEvent) -> Option<Message> {
    match e.code {
        KeyCode::Esc => Some(Message::LeaveVisual),
        KeyCode::Char(c) => if c == 'y' {
            Some(Message::Copy)
        } else {
            Some(Message::NormalInput(e))
        },
        _ => Some(Message::NormalInput(e)),
    }
}

/// A key event, classified under the current mode and panel. The quit
/// combination (Control-c) pre-empts every mode, so Insert-mode text can
/// never swallow it.
pub open spec fn classify_key(mode: Mode, panel: Panel, e: KeyEvent) -> Option<Message> {
    if e.code == KeyCode::Char('c') && e.modifiers is Control {
        Some(Message::Quit)
    } else {
        match mode {
            Mode::Normal => normal_key_message(panel, e),
            Mode::Insert => insert_key_message(e),
            Mode::Visual => visual_key_message(e),
        }
    }
}

/// Classify a key event for the model's current mode and panel.
pub fn handle_key(model: &Model, e: KeyEvent) -> (r: Option<Message>)
    ensures
        r == classify_key(model.current_mode, model.current_panel, e),
{
    if matches!(e.code, KeyCode::Char('c')) && matches!(e.modifiers, KeyModifiers::Control) {
        return Some(Message::Quit);
    }
    match model.current_mode {
        Mode::Normal => handle_normal_key(model.current_panel, e),
        Mode::Insert => handle_insert_key(e),
        Mode::Visual => handle_visual_key(e),
    }
}

/// Classify a Normal-mode key event.
pub fn handle_normal_key(panel: Panel, e: KeyEvent) -> (r: Option<Message>)
    ensures
        r == normal_key_message(panel, e),
{
    let pre = globally_pre_handle_normal_key(e);
    if pre.is_some() {
        return pre;
    }
    let specific = match panel {
        Panel::Method => handle_normal_method_key(e),
        Panel::Url => handle_normal_url_key(e),
        Panel::Input => handle_normal_input_key(e),
        Panel::Output => handle_normal_output_key(e),
    };
    if specific.is_some() {
        return specific;
    }
    globally_post_handle_normal_key(e)
}

/// Classify an Insert-mode key event.
pub fn handle_insert_key(e: KeyEvent) -> (r: Option<Message>)
    ensures
        r == insert_key_message(e),
{
    match e.code {
        KeyCode::Esc => Some(Message::LeaveInsert),
        _ => Some(Message::InsertInput(e)),
    }
}

/// Classify a Visual-mode key event.
pub fn handle_visual_key(e: KeyEvent) -> (r: Option<Message>)
    ensures
        r == visual_key_message(e),
{
    match e.code {
        KeyCode::Esc => Some(Message::LeaveVisual),
        KeyCode::Char(c) => {
            if c == 'y' {
                Some(Message::Copy)
            } else {
                Some(Message::NormalInput(e))
            }
        },
        _ => Some(Message::NormalInput(e)),
    }
}

/// The global Normal-mode pre-emption handler.
pub fn globally_pre_handle_normal_key(e: KeyEvent) -> (r: Option<Message>)
    ensures
        r == pre_normal_message(e),
{
    match e.modifiers {
        KeyModifiers::Control => match e.code {
            KeyCode::Char(c) => {
                if c == 'h' {
                    Some(Message::SelectPanelLeft)
                } else if c == 'j' {
                    Some(Message::SelectPanelDown)
                } else if c == 'k' {
                    Some(Message::SelectPanelUp)
                } else if c == 'l' {
                    Some(Message::SelectPanelRight)
                } else {
                    None
                }
            },
            _ => None,
        },
        KeyModifiers::NoMods => match e.code {
            KeyCode::Char(c) => {
                if c == 'a' {
                    Some(Message::Append)
                } else if c == 'i' {
                    Some(Message::Insert)
                } else if c == 'v' {
                    Some(Message::Visual)
                } else {
                    None
                }
            },
            _ => None,
        },
        _ => None,
    }
}

/// The Method panel's Normal-mode handler.
pub fn handle_normal_method_key(e: KeyEvent) -> (r: Option<Message>)
    ensures
        r == method_panel_message(e),
{
    match e.code {
        KeyCode::Char(c) => {
            if c == 'j' {
                Some(Message::NextMethod)
            } else if c == 'k' {
                Some(Message::PreviousMethod)
            } else {
                None
            }
        },
        KeyCode::Down => Some(Message::NextMethod),
        KeyCode::Up => Some(Message::PreviousMethod),
        _ => None,
    }
}

/// The URL panel's Normal-mode handler: no panel-specific keys.
pub fn handle_normal_url_key(_e: KeyEvent) -> (r: Option<Message>)
    ensures
        r is None,
{
    None
}

/// The Input panel's Normal-mode handler.
pub fn handle_normal_input_key(e: KeyEvent) -> (r: Option<Message>)
    ensures
        r == input_panel_message(e),
{
    match e.code {
        KeyCode::Right => {
            if matches!(e.modifiers, KeyModifiers::Shift) {
                Some(Message::NextInputType)
            } else if matches!(e.modifiers, KeyModifiers::ControlShift) {
                Some(Message::NextInputFormat)
            } else {
                None
            }
        },
        KeyCode::Left => {
            if matches!(e.modifiers, KeyModifiers::Shift) {
                Some(Message::PreviousInputType)
            } else if matches!(e.modifiers, KeyModifiers::ControlShift) {
                Some(Message::PreviousInputFormat)
            } else {
                None
            }
        },
        KeyCode::Tab => Some(Message::NextInputField),
        KeyCode::BackTab => Some(Message::PreviousInputField),
        _ => None,
    }
}

/// The Output panel's Normal-mode handler: no panel-specific keys.
pub fn handle_normal_output_key(_e: KeyEvent) -> (r: Option<Message>)
    ensures
        r is None,
{
    None
}

/// The global Normal-mode fallback handler.
pub fn globally_post_handle_normal_key(e: KeyEvent) -> (r: Option<Message>)
    ensures
        r == post_normal_message(e),
{
    match e.code {
        KeyCode::Enter => Some(Message::SubmitRequest),
        _ => Some(Message::NormalInput(e)),
    }
}

/// Apply one message to the model. The outcome carries a follow-up message
/// to apply next and any work owed to an outside collaborator; the model
/// change for each message is pinned to the model's own transition.
#[verifier::rlimit(100)]
pub fn update(model: &mut Model, msg: Message) -> (r: UpdateOutcome)
    requires
        old(model).wf(),
    ensures
        final(model).wf(),
        match msg {
            Message::Append => final(model)@ == (ModelView {
                current_mode: Mode::Insert,
                ..old(model)@
            }).apply_current(FieldOp::Move(CursorMove::NextChar)) && r.next is None
                && r.effect is None,
            Message::Insert => final(model)@ == (ModelView {
                current_mode: Mode::Insert,
                ..old(model)@
            }) && r.next is None && r.effect is None,
            Message::LeaveInsert => final(model)@ == old(model)@.apply_current(
                FieldOp::Move(CursorMove::PrevChar),
            ) && r.next == Some(Message::Normal) && r.effect is None,
            Message::Normal => final(model)@ == (ModelView {
                current_mode: Mode::Normal,
                ..old(model)@
            }) && r.next is None && r.effect is None,
            Message::Visual => final(model)@ == (ModelView {
                current_mode: Mode::Visual,
                ..old(model)@
            }).apply_current(FieldOp::StartSelection) && r.next is None && r.effect is None,
            Message::LeaveVisual => final(model)@ == old(model)@.apply_current(
                FieldOp::CancelSelection,
            ) && r.next == Some(Message::Normal) && r.effect is None,
            Message::SelectPanelLeft => r.next is None && match old(model).current_panel {
                Panel::Url => final(model)@ == (ModelView {
                    current_panel: Panel::Method,
                    ..old(model)@
                }) && r.effect is None,
                _ => final(model)@ == old(model)@ && r.effect matches Some(
                    Effect::SelectTmuxPanel(Direction::Left),
                ),
            },
            Message::SelectPanelDown => r.next is None && match old(model).current_panel {
                Panel::Url | Panel::Method => final(model)@ == (ModelView {
                    current_panel: Panel::Input,
                    ..old(model)@
                }) && r.effect is None,
                Panel::Input => final(model)@ == (ModelView {
                    current_panel: Panel::Output,
                    ..old(model)@
                }) && r.effect is None,
                _ => final(model)@ == old(model)@ && r.effect matches Some(
                    Effect::SelectTmuxPanel(Direction::Down),
                ),
            },
            Message::SelectPanelUp => r.next is None && match old(model).current_panel {
                Panel::Output => final(model)@ == (ModelView {
                    current_panel: Panel::Input,
                    ..old(model)@
                }) && r.effect is None,
                Panel::Input => final(model)@ == (ModelView {
                    current_panel: Panel::Url,
                    ..old(model)@
                }) && r.effect is None,
                _ => final(model)@ == old(model)@ && r.effect matches Some(
                    Effect::SelectTmuxPanel(Direction::Up),
                ),
            },
            Message::SelectPanelRight => r.next is None && match old(model).current_panel {
                Panel::Method => final(model)@ == (ModelView {
                    current_panel: Panel::Url,
                    ..old(model)@
                }) && r.effect is None,
                _ => final(model)@ == old(model)@ && r.effect matches Some(
                    Effect::SelectTmuxPanel(Direction::Right),
                ),
            },
            Message::NextMethod => final(model)@ == (ModelView {
                current_method: old(model).current_method.succ(),
                ..old(model)@
            }) && r.next is None && r.effect is None,
            Message::PreviousMethod => final(model)@ == (ModelView {
                current_method: old(model).current_method.pred(),
                ..old(model)@
            }) && r.next is None && r.effect is None,
            Message::Copy => final(model)@ == old(model)@.apply_current(FieldOp::CancelSelection)
                && r.next == Some(Message::Normal) && (r.effect matches Some(Effect::CopyText(s))
                && s@ == old(model)@.current_field().selected_text()),
            Message::InsertInput(e) => final(model)@ == old(model)@.apply_current(
                FieldOp::InsertKey(e),
            ) && r.next is None && r.effect is None,
            Message::NormalInput(e) => r.next is None && r.effect is None && match normal_nav_move(
                e,
                old(model)@.is_multiline_input(),
            ) {
                Some(m) => final(model)@ == old(model)@.apply_current(FieldOp::Move(m)),
                None => final(model)@ == old(model)@,
            },
            Message::NextInputType => final(model)@ == old(model)@.with_input_type(
                crate::model::cyc_next_type(old(model).current_input_type),
            ) && r.next is None && r.effect is None,
            Message::PreviousInputType => final(model)@ == old(model)@.with_input_type(
                crate::model::cyc_prev_type(old(model).current_input_type),
            ) && r.next is None && r.effect is None,
            Message::NextInputField => final(model)@ == old(model)@.next_input_field_spec()
                && r.next is None && r.effect is None,
            Message::PreviousInputField => final(model)@ == old(model)@.previous_input_field_spec()
                && r.next is None && r.effect is None,
            Message::NextInputFormat => r.next is None && r.effect is None && final(model)@
                == (match old(model).current_input_type {
                InputType::Auth => ModelView {
                    auth: AuthView {
                        format: crate::model::cyc_next_auth(old(model)@.auth.format),
                        ..old(model)@.auth
                    },
                    ..old(model)@
                },
                InputType::Headers => old(model)@,
                InputType::Body => ModelView {
                    current_body_format: crate::model::cyc_next_body(
                        old(model).current_body_format,
                    ),
                    ..old(model)@
                },
            }),
            Message::PreviousInputFormat => r.next is None && r.effect is None && final(model)@
                == (match old(model).current_input_type {
                InputType::Auth => ModelView {
                    auth: AuthView {
                        format: crate::model::cyc_prev_auth(old(model)@.auth.format),
                        ..old(model)@.auth
                    },
                    ..old(model)@
                },
                InputType::Headers => old(model)@,
                InputType::Body => ModelView {
                    current_body_format: crate::model::cyc_next_body(
                        old(model).current_body_format,
                    ),
                    ..old(model)@
                },
            }),
            Message::SubmitRequest => final(model)@ == old(model)@ && r.next is None
                && (r.effect matches Some(Effect::Submit)),
            Message::Quit => final(model)@ == (ModelView { exit: true, ..old(model)@ })
                && r.next is None && r.effect is None,
        },
{
    match msg {
        Message::Append => {
            model.append();
            UpdateOutcome { next: None, effect: None }
        },
        Message::Insert => {
            model.insert();
            UpdateOutcome { next: None, effect: None }
        },
        Message::LeaveInsert => {
            model.leave_insert();
            UpdateOutcome { next: Some(Message::Normal), effect: None }
        },
        Message::Normal => {
            model.normal();
            UpdateOutcome { next: None, effect: None }
        },
        Message::Visual => {
            model.visual();
            UpdateOutcome { next: None, effect: None }
        },
        Message::LeaveVisual => {
            model.leave_visual();
            UpdateOutcome { next: Some(Message::Normal), effect: None }
        },
        Message::SelectPanelLeft => UpdateOutcome {
            next: None,
            effect: match model.select_panel_left() {
                Some(d) => Some(Effect::SelectTmuxPanel(d)),
                None => None,
            },
        },
        Message::SelectPanelDown => UpdateOutcome {
            next: None,
            effect: match model.select_panel_down() {
                Some(d) => Some(Effect::SelectTmuxPanel(d)),
                None => None,
            },
        },
        Message::SelectPanelUp => UpdateOutcome {
            next: None,
            effect: match model.select_panel_up() {
                Some(d) => Some(Effect::SelectTmuxPanel(d)),
                None => None,
            },
        },
        Message::SelectPanelRight => UpdateOutcome {
            next: None,
            effect: match model.select_panel_right() {
                Some(d) => Some(Effect::SelectTmuxPanel(d)),
                None => None,
            },
        },
        Message::NextMethod => {
            model.next_method();
            UpdateOutcome { next: None, effect: None }
        },
        Message::PreviousMethod => {
            model.previous_method();
            UpdateOutcome { next: None, effect: None }
        },
        Message::Copy => {
            let text = model.copy();
            UpdateOutcome { next: Some(Message::Normal), effect: Some(Effect::CopyText(text)) }
        },
        Message::InsertInput(e) => {
            model.handle_insert_input(e);
            UpdateOutcome { next: None, effect: None }
        },
        Message::NormalInput(e) => {
            model.handle_normal_input(e);
            UpdateOutcome { next: None, effect: None }
        },
        Message::NextInputType => {
            model.next_input_type();
            UpdateOutcome { next: None, effect: None }
        },
        Message::PreviousInputType => {
            model.previous_input_type();
            UpdateOutcome { next: None, effect: None }
        },
        Message::NextInputField => {
            model.next_input_field();
            UpdateOutcome { next: None, effect: None }
        },
        Message::PreviousInputField => {
            model.previous_input_field();
            UpdateOutcome { next: None, effect: None }
        },
        Message::NextInputFormat => {
            model.next_input_format();
            UpdateOutcome { next: None, effect: None }
        },
        Message::PreviousInputFormat => {
            model.previous_input_format();
            UpdateOutcome { next: None, effect: None }
        },
        Message::SubmitRequest => UpdateOutcome { next: None, effect: Some(Effect::Submit) },
        Message::Quit => {
            model.exit = true;
            UpdateOutcome { next: None, effect: None }
        },
    }
}

} // verus!
