use reqtui::input::TextField;
use reqtui::key::{KeyCode, KeyEvent, KeyModifiers};
use reqtui::model::{AuthFormat, InputField, InputType, Method, Model, Panel};
use reqtui::text_wrapping::truncate_ellipse;
use reqtui::tmux::Direction;

fn typed(c: char) -> KeyEvent {
    KeyEvent { code: KeyCode::Char(c), modifiers: KeyModifiers::NoMods }
}

fn on_headers(model: &mut Model) {
    model.current_panel = Panel::Input;
    model.current_input_type = InputType::Headers;
    model.current_input_field = InputField::Key;
    model.input_index = 0;
}

#[test]
fn advancing_past_a_filled_last_row_appends_a_blank_row() {
    let mut model = Model::new("request.json".to_string());
    on_headers(&mut model);
    model.handle_insert_input(typed('k'));
    assert_eq!(model.headers_input_table.len(), 1);

    model.next_input_field();
    assert_eq!(model.current_input_field, InputField::Value);
    assert_eq!(model.headers_input_table.len(), 1);

    model.next_input_field();
    assert_eq!(model.current_input_field, InputField::Key);
    assert_eq!(model.headers_input_table.len(), 2);
    assert_eq!(model.input_index, 1);
}

#[test]
fn advancing_past_an_empty_last_row_stays_on_it() {
    let mut model = Model::new("request.json".to_string());
    on_headers(&mut model);
    model.next_input_field();
    model.next_input_field();
    assert_eq!(model.headers_input_table.len(), 1);
    assert_eq!(model.input_index, 0);
    assert_eq!(model.current_input_field, InputField::Key);
}

#[test]
fn retreating_before_the_first_row_wraps_to_the_last() {
    let mut model = Model::new("request.json".to_string());
    on_headers(&mut model);
    model.handle_insert_input(typed('a'));
    model.next_input_field();
    model.next_input_field();
    assert_eq!((model.input_index, model.headers_input_table.len()), (1, 2));

    model.previous_input_field();
    assert_eq!(model.current_input_field, InputField::Value);
    assert_eq!(model.input_index, 0);
    model.previous_input_field();
    assert_eq!(model.current_input_field, InputField::Key);
    assert_eq!(model.input_index, 0);
    model.previous_input_field();
    assert_eq!(model.current_input_field, InputField::Value);
    assert_eq!(model.input_index, 1);
    model.previous_input_field();
    assert_eq!(model.current_input_field, InputField::Key);
    assert_eq!(model.input_index, 1);
}

#[test]
fn row_tables_stay_non_empty_under_any_stepping() {
    let mut model = Model::new("request.json".to_string());
    on_headers(&mut model);
    for round in 0..40 {
        if round % 3 == 0 {
            model.handle_insert_input(typed('x'));
        }
        if round % 7 < 4 {
            model.next_input_field();
        } else {
            model.previous_input_field();
        }
        if round % 11 == 0 {
            model.next_input_type();
        }
        assert!(model.headers_input_table.len() >= 1);
        assert!(model.body_input_table.len() >= 1);
        assert!(model.input_index < model.current_input_table().len());
    }
}

#[test]
fn auth_routing_follows_the_format_toggle() {
    let mut model = Model::new("request.json".to_string());
    model.current_panel = Panel::Input;
    assert_eq!(model.current_input_type, InputType::Auth);

    // Auth disabled: keys fall on the null field and change nothing.
    model.handle_insert_input(typed('x'));
    assert_eq!(model.auth.username(), "");

    model.next_input_format();
    assert_eq!(model.auth.format, AuthFormat::Basic);
    model.handle_insert_input(typed('u'));
    model.next_input_field();
    model.handle_insert_input(typed('p'));
    assert_eq!(model.auth.username(), "u");
    assert_eq!(model.auth.password(), Some("p".to_string()));

    model.next_input_format();
    assert_eq!(model.auth.format, AuthFormat::Bearer);
    model.handle_insert_input(typed('t'));
    assert_eq!(model.auth.token(), "t");

    model.next_input_format();
    assert_eq!(model.auth.format, AuthFormat::NoAuth);
    model.previous_input_format();
    assert_eq!(model.auth.format, AuthFormat::Bearer);
}

#[test]
fn password_is_none_when_empty() {
    let model = Model::new("request.json".to_string());
    assert_eq!(model.auth.password(), None);
}

#[test]
fn json_body_routes_to_the_raw_buffer() {
    let mut model = Model::new("request.json".to_string());
    model.current_panel = Panel::Input;
    model.current_input_type = InputType::Body;
    model.handle_insert_input(typed('{'));
    model.handle_insert_input(typed('}'));
    assert_eq!(model.json_body_input.value(), "{}");
    assert!(model.body_input_table[0].is_empty());

    model.next_input_format();
    model.handle_insert_input(typed('k'));
    assert_eq!(model.body_input_table[0].as_pair().0, "k");
    assert_eq!(model.json_body_input.value(), "{}");
}

#[test]
fn content_tables_default_to_one_blank_row() {
    let headers: Vec<(String, String)> = Vec::new();
    let body: Vec<(String, String)> = Vec::new();
    let model = Model::with_content(
        "request.json".to_string(),
        "POST",
        "http://localhost/x",
        "Basic",
        "user",
        "pw",
        "",
        &headers,
        &body,
        "{}",
    );
    assert_eq!(model.current_method, Method::POST);
    assert_eq!(model.url_input.value(), "http://localhost/x");
    assert_eq!(model.auth.format, AuthFormat::Basic);
    assert_eq!(model.headers_input_table.len(), 1);
    assert!(model.headers_input_table[0].is_empty());
    assert_eq!(model.body_input_table.len(), 1);
    assert_eq!(model.json_body_input.value(), "{}");
}

#[test]
fn non_empty_rows_skip_blank_keys() {
    let headers = vec![
        ("Accept".to_string(), "text/plain".to_string()),
        ("".to_string(), "ignored".to_string()),
        ("Host".to_string(), "localhost".to_string()),
    ];
    let body: Vec<(String, String)> = Vec::new();
    let model = Model::with_content(
        "request.json".to_string(),
        "GET",
        "",
        "None",
        "",
        "",
        "",
        &headers,
        &body,
        "",
    );
    let pairs = model.non_empty_headers();
    assert_eq!(
        pairs,
        vec![
            ("Accept".to_string(), "text/plain".to_string()),
            ("Host".to_string(), "localhost".to_string()),
        ]
    );
    assert!(model.non_empty_body().is_empty());
}

#[test]
fn method_names_round_trip() {
    assert_eq!(Method::from_name("DELETE").to_string(), "DELETE");
    assert_eq!(Method::from_name("nonsense"), Method::GET);
    assert_eq!(AuthFormat::from_label("Bearer"), AuthFormat::Bearer);
    assert_eq!(AuthFormat::from_label("None"), AuthFormat::NoAuth);
    let model = Model::new("request.json".to_string());
    assert_eq!(model.method_cursor_position(), 3);
}

#[test]
fn dummy_field_ignores_everything() {
    let mut field = TextField::new_null();
    field.insert_char('x');
    field.delete_char();
    field.start_selection();
    assert_eq!(field.value(), "");
    assert_eq!(field.cursor(), (0, 0));
    assert_eq!(field.len(), 0);
    assert!(field.is_empty());
    assert_eq!(field.selected_text(), "");
}

#[test]
fn truncation_keeps_short_strings_and_cuts_long_ones() {
    assert_eq!(truncate_ellipse("hello", 10), "hello");
    assert_eq!(truncate_ellipse("abcdefghij", 8), "abcde...");
    assert_eq!(truncate_ellipse("abcd", 3), "...");
    assert_eq!(truncate_ellipse("abc", 3), "abc");
}

#[test]
fn directions_serialize_to_pane_tokens() {
    assert_eq!(Direction::Left.serialize(), "{left-of}");
    assert_eq!(Direction::Down.serialize(), "{down-of}");
    assert_eq!(Direction::Up.serialize(), "{up-of}");
    assert_eq!(Direction::Right.serialize(), "{right-of}");
}
