use reqtui::key::{KeyCode, KeyEvent, KeyModifiers};
use reqtui::model::{BodyFormat, InputField, InputType, Method, Mode, Model, Panel};
use reqtui::tmux::Direction;
use reqtui::update::{handle_key, update, Effect};

fn key(code: KeyCode) -> KeyEvent {
    KeyEvent { code, modifiers: KeyModifiers::NoMods }
}

fn with_mods(code: KeyCode, modifiers: KeyModifiers) -> KeyEvent {
    KeyEvent { code, modifiers }
}

/// Drive one key event through classification and the update chain, the way
/// the event loop does, collecting any effects.
fn press(model: &mut Model, e: KeyEvent) -> Vec<Effect> {
    let mut effects = Vec::new();
    let mut msg = handle_key(model, e);
    while let Some(m) = msg {
        let outcome = update(model, m);
        if let Some(eff) = outcome.effect {
            effects.push(eff);
        }
        msg = outcome.next;
    }
    effects
}

#[test]
fn insert_mode_scenario() {
    let mut model = Model::new("request.json".to_string());
    model.current_panel = Panel::Url;

    press(&mut model, key(KeyCode::Char('i')));
    assert_eq!(model.current_mode, Mode::Insert);
    assert_eq!(model.cursor_col(), 0);

    press(&mut model, key(KeyCode::Char('h')));
    press(&mut model, key(KeyCode::Char('i')));
    assert_eq!(model.url_input.value(), "hi");
    assert_eq!(model.cursor_col(), 2);

    press(&mut model, key(KeyCode::Esc));
    assert_eq!(model.current_mode, Mode::Normal);
    assert_eq!(model.cursor_col(), 1);
}

#[test]
fn escape_clamps_cursor_at_zero() {
    let mut model = Model::new("request.json".to_string());
    model.current_panel = Panel::Url;

    press(&mut model, key(KeyCode::Char('i')));
    assert_eq!(model.current_mode, Mode::Insert);
    assert_eq!(model.cursor_col(), 0);
    press(&mut model, key(KeyCode::Esc));
    assert_eq!(model.current_mode, Mode::Normal);
    assert_eq!(model.cursor_col(), 0);
}

#[test]
fn quit_preempts_every_mode() {
    let mut model = Model::new("request.json".to_string());
    press(&mut model, key(KeyCode::Char('i')));
    assert_eq!(model.current_mode, Mode::Insert);

    press(&mut model, with_mods(KeyCode::Char('c'), KeyModifiers::Control));
    assert!(model.exit);
}

#[test]
fn panel_navigation_and_tmux_handoff() {
    let mut model = Model::new("request.json".to_string());
    assert_eq!(model.current_panel, Panel::Method);

    press(&mut model, with_mods(KeyCode::Char('l'), KeyModifiers::Control));
    assert_eq!(model.current_panel, Panel::Url);
    press(&mut model, with_mods(KeyCode::Char('j'), KeyModifiers::Control));
    assert_eq!(model.current_panel, Panel::Input);
    press(&mut model, with_mods(KeyCode::Char('j'), KeyModifiers::Control));
    assert_eq!(model.current_panel, Panel::Output);
    press(&mut model, with_mods(KeyCode::Char('k'), KeyModifiers::Control));
    press(&mut model, with_mods(KeyCode::Char('k'), KeyModifiers::Control));
    assert_eq!(model.current_panel, Panel::Url);
    press(&mut model, with_mods(KeyCode::Char('h'), KeyModifiers::Control));
    assert_eq!(model.current_panel, Panel::Method);

    let effects = press(&mut model, with_mods(KeyCode::Char('h'), KeyModifiers::Control));
    assert_eq!(model.current_panel, Panel::Method);
    assert!(matches!(effects[..], [Effect::SelectTmuxPanel(Direction::Left)]));
}

#[test]
fn method_panel_cycles_methods() {
    let mut model = Model::new("request.json".to_string());
    assert_eq!(model.current_method, Method::GET);
    press(&mut model, key(KeyCode::Char('j')));
    assert_eq!(model.current_method, Method::HEAD);
    press(&mut model, key(KeyCode::Char('k')));
    press(&mut model, key(KeyCode::Char('k')));
    assert_eq!(model.current_method, Method::OPTIONS);
    press(&mut model, key(KeyCode::Char('k')));
    assert_eq!(model.current_method, Method::CONNECT);
}

#[test]
fn visual_copy_hands_selection_to_the_sink() {
    let mut model = Model::new("request.json".to_string());
    model.current_panel = Panel::Url;
    press(&mut model, key(KeyCode::Char('i')));
    for c in "hello world".chars() {
        press(&mut model, key(KeyCode::Char(c)));
    }
    press(&mut model, key(KeyCode::Esc));
    press(&mut model, key(KeyCode::Char('^')));

    press(&mut model, key(KeyCode::Char('v')));
    assert_eq!(model.current_mode, Mode::Visual);
    press(&mut model, key(KeyCode::Char('w')));
    let effects = press(&mut model, key(KeyCode::Char('y')));
    match &effects[..] {
        [Effect::CopyText(text)] => assert_eq!(text, "hello "),
        other => panic!("expected one copy effect, got {} effects", other.len()),
    }
    assert_eq!(model.current_mode, Mode::Normal);
}

#[test]
fn escape_leaves_visual_without_copying() {
    let mut model = Model::new("request.json".to_string());
    model.current_panel = Panel::Url;
    press(&mut model, key(KeyCode::Char('v')));
    assert_eq!(model.current_mode, Mode::Visual);
    let effects = press(&mut model, key(KeyCode::Esc));
    assert!(effects.is_empty());
    assert_eq!(model.current_mode, Mode::Normal);
}

#[test]
fn enter_asks_for_submission() {
    let mut model = Model::new("request.json".to_string());
    model.current_panel = Panel::Url;
    let effects = press(&mut model, key(KeyCode::Enter));
    assert!(matches!(effects[..], [Effect::Submit]));

    model.set_output("status: ok\nbody");
    assert_eq!(model.output_input.value(), "status: ok\nbody");
}

#[test]
fn input_panel_switches_type_field_and_format() {
    let mut model = Model::new("request.json".to_string());
    model.current_panel = Panel::Input;
    assert_eq!(model.current_input_type, InputType::Auth);

    press(&mut model, with_mods(KeyCode::Right, KeyModifiers::Shift));
    assert_eq!(model.current_input_type, InputType::Headers);
    assert_eq!(model.current_input_field, InputField::Key);
    assert_eq!(model.input_index, 0);

    press(&mut model, with_mods(KeyCode::Right, KeyModifiers::Shift));
    assert_eq!(model.current_input_type, InputType::Body);
    press(&mut model, with_mods(KeyCode::Right, KeyModifiers::ControlShift));
    assert_eq!(model.current_body_format, BodyFormat::Form);
    press(&mut model, with_mods(KeyCode::Left, KeyModifiers::ControlShift));
    assert_eq!(model.current_body_format, BodyFormat::Json);

    press(&mut model, with_mods(KeyCode::Left, KeyModifiers::Shift));
    assert_eq!(model.current_input_type, InputType::Headers);
}

#[test]
fn arrow_keys_navigate_in_normal_mode() {
    let mut model = Model::new("request.json".to_string());
    model.current_panel = Panel::Url;
    press(&mut model, key(KeyCode::Char('i')));
    for c in "ab cd".chars() {
        press(&mut model, key(KeyCode::Char(c)));
    }
    press(&mut model, key(KeyCode::Esc));
    assert_eq!(model.cursor_col(), 4);

    press(&mut model, key(KeyCode::Home));
    assert_eq!(model.cursor_col(), 0);
    press(&mut model, key(KeyCode::Right));
    assert_eq!(model.cursor_col(), 1);
    press(&mut model, key(KeyCode::Char('w')));
    assert_eq!(model.cursor_col(), 3);
    press(&mut model, key(KeyCode::Char('b')));
    assert_eq!(model.cursor_col(), 0);
    press(&mut model, key(KeyCode::End));
    assert_eq!(model.cursor_col(), 5);
}
