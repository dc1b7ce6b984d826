use dune::key_bindings::{
    from_key_code, new, ActionCommand, ActionExplorer, ActionGlobal, InputEvent, KeyCode, KeyPress,
};

#[test]
fn from_key_code_wraps_a_plain_press() {
    let evt = from_key_code(KeyCode::Up);
    assert_eq!(evt, InputEvent::Key(KeyPress { code: KeyCode::Up, ctrl: false }));
}

#[test]
fn default_explorer_bindings() {
    let kb = new();
    assert_eq!(kb.get_explorer(&from_key_code(KeyCode::Up)), Some(ActionExplorer::NavLineUp));
    assert_eq!(kb.get_explorer(&from_key_code(KeyCode::Down)), Some(ActionExplorer::NavLineDown));
    assert_eq!(kb.get_explorer(&from_key_code(KeyCode::Enter)), Some(ActionExplorer::DirEnter));
    assert_eq!(kb.get_explorer(&from_key_code(KeyCode::Backspace)), Some(ActionExplorer::DirLeave));
    assert_eq!(kb.get_explorer(&from_key_code(KeyCode::F(5))), Some(ActionExplorer::EntriesUpdate));
    assert_eq!(kb.get_explorer(&from_key_code(KeyCode::Home)), Some(ActionExplorer::NavHome));
    assert_eq!(kb.get_explorer(&from_key_code(KeyCode::End)), Some(ActionExplorer::NavEnd));
}

#[test]
fn default_command_bindings() {
    let kb = new();
    assert_eq!(kb.get_command(&from_key_code(KeyCode::Enter)), Some(ActionCommand::Execute));
    assert_eq!(
        kb.get_command(&from_key_code(KeyCode::Backspace)),
        Some(ActionCommand::PromptBackspace)
    );
    assert_eq!(kb.get_command(&from_key_code(KeyCode::Up)), None);
}

#[test]
fn default_global_bindings() {
    let kb = new();
    let ctrl_c = InputEvent::Key(KeyPress { code: KeyCode::Char('c'), ctrl: true });
    assert_eq!(kb.get_global(&ctrl_c), Some(ActionGlobal::Quit));
    assert_eq!(kb.get_global(&from_key_code(KeyCode::Tab)), Some(ActionGlobal::ModeChange));
    // a plain 'c' is not the quit chord
    assert_eq!(kb.get_global(&from_key_code(KeyCode::Char('c'))), None);
}

#[test]
fn scopes_stay_independent() {
    let kb = new();
    // Enter is bound in both mode scopes but in neither the global one
    assert_eq!(kb.get_global(&from_key_code(KeyCode::Enter)), None);
    // F(6) is bound nowhere
    assert_eq!(kb.get_explorer(&from_key_code(KeyCode::F(6))), None);
    // non-key events look nothing up
    assert_eq!(kb.get_explorer(&InputEvent::Resize(80, 24)), None);
    assert_eq!(kb.get_global(&InputEvent::Other), None);
}
