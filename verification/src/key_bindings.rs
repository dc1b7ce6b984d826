//! Symbolic actions and the tables binding key presses to them, split into
//! three independent scopes: global, explorer and command.

use vstd::prelude::*;

verus! {

#[derive(Debug, Copy, Clone, PartialEq, Eq, Structural)]
pub enum ActionExplorer {
    NavLineUp,
    NavLineDown,
    NavHome,
    NavEnd,
    DirEnter,
    DirLeave,
    EntriesUpdate,
}

#[derive(Debug, Copy, Clone, PartialEq, Eq, Structural)]
pub enum ActionCommand {
    Execute,
    PromptBackspace,
}

#[derive(Debug, Copy, Clone, PartialEq, Eq, Structural)]
pub enum ActionGlobal {
    Quit,
    ModeChange,
}

#[derive(Debug, Copy, Clone, PartialEq, Eq, Structural)]
pub enum Action {
    Explorer(ActionExplorer),
    Command(ActionCommand),
    Global(ActionGlobal),
}

/// The keys the browser can bind; the binary translates the real terminal's
/// key codes into these.
#[derive(Debug, Copy, Clone, PartialEq, Eq, Structural)]
pub enum KeyCode {
    Up,
    Down,
    Enter,
    Backspace,
    Tab,
    Home,
    End,
    F(u8),
    Char(char),
}

/// One key press: which key, with or without Control held.
#[derive(Debug, Copy, Clone, PartialEq, Eq, Structural)]
pub struct KeyPress {
    pub code: KeyCode,
    pub ctrl: bool,
}

/// An input event as the dispatcher sees it.
#[derive(Debug, Copy, Clone, PartialEq, Eq, Structural)]
pub enum InputEvent {
    Key(KeyPress),
    Resize(u16, u16),
    Other,
}

/// The event of pressing `code` with no modifier.
pub fn from_key_code(code: KeyCode) -> (r: InputEvent)
    ensures
        r == InputEvent::Key(KeyPress { code, ctrl: false }),
{
    InputEvent::Key(KeyPress { code, ctrl: false })
}

/// The first action bound to `key` in `bindings`, scanning in order.
pub open spec fn spec_lookup(bindings: Seq<(KeyPress, Action)>, key: KeyPress) -> Option<Action>
    decreases bindings.len(),
{
    if bindings.len() == 0 {
        None
    } else if bindings[0].0 == key {
        Some(bindings[0].1)
    } else {
        spec_lookup(bindings.drop_first(), key)
    }
}

fn lookup(bindings: &Vec<(KeyPress, Action)>, key: KeyPress) -> (r: Option<Action>)
    ensures
        r == spec_lookup(bindings@, key),
{
    let mut i: usize = 0;
    proof {
        assert(bindings@.skip(0) =~= bindings@);
    }
    while i < bindings.len()
        invariant
            i <= bindings@.len(),
            spec_lookup(bindings@, key) == spec_lookup(bindings@.skip(i as int), key),
        decreases bindings@.len() - i,
    {
        if bindings[i].0 == key {
            return Some(bindings[i].1);
        }
        proof {
            assert(bindings@.skip(i as int).drop_first() =~= bindings@.skip(i + 1));
        }
        i += 1;
    }
    None
}

/// A mapping from key press to symbolic action, one table per scope; lookup
/// is a pure function of the event.
pub struct KeyBindings {
    pub explorer: Vec<(KeyPress, Action)>,
    pub command: Vec<(KeyPress, Action)>,
    pub global: Vec<(KeyPress, Action)>,
}

impl KeyBindings {
    /// The explorer-scope action for `event`, if its key is bound to one.
    pub open spec fn spec_explorer_action(self, event: InputEvent) -> Option<ActionExplorer> {
        match event {
            InputEvent::Key(k) => match spec_lookup(self.explorer@, k) {
                Some(Action::Explorer(a)) => Some(a),
                _ => None,
            },
            _ => None,
        }
    }

    /// The command-scope action for `event`, if its key is bound to one.
    pub open spec fn spec_command_action(self, event: InputEvent) -> Option<ActionCommand> {
        match event {
            InputEvent::Key(k) => match spec_lookup(self.command@, k) {
                Some(Action::Command(a)) => Some(a),
                _ => None,
            },
            _ => None,
        }
    }

    /// The global action for `event`, if its key is bound to one.
    pub open spec fn spec_global_action(self, event: InputEvent) -> Option<ActionGlobal> {
        match event {
            InputEvent::Key(k) => match spec_lookup(self.global@, k) {
                Some(Action::Global(a)) => Some(a),
                _ => None,
            },
            _ => None,
        }
    }

    pub fn get_explorer(&self, event: &InputEvent) -> (r: Option<ActionExplorer>)
        ensures
            r == self.spec_explorer_action(*event),
    {
        match event {
            InputEvent::Key(k) => match lookup(&self.explorer, *k) {
                Some(Action::Explorer(a)) => Some(a),
                _ => None,
            },
            _ => None,
        }
    }

    pub fn get_command(&self, event: &InputEvent) -> (r: Option<ActionCommand>)
        ensures
            r == self.spec_command_action(*event),
    {
        match event {
            InputEvent::Key(k) => match lookup(&self.command, *k) {
                Some(Action::Command(a)) => Some(a),
                _ => None,
            },
            _ => None,
        }
    }

    pub fn get_global(&self, event: &InputEvent) -> (r: Option<ActionGlobal>)
        ensures
            r == self.spec_global_action(*event),
    {
        match event {
            InputEvent::Key(k) => match lookup(&self.global, *k) {
                Some(Action::Global(a)) => Some(a),
                _ => None,
            },
            _ => None,
        }
    }
}

/// The default explorer-scope bindings, in lookup order.
pub open spec fn spec_default_explorer() -> Seq<(KeyPress, Action)> {
    seq![
        (
            KeyPress { code: KeyCode::Up, ctrl: false },
            Action::Explorer(ActionExplorer::NavLineUp),
        ),
        (
            KeyPress { code: KeyCode::Down, ctrl: false },
            Action::Explorer(ActionExplorer::NavLineDown),
        ),
        (
            KeyPress { code: KeyCode::Enter, ctrl: false },
            Action::Explorer(ActionExplorer::DirEnter),
        ),
        (
            KeyPress { code: KeyCode::Backspace, ctrl: false },
            Action::Explorer(ActionExplorer::DirLeave),
        ),
        (
            KeyPress { code: KeyCode::F(5), ctrl: false },
            Action::Explorer(ActionExplorer::EntriesUpdate),
        ),
        (
            KeyPress { code: KeyCode::Home, ctrl: false },
            Action::Explorer(ActionExplorer::NavHome),
        ),
        (
            KeyPress { code: KeyCode::End, ctrl: false },
            Action::Explorer(ActionExplorer::NavEnd),
        ),
    ]
}

/// The default command-scope bindings, in lookup order.
pub open spec fn spec_default_command() -> Seq<(KeyPress, Action)> {
    seq![
        (
            KeyPress { code: KeyCode::Enter, ctrl: false },
            Action::Command(ActionCommand::Execute),
        ),
        (
            KeyPress { code: KeyCode::Backspace, ctrl: false },
            Action::Command(ActionCommand::PromptBackspace),
        ),
    ]
}

/// The default global bindings, in lookup order.
pub open spec fn spec_default_global() -> Seq<(KeyPress, Action)> {
    seq![
        (KeyPress { code: KeyCode::Char('c'), ctrl: true }, Action::Global(ActionGlobal::Quit)),
        (KeyPress { code: KeyCode::Tab, ctrl: false }, Action::Global(ActionGlobal::ModeChange)),
    ]
}

/// The default key bindings.
pub fn new() -> (r: KeyBindings)
    ensures
        r.explorer@ == spec_default_explorer(),
        r.command@ == spec_default_command(),
        r.global@ == spec_default_global(),
{
    let mut explorer: Vec<(KeyPress, Action)> = Vec::new();
    explorer.push((KeyPress { code: KeyCode::Up, ctrl: false }, Action::Explorer(ActionExplorer::NavLineUp)));
    explorer.push((KeyPress { code: KeyCode::Down, ctrl: false }, Action::Explorer(ActionExplorer::NavLineDown)));
    explorer.push((KeyPress { code: KeyCode::Enter, ctrl: false }, Action::Explorer(ActionExplorer::DirEnter)));
    explorer.push((KeyPress { code: KeyCode::Backspace, ctrl: false }, Action::Explorer(ActionExplorer::DirLeave)));
    explorer.push((KeyPress { code: KeyCode::F(5), ctrl: false }, Action::Explorer(ActionExplorer::EntriesUpdate)));
    explorer.push((KeyPress { code: KeyCode::Home, ctrl: false }, Action::Explorer(ActionExplorer::NavHome)));
    explorer.push((KeyPress { code: KeyCode::End, ctrl: false }, Action::Explorer(ActionExplorer::NavEnd)));
    let mut command: Vec<(KeyPress, Action)> = Vec::new();
    command.push((KeyPress { code: KeyCode::Enter, ctrl: false }, Action::Command(ActionCommand::Execute)));
    command.push((KeyPress { code: KeyCode::Backspace, ctrl: false }, Action::Command(ActionCommand::PromptBackspace)));
    let mut global: Vec<(KeyPress, Action)> = Vec::new();
    global.push((KeyPress { code: KeyCode::Char('c'), ctrl: true }, Action::Global(ActionGlobal::Quit)));
    global.push((KeyPress { code: KeyCode::Tab, ctrl: false }, Action::Global(ActionGlobal::ModeChange)));
    proof {
        assert(explorer@ =~= spec_default_explorer());
        assert(command@ =~= spec_default_command());
        assert(global@ =~= spec_default_global());
    }
    KeyBindings { explorer, command, global }
}

} // verus!
