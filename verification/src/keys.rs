//! The keys, and what they do.

use vstd::prelude::*;

verus! {

/// Something that a key does.
#[derive(Debug, Clone, Copy, PartialEq, Eq, PartialOrd, Ord, Structural)]
pub enum Action {
    Quit,
    QuitOrGoBack,
    Clear,
    Diff,
    RefreshToggle,
    HideUnchanged,
    Up,
    Down,
    Help,
    PageUp,
    PageDown,
    Home,
    End,
    Delete,
    SetFromDiff,
    SetToDiff,
    GoBack,
    Enter,
    OpenInBrowser,
    OpenPreviousInBrowser,
    GitLog,
    ToggleUsernameResolve,
    ToggleAllRefs,
    ToggleManualJobs,
    DeletePipeline,
    CancelPipeline,
    Retry,
    PlayJob,
    ConfirmAction,
}

/// A key.
#[derive(Debug, Clone, Copy, PartialEq, Eq, Structural)]
pub enum Key {
    F(u8),
    Char(char),
    Up,
    Down,
    PageUp,
    PageDown,
    Home,
    End,
    Delete,
    Backspace,
    Esc,
    Enter,
    Tab,
}

/// A key that is held down with another one.
#[derive(Debug, Clone, Copy, PartialEq, Eq, Structural)]
pub enum Modifier {
    Plain,
    Ctrl,
    Shift,
}

/// A key, what is held down with it, and what it does.
#[derive(Debug, Clone, Copy, PartialEq, Eq, Structural)]
pub struct KeyBinding {
    pub key: Key,
    pub modifier: Modifier,
    pub action: Action,
}

/// What an action does, in words.
pub open spec fn action_text(action: Action) -> Seq<char> {
    match action {
        Action::Quit => "Quit program"@,
        Action::QuitOrGoBack => "Go to previous mode or quit"@,
        Action::Clear => "Clear hidden items"@,
        Action::Diff => "Diff selected pipelines"@,
        Action::RefreshToggle => "Toggle auto-refresh"@,
        Action::HideUnchanged => "In pipediff: toggle visibility of unchanged items"@,
        Action::Up => "Up one item"@,
        Action::Down => "Down one item"@,
        Action::Help => "Help screen"@,
        Action::PageUp => "Page up in list"@,
        Action::PageDown => "Page down in list"@,
        Action::Home => "Go to beginning of list"@,
        Action::End => "Go to end of list"@,
        Action::Delete => "Hide list item"@,
        Action::SetFromDiff => "Set 'from' pipe for diff"@,
        Action::SetToDiff => "Set 'to' pipe for diff"@,
        Action::GoBack => "Go back to previous screen"@,
        Action::Enter => "Enter pipeline or job log"@,
        Action::OpenInBrowser => "Open job or pipeline in browser"@,
        Action::OpenPreviousInBrowser => "In pipediff, open previous job in browser"@,
        Action::GitLog => "Open git commit"@,
        Action::ToggleUsernameResolve => "Toggle username load when listing other users pipelines"@,
        Action::ToggleAllRefs => "In Pipelines mode, toggle between all refs or just the requested ref"@,
        Action::ToggleManualJobs => "In Jobs mode, toggle showing manual jobs"@,
        Action::DeletePipeline => "Delete the current pipeline"@,
        Action::CancelPipeline => "Cancel the current pipeline"@,
        Action::Retry => "Retry the current job"@,
        Action::PlayJob => "Play the current manual job"@,
        Action::ConfirmAction => "When presented request for confirmation, confirm action"@,
    }
}

impl Action {
    /// What the action does, in words.
    pub fn description(&self) -> (text: &'static str)
        ensures
            text@ == action_text(*self),
    {
        match self {
            Action::Quit => "Quit program",
            Action::QuitOrGoBack => "Go to previous mode or quit",
            Action::Clear => "Clear hidden items",
            Action::Diff => "Diff selected pipelines",
            Action::RefreshToggle => "Toggle auto-refresh",
            Action::HideUnchanged => "In pipediff: toggle visibility of unchanged items",
            Action::Up => "Up one item",
            Action::Down => "Down one item",
            Action::Help => "Help screen",
            Action::PageUp => "Page up in list",
            Action::PageDown => "Page down in list",
            Action::Home => "Go to beginning of list",
            Action::End => "Go to end of list",
            Action::Delete => "Hide list item",
            Action::SetFromDiff => "Set 'from' pipe for diff",
            Action::SetToDiff => "Set 'to' pipe for diff",
            Action::GoBack => "Go back to previous screen",
            Action::Enter => "Enter pipeline or job log",
            Action::OpenInBrowser => "Open job or pipeline in browser",
            Action::OpenPreviousInBrowser => "In pipediff, open previous job in browser",
            Action::GitLog => "Open git commit",
            Action::ToggleUsernameResolve => "Toggle username load when listing other users pipelines",
            Action::ToggleAllRefs => "In Pipelines mode, toggle between all refs or just the requested ref",
            Action::ToggleManualJobs => "In Jobs mode, toggle showing manual jobs",
            Action::DeletePipeline => "Delete the current pipeline",
            Action::CancelPipeline => "Cancel the current pipeline",
            Action::Retry => "Retry the current job",
            Action::PlayJob => "Play the current manual job",
            Action::ConfirmAction => "When presented request for confirmation, confirm action",
        }
    }
}

/// A binding of a key.
pub open spec fn bound(key: Key, modifier: Modifier, action: Action) -> KeyBinding {
    KeyBinding { key, modifier, action }
}

/// The bindings of all keys.
pub open spec fn bindings() -> Seq<KeyBinding> {
    seq![
        bound(Key::F(1), Modifier::Plain, Action::Help),
        bound(Key::Up, Modifier::Plain, Action::Up),
        bound(Key::Down, Modifier::Plain, Action::Down),
        bound(Key::Char('q'), Modifier::Plain, Action::QuitOrGoBack),
        bound(Key::Char('n'), Modifier::Plain, Action::QuitOrGoBack),
        bound(Key::Char('c'), Modifier::Plain, Action::Clear),
        bound(Key::Char('d'), Modifier::Plain, Action::Diff),
        bound(Key::Char('r'), Modifier::Plain, Action::RefreshToggle),
        bound(Key::Char('h'), Modifier::Plain, Action::HideUnchanged),
        bound(Key::PageUp, Modifier::Plain, Action::PageUp),
        bound(Key::PageDown, Modifier::Plain, Action::PageDown),
        bound(Key::Home, Modifier::Plain, Action::Home),
        bound(Key::End, Modifier::Plain, Action::End),
        bound(Key::Delete, Modifier::Plain, Action::Delete),
        bound(Key::Char('f'), Modifier::Plain, Action::SetFromDiff),
        bound(Key::Char('t'), Modifier::Plain, Action::SetToDiff),
        bound(Key::Backspace, Modifier::Plain, Action::GoBack),
        bound(Key::Esc, Modifier::Plain, Action::GoBack),
        bound(Key::Enter, Modifier::Plain, Action::Enter),
        bound(Key::Char('o'), Modifier::Plain, Action::OpenInBrowser),
        bound(Key::Char('p'), Modifier::Plain, Action::OpenPreviousInBrowser),
        bound(Key::Char('l'), Modifier::Plain, Action::GitLog),
        bound(Key::Char('u'), Modifier::Plain, Action::ToggleUsernameResolve),
        bound(Key::Char('y'), Modifier::Plain, Action::ConfirmAction),
        bound(Key::Char('m'), Modifier::Plain, Action::ToggleManualJobs),
        bound(Key::Char('s'), Modifier::Plain, Action::PlayJob),
        bound(Key::Tab, Modifier::Plain, Action::ToggleAllRefs),
        bound(Key::Char('c'), Modifier::Ctrl, Action::Quit),
        bound(Key::Char('x'), Modifier::Ctrl, Action::DeletePipeline),
        bound(Key::Char('c'), Modifier::Shift, Action::CancelPipeline),
        bound(Key::Char('r'), Modifier::Ctrl, Action::Retry),
    ]
}

fn bind(key: Key, modifier: Modifier, action: Action) -> (binding: KeyBinding)
    ensures
        binding == bound(key, modifier, action),
{
    KeyBinding { key, modifier, action }
}

/// Binds all keys.
pub fn key_bindings() -> (table: Vec<KeyBinding>)
    ensures
        table@ == bindings(),
{
    let table = vec![
        bind(Key::F(1), Modifier::Plain, Action::Help),
        bind(Key::Up, Modifier::Plain, Action::Up),
        bind(Key::Down, Modifier::Plain, Action::Down),
        bind(Key::Char('q'), Modifier::Plain, Action::QuitOrGoBack),
        bind(Key::Char('n'), Modifier::Plain, Action::QuitOrGoBack),
        bind(Key::Char('c'), Modifier::Plain, Action::Clear),
        bind(Key::Char('d'), Modifier::Plain, Action::Diff),
        bind(Key::Char('r'), Modifier::Plain, Action::RefreshToggle),
        bind(Key::Char('h'), Modifier::Plain, Action::HideUnchanged),
        bind(Key::PageUp, Modifier::Plain, Action::PageUp),
        bind(Key::PageDown, Modifier::Plain, Action::PageDown),
        bind(Key::Home, Modifier::Plain, Action::Home),
        bind(Key::End, Modifier::Plain, Action::End),
        bind(Key::Delete, Modifier::Plain, Action::Delete),
        bind(Key::Char('f'), Modifier::Plain, Action::SetFromDiff),
        bind(Key::Char('t'), Modifier::Plain, Action::SetToDiff),
        bind(Key::Backspace, Modifier::Plain, Action::GoBack),
        bind(Key::Esc, Modifier::Plain, Action::GoBack),
        bind(Key::Enter, Modifier::Plain, Action::Enter),
        bind(Key::Char('o'), Modifier::Plain, Action::OpenInBrowser),
        bind(Key::Char('p'), Modifier::Plain, Action::OpenPreviousInBrowser),
        bind(Key::Char('l'), Modifier::Plain, Action::GitLog),
        bind(Key::Char('u'), Modifier::Plain, Action::ToggleUsernameResolve),
        bind(Key::Char('y'), Modifier::Plain, Action::ConfirmAction),
        bind(Key::Char('m'), Modifier::Plain, Action::ToggleManualJobs),
        bind(Key::Char('s'), Modifier::Plain, Action::PlayJob),
        bind(Key::Tab, Modifier::Plain, Action::ToggleAllRefs),
        bind(Key::Char('c'), Modifier::Ctrl, Action::Quit),
        bind(Key::Char('x'), Modifier::Ctrl, Action::DeletePipeline),
        bind(Key::Char('c'), Modifier::Shift, Action::CancelPipeline),
        bind(Key::Char('r'), Modifier::Ctrl, Action::Retry),
    ];
    assert(table@ =~= bindings());
    table
}

/// No key is bound twice.
pub proof fn keys_are_bound_once(i: int, j: int)
    requires
        0 <= i < j < bindings().len(),
    ensures
        bindings()[i].key != bindings()[j].key || bindings()[i].modifier != bindings()[j].modifier,
{
}

/// Every action has a key.
pub proof fn actions_are_bound(action: Action)
    ensures
        exists|i: int| 0 <= i < bindings().len() && (#[trigger] bindings()[i]).action == action,
{
    let place: int = match action {
        Action::Help => 0,
        Action::Up => 1,
        Action::Down => 2,
        Action::QuitOrGoBack => 3,
        Action::Clear => 5,
        Action::Diff => 6,
        Action::RefreshToggle => 7,
        Action::HideUnchanged => 8,
        Action::PageUp => 9,
        Action::PageDown => 10,
        Action::Home => 11,
        Action::End => 12,
        Action::Delete => 13,
        Action::SetFromDiff => 14,
        Action::SetToDiff => 15,
        Action::GoBack => 16,
        Action::Enter => 18,
        Action::OpenInBrowser => 19,
        Action::OpenPreviousInBrowser => 20,
        Action::GitLog => 21,
        Action::ToggleUsernameResolve => 22,
        Action::ConfirmAction => 23,
        Action::ToggleManualJobs => 24,
        Action::PlayJob => 25,
        Action::ToggleAllRefs => 26,
        Action::Quit => 27,
        Action::DeletePipeline => 28,
        Action::CancelPipeline => 29,
        Action::Retry => 30,
    };
    assert(bindings()[place].action == action);
}

} // verus!
