//! What holds of the keys.

use crate::keys::{action_text, bindings, Action, Key, KeyBinding, Modifier};
use vstd::prelude::*;

verus! {

/// The action that a description is about.
pub open spec fn action_described(text: Seq<char>) -> Option<Action> {
    if text == "Quit program"@ {
        Some(Action::Quit)
    } else if text == "Go to previous mode or quit"@ {
        Some(Action::QuitOrGoBack)
    } else if text == "Clear hidden items"@ {
        Some(Action::Clear)
    } else if text == "Diff selected pipelines"@ {
        Some(Action::Diff)
    } else if text == "Toggle auto-refresh"@ {
        Some(Action::RefreshToggle)
    } else if text == "In pipediff: toggle visibility of unchanged items"@ {
        Some(Action::HideUnchanged)
    } else if text == "Up one item"@ {
        Some(Action::Up)
    } else if text == "Down one item"@ {
        Some(Action::Down)
    } else if text == "Help screen"@ {
        Some(Action::Help)
    } else if text == "Page up in list"@ {
        Some(Action::PageUp)
    } else if text == "Page down in list"@ {
        Some(Action::PageDown)
    } else if text == "Go to beginning of list"@ {
        Some(Action::Home)
    } else if text == "Go to end of list"@ {
        Some(Action::End)
    } else if text == "Hide list item"@ {
        Some(Action::Delete)
    } else if text == "Set 'from' pipe for diff"@ {
        Some(Action::SetFromDiff)
    } else if text == "Set 'to' pipe for diff"@ {
        Some(Action::SetToDiff)
    } else if text == "Go back to previous screen"@ {
        Some(Action::GoBack)
    } else if text == "Enter pipeline or job log"@ {
        Some(Action::Enter)
    } else if text == "Open job or pipeline in browser"@ {
        Some(Action::OpenInBrowser)
    } else if text == "In pipediff, open previous job in browser"@ {
        Some(Action::OpenPreviousInBrowser)
    } else if text == "Open git commit"@ {
        Some(Action::GitLog)
    } else if text == "Toggle username load when listing other users pipelines"@ {
        Some(Action::ToggleUsernameResolve)
    } else if text == "In Pipelines mode, toggle between all refs or just the requested ref"@ {
        Some(Action::ToggleAllRefs)
    } else if text == "In Jobs mode, toggle showing manual jobs"@ {
        Some(Action::ToggleManualJobs)
    } else if text == "Delete the current pipeline"@ {
        Some(Action::DeletePipeline)
    } else if text == "Cancel the current pipeline"@ {
        Some(Action::CancelPipeline)
    } else if text == "Retry the current job"@ {
        Some(Action::Retry)
    } else if text == "Play the current manual job"@ {
        Some(Action::PlayJob)
    } else if text == "When presented request for confirmation, confirm action"@ {
        Some(Action::ConfirmAction)
    } else {
        None
    }
}

/// A description is about the action that it describes: each action has its own words.
pub proof fn descriptions_tell_actions_apart(action: Action)
    ensures
        action_described(action_text(action)) == Some(action),
{
    reveal_strlit("Quit program");
    reveal_strlit("Go to previous mode or quit");
    reveal_strlit("Clear hidden items");
    reveal_strlit("Diff selected pipelines");
    reveal_strlit("Toggle auto-refresh");
    reveal_strlit("In pipediff: toggle visibility of unchanged items");
    reveal_strlit("Up one item");
    reveal_strlit("Down one item");
    reveal_strlit("Help screen");
    reveal_strlit("Page up in list");
    reveal_strlit("Page down in list");
    reveal_strlit("Go to beginning of list");
    reveal_strlit("Go to end of list");
    reveal_strlit("Hide list item");
    reveal_strlit("Set 'from' pipe for diff");
    reveal_strlit("Set 'to' pipe for diff");
    reveal_strlit("Go back to previous screen");
    reveal_strlit("Enter pipeline or job log");
    reveal_strlit("Open job or pipeline in browser");
    reveal_strlit("In pipediff, open previous job in browser");
    reveal_strlit("Open git commit");
    reveal_strlit("Toggle username load when listing other users pipelines");
    reveal_strlit("In Pipelines mode, toggle between all refs or just the requested ref");
    reveal_strlit("In Jobs mode, toggle showing manual jobs");
    reveal_strlit("Delete the current pipeline");
    reveal_strlit("Cancel the current pipeline");
    reveal_strlit("Retry the current job");
    reveal_strlit("Play the current manual job");
    reveal_strlit("When presented request for confirmation, confirm action");
    assert("Quit program"@.len() == 12);
    assert("Go to previous mode or quit"@.len() == 27);
    assert("Clear hidden items"@.len() == 18);
    assert("Diff selected pipelines"@.len() == 23);
    assert("Toggle auto-refresh"@.len() == 19);
    assert("In pipediff: toggle visibility of unchanged items"@.len() == 49);
    assert("Up one item"@.len() == 11);
    assert("Down one item"@.len() == 13);
    assert("Help screen"@.len() == 11);
    assert("Page up in list"@.len() == 15);
    assert("Page down in list"@.len() == 17);
    assert("Go to beginning of list"@.len() == 23);
    assert("Go to end of list"@.len() == 17);
    assert("Hide list item"@.len() == 14);
    assert("Set 'from' pipe for diff"@.len() == 24);
    assert("Set 'to' pipe for diff"@.len() == 22);
    assert("Go back to previous screen"@.len() == 26);
    assert("Enter pipeline or job log"@.len() == 25);
    assert("Open job or pipeline in browser"@.len() == 31);
    assert("In pipediff, open previous job in browser"@.len() == 41);
    assert("Open git commit"@.len() == 15);
    assert("Toggle username load when listing other users pipelines"@.len() == 55);
    assert("In Pipelines mode, toggle between all refs or just the requested ref"@.len() == 68);
    assert("In Jobs mode, toggle showing manual jobs"@.len() == 40);
    assert("Delete the current pipeline"@.len() == 27);
    assert("Cancel the current pipeline"@.len() == 27);
    assert("Retry the current job"@.len() == 21);
    assert("Play the current manual job"@.len() == 27);
    assert("When presented request for confirmation, confirm action"@.len() == 55);
    assert("Up one item"@[0] == 'U' && "Help screen"@[0] == 'H');
    assert("Page up in list"@[0] == 'P' && "Open git commit"@[0] == 'O');
    assert("Page down in list"@[0] == 'P' && "Go to end of list"@[0] == 'G');
    assert("Diff selected pipelines"@[0] == 'D' && "Go to beginning of list"@[0] == 'G');
    assert("Go to previous mode or quit"@[0] == 'G' && "Delete the current pipeline"@[0] == 'D');
    assert("Go to previous mode or quit"@[0] == 'G' && "Cancel the current pipeline"@[0] == 'C');
    assert("Go to previous mode or quit"@[0] == 'G' && "Play the current manual job"@[0] == 'P');
    assert("Delete the current pipeline"@[0] == 'D' && "Cancel the current pipeline"@[0] == 'C');
    assert("Delete the current pipeline"@[0] == 'D' && "Play the current manual job"@[0] == 'P');
    assert("Cancel the current pipeline"@[0] == 'C' && "Play the current manual job"@[0] == 'P');
    assert("Toggle username load when listing other users pipelines"@[0] == 'T' && "When presented request for confirmation, confirm action"@[0] == 'W');
}

/// The keys for an action.
pub open spec fn keys_for(action: Action) -> Seq<(Key, Modifier)> {
    match action {
        Action::Quit => seq![(Key::Char('c'), Modifier::Ctrl)],
        Action::QuitOrGoBack => seq![(Key::Char('q'), Modifier::Plain), (Key::Char('n'), Modifier::Plain)],
        Action::Clear => seq![(Key::Char('c'), Modifier::Plain)],
        Action::Diff => seq![(Key::Char('d'), Modifier::Plain)],
        Action::RefreshToggle => seq![(Key::Char('r'), Modifier::Plain)],
        Action::HideUnchanged => seq![(Key::Char('h'), Modifier::Plain)],
        Action::Up => seq![(Key::Up, Modifier::Plain)],
        Action::Down => seq![(Key::Down, Modifier::Plain)],
        Action::Help => seq![(Key::F(1), Modifier::Plain)],
        Action::PageUp => seq![(Key::PageUp, Modifier::Plain)],
        Action::PageDown => seq![(Key::PageDown, Modifier::Plain)],
        Action::Home => seq![(Key::Home, Modifier::Plain)],
        Action::End => seq![(Key::End, Modifier::Plain)],
        Action::Delete => seq![(Key::Delete, Modifier::Plain)],
        Action::SetFromDiff => seq![(Key::Char('f'), Modifier::Plain)],
        Action::SetToDiff => seq![(Key::Char('t'), Modifier::Plain)],
        Action::GoBack => seq![(Key::Backspace, Modifier::Plain), (Key::Esc, Modifier::Plain)],
        Action::Enter => seq![(Key::Enter, Modifier::Plain)],
        Action::OpenInBrowser => seq![(Key::Char('o'), Modifier::Plain)],
        Action::OpenPreviousInBrowser => seq![(Key::Char('p'), Modifier::Plain)],
        Action::GitLog => seq![(Key::Char('l'), Modifier::Plain)],
        Action::ToggleUsernameResolve => seq![(Key::Char('u'), Modifier::Plain)],
        Action::ToggleAllRefs => seq![(Key::Tab, Modifier::Plain)],
        Action::ToggleManualJobs => seq![(Key::Char('m'), Modifier::Plain)],
        Action::DeletePipeline => seq![(Key::Char('x'), Modifier::Ctrl)],
        Action::CancelPipeline => seq![(Key::Char('c'), Modifier::Shift)],
        Action::Retry => seq![(Key::Char('r'), Modifier::Ctrl)],
        Action::PlayJob => seq![(Key::Char('s'), Modifier::Plain)],
        Action::ConfirmAction => seq![(Key::Char('y'), Modifier::Plain)],
    }
}

/// A key does what it is for, and nothing else: it is bound to an action if and only if it is
/// one of the keys for that action.
pub proof fn keys_do_what_they_are_for(binding: KeyBinding)
    ensures
        bindings().contains(binding) <==> keys_for(binding.action).contains(
            (binding.key, binding.modifier),
        ),
{
    let table = bindings();
    let keys = keys_for(binding.action);
    if table.contains(binding) {
        let i = choose|i: int| 0 <= i < table.len() && table[i] == binding;
        assert(keys.len() > 0);
        assert(keys[0] == (binding.key, binding.modifier) || keys[1] == (
            binding.key,
            binding.modifier,
        ));
    }
    if keys.contains((binding.key, binding.modifier)) {
        let j = choose|j: int| 0 <= j < keys.len() && keys[j] == (binding.key, binding.modifier);
        let place: int = match binding.action {
            Action::Quit => 27,
            Action::QuitOrGoBack => 3 + j,
            Action::Clear => 5,
            Action::Diff => 6,
            Action::RefreshToggle => 7,
            Action::HideUnchanged => 8,
            Action::Up => 1,
            Action::Down => 2,
            Action::Help => 0,
            Action::PageUp => 9,
            Action::PageDown => 10,
            Action::Home => 11,
            Action::End => 12,
            Action::Delete => 13,
            Action::SetFromDiff => 14,
            Action::SetToDiff => 15,
            Action::GoBack => 16 + j,
            Action::Enter => 18,
            Action::OpenInBrowser => 19,
            Action::OpenPreviousInBrowser => 20,
            Action::GitLog => 21,
            Action::ToggleUsernameResolve => 22,
            Action::ToggleAllRefs => 26,
            Action::ToggleManualJobs => 24,
            Action::DeletePipeline => 28,
            Action::CancelPipeline => 29,
            Action::Retry => 30,
            Action::PlayJob => 25,
            Action::ConfirmAction => 23,
        };
        assert(table[place] == binding);
    }
}

} // verus!
