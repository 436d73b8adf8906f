use glcim::keys::{key_bindings, Action, Key, Modifier};

#[test]
fn keys_and_their_actions() {
    let table = key_bindings();
    assert_eq!(table.len(), 31);
    let find = |key: Key, modifier: Modifier| -> Option<Action> {
        table.iter().find(|b| b.key == key && b.modifier == modifier).map(|b| b.action)
    };
    assert_eq!(find(Key::F(1), Modifier::Plain), Some(Action::Help));
    assert_eq!(find(Key::Char('c'), Modifier::Plain), Some(Action::Clear));
    assert_eq!(find(Key::Char('c'), Modifier::Ctrl), Some(Action::Quit));
    assert_eq!(find(Key::Char('c'), Modifier::Shift), Some(Action::CancelPipeline));
    assert_eq!(find(Key::Char('y'), Modifier::Plain), Some(Action::ConfirmAction));
    assert_eq!(find(Key::Char('n'), Modifier::Plain), Some(Action::QuitOrGoBack));
    assert_eq!(find(Key::Char('n'), Modifier::Ctrl), None);
}

#[test]
fn no_key_is_bound_twice() {
    let table = key_bindings();
    for (i, a) in table.iter().enumerate() {
        for b in table[i + 1..].iter() {
            assert!(a.key != b.key || a.modifier != b.modifier);
        }
    }
}

#[test]
fn every_action_has_a_key_and_a_description() {
    let mut actions: Vec<Action> = key_bindings().iter().map(|b| b.action).collect();
    actions.sort();
    actions.dedup();
    assert_eq!(actions.len(), 29);
    let mut texts: Vec<&str> = actions.iter().map(|a| a.description()).collect();
    texts.sort();
    texts.dedup();
    assert_eq!(texts.len(), 29);
    assert_eq!(Action::Quit.description(), "Quit program");
    assert_eq!(Action::GitLog.description(), "Open git commit");
}
