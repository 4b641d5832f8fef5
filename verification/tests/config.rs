use bindmidi::config::{
    AbsolutePos2D, Bind, BindAction, Config, KeyboardKeyBindAction, MouseButton, NotFound,
    RelativePos2D, ScrollBindAction, ScrollDirection, TextBindAction,
};
use bindmidi::note::Note;

fn key(text: &str) -> KeyboardKeyBindAction {
    KeyboardKeyBindAction { key: text.to_string() }
}

fn bind(note: u8, action: BindAction) -> Bind {
    Bind { note: Note::from_midi(note), action }
}

#[test]
fn new_registry_is_empty() {
    let config = Config::new();
    assert_eq!(config.len_binds(), 0);
    assert_eq!(config.get_bind(0), Err(NotFound));
}

#[test]
fn default_bind_is_middle_c_moving_by_nothing() {
    let expected = bind(60, BindAction::MoveMouseRelative(RelativePos2D { x: 0, y: 0 }));
    assert_eq!(Bind::default(), expected);
    assert_eq!(BindAction::default(), expected.action);
    assert_eq!(MouseButton::default(), MouseButton::Left);
    assert_eq!(ScrollDirection::default(), ScrollDirection::Down);
    assert_eq!(RelativePos2D::default(), RelativePos2D { x: 0, y: 0 });
    assert_eq!(AbsolutePos2D::default(), AbsolutePos2D { x: 0, y: 0 });
    assert_eq!(
        ScrollBindAction::default(),
        ScrollBindAction { direction: ScrollDirection::Down, amount: 0 }
    );
    assert_eq!(KeyboardKeyBindAction::default(), key(""));
    assert_eq!(TextBindAction::default(), TextBindAction { text: String::new() });
}

#[test]
fn add_appends_and_returns_the_last_index() {
    let mut config = Config::new();
    assert_eq!(config.add_bind(bind(60, BindAction::Debug)), 0);
    assert_eq!(config.add_default_bind(), 1);
    assert_eq!(config.add_bind(bind(62, BindAction::PressKey(key("x")))), 2);
    assert_eq!(config.len_binds(), 3);
    assert_eq!(config.get_bind(0), Ok(bind(60, BindAction::Debug)));
    assert_eq!(config.get_bind(1), Ok(Bind::default()));
    assert_eq!(config.get_bind(2), Ok(bind(62, BindAction::PressKey(key("x")))));
    assert_eq!(config.get_bind(3), Err(NotFound));
}

#[test]
fn set_replaces_in_place() {
    let mut config = Config::new();
    config.add_default_bind();
    config.add_default_bind();
    assert_eq!(config.set_bind(1, bind(70, BindAction::Click(MouseButton::Right))), Ok(()));
    assert_eq!(config.len_binds(), 2);
    assert_eq!(config.get_bind(0), Ok(Bind::default()));
    assert_eq!(config.get_bind(1), Ok(bind(70, BindAction::Click(MouseButton::Right))));
    assert_eq!(config.set_bind(2, Bind::default()), Err(NotFound));
    assert_eq!(config.len_binds(), 2);
}

#[test]
fn delete_shifts_the_binds_behind() {
    let mut config = Config::new();
    for n in [10u8, 20, 30, 40] {
        config.add_bind(bind(n, BindAction::Debug));
    }
    assert_eq!(config.delete_bind(1), Ok(()));
    assert_eq!(config.len_binds(), 3);
    assert_eq!(config.get_bind(0).unwrap().note.midi(), 10);
    assert_eq!(config.get_bind(1).unwrap().note.midi(), 30);
    assert_eq!(config.get_bind(2).unwrap().note.midi(), 40);
    assert_eq!(config.delete_bind(3), Err(NotFound));
    assert_eq!(config.len_binds(), 3);
}

#[test]
fn length_is_adds_less_deletes_and_every_index_below_it_is_found() {
    let mut config = Config::new();
    let mut adds = 0usize;
    let mut deletes = 0usize;
    let steps: [(u8, usize); 12] = [
        (0, 0), (0, 0), (2, 0), (1, 1), (0, 0), (2, 5), (2, 1), (1, 9), (0, 0), (2, 0), (2, 0),
        (2, 0),
    ];
    for (kind, idx) in steps {
        match kind {
            0 => {
                config.add_default_bind();
                adds += 1;
            }
            1 => {
                let _ = config.set_bind(idx, bind(1, BindAction::Debug));
            }
            _ => {
                if config.delete_bind(idx).is_ok() {
                    deletes += 1;
                }
            }
        }
        assert_eq!(config.len_binds(), adds - deletes);
        for i in 0..config.len_binds() {
            assert!(config.get_bind(i).is_ok());
        }
        assert_eq!(config.get_bind(config.len_binds()), Err(NotFound));
    }
    assert_eq!(adds, 4);
    assert_eq!(deletes, 4);
    assert_eq!(config.len_binds(), 0);
}

#[test]
fn binds_for_note_keep_registry_order_and_duplicates() {
    let mut config = Config::new();
    config.add_bind(bind(64, BindAction::HoldClick(MouseButton::Left)));
    config.add_bind(bind(60, BindAction::Debug));
    config.add_bind(bind(64, BindAction::Debug));
    config.add_bind(bind(64, BindAction::Debug));
    let found = config.get_binds_for_note(&Note::from_midi(64));
    assert_eq!(
        found,
        vec![
            bind(64, BindAction::HoldClick(MouseButton::Left)),
            bind(64, BindAction::Debug),
            bind(64, BindAction::Debug),
        ]
    );
    assert_eq!(config.get_binds_for_note(&Note::from_midi(61)), Vec::<Bind>::new());
    assert_eq!(config.len_binds(), 4);
}

#[test]
fn note_and_action_strings_by_index() {
    let mut config = Config::new();
    config.add_bind(bind(60, BindAction::PressKey(key("x"))));
    config.add_bind(bind(61, BindAction::Scroll(ScrollBindAction::default())));
    assert_eq!(config.get_bind_note_string(0), Ok("C4".to_string()));
    assert_eq!(config.get_bind_note_string(1), Ok("C#4".to_string()));
    assert_eq!(config.get_bind_note_string(2), Err(NotFound));
    assert_eq!(config.get_bind_action_string(0), Ok("Press Key".to_string()));
    assert_eq!(config.get_bind_action_string(1), Ok("Scroll".to_string()));
    assert_eq!(config.get_bind_action_string(2), Err(NotFound));
}

#[test]
fn action_kinds_have_an_index_and_a_name() {
    let actions = [
        (BindAction::PressKey(key("a")), 0, "Press Key"),
        (BindAction::HoldKey(key("a")), 1, "Hold Key"),
        (BindAction::Click(MouseButton::Left), 2, "Click"),
        (BindAction::HoldClick(MouseButton::Left), 3, "Hold Click"),
        (BindAction::MoveMouseRelative(RelativePos2D { x: 1, y: 2 }), 4, "Move Mouse"),
        (BindAction::MoveMouseAbsolute(AbsolutePos2D { x: 1, y: 2 }), 5, "Move Mouse to"),
        (BindAction::Scroll(ScrollBindAction::default()), 6, "Scroll"),
        (BindAction::Text(TextBindAction { text: "hi".to_string() }), 7, "Text"),
        (BindAction::Debug, 8, "Debug"),
    ];
    for (action, index, name) in actions {
        assert_eq!(action.index(), index);
        assert_eq!(action.name(), name);
        assert_eq!(action.clone(), action);
    }
}

#[test]
fn buttons_and_directions_have_an_index() {
    assert_eq!(MouseButton::Left.index(), 0);
    assert_eq!(MouseButton::Right.index(), 1);
    assert_eq!(MouseButton::Middle.index(), 2);
    assert_eq!(ScrollDirection::Up.index(), 0);
    assert_eq!(ScrollDirection::Down.index(), 1);
    assert_eq!(ScrollDirection::Left.index(), 2);
    assert_eq!(ScrollDirection::Right.index(), 3);
}
