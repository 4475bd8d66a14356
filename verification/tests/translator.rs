use gamebridge::state::Command;
use gamebridge::state::GameState;
use gamebridge::translate::Translator;

fn gp(k1: bool, k2: bool, hp: u64) -> GameState {
    GameState::Gameplay { k1, k2, hp }
}

#[test]
fn scenario_full_session() {
    // Unknown, enter gameplay, press a key, lose health, leave gameplay.
    let inputs = vec![
        GameState::Unknown,
        gp(false, false, 1000),
        gp(true, false, 1000),
        gp(true, false, 500),
        GameState::Unknown,
    ];
    let mut t = Translator::new();
    let mut emitted: Vec<Command> = Vec::new();
    for s in inputs {
        if let Some(cmd) = t.feed(s) {
            emitted.push(cmd);
        }
    }
    assert_eq!(
        emitted,
        vec![
            Command::EnterMode(2),
            Command::KeyState(true, false),
            Command::End,
        ]
    );
}

#[test]
fn hp_change_alone_emits_nothing() {
    let mut t = Translator::new();
    assert_eq!(t.feed(gp(true, true, 1000)), Some(Command::EnterMode(2)));
    assert_eq!(t.feed(gp(true, true, 250)), None);
}

#[test]
fn identical_snapshot_twice_emits_once() {
    let mut t = Translator::new();
    assert_eq!(t.feed(gp(false, true, 800)), Some(Command::EnterMode(2)));
    assert_eq!(t.feed(gp(false, true, 800)), None);

    let mut u = Translator::new();
    assert_eq!(u.feed(GameState::Unknown), None);
    assert_eq!(u.feed(GameState::Unknown), None);
}

#[test]
fn key_change_emits_current_keys() {
    let mut t = Translator::new();
    t.feed(gp(false, false, 1000));
    assert_eq!(t.feed(gp(false, true, 1000)), Some(Command::KeyState(false, true)));
    assert_eq!(t.feed(gp(true, true, 900)), Some(Command::KeyState(true, true)));
    assert_eq!(t.feed(gp(true, true, 900)), None);
}

#[test]
fn end_only_from_non_unknown() {
    let mut t = Translator::new();
    assert_eq!(t.feed(GameState::Unknown), None);
    t.feed(gp(false, false, 1000));
    assert_eq!(t.feed(GameState::Unknown), Some(Command::End));
    assert_eq!(t.feed(GameState::Unknown), None);
}

#[test]
fn reentering_gameplay_emits_mode_again() {
    let mut t = Translator::new();
    assert_eq!(t.feed(gp(true, false, 1000)), Some(Command::EnterMode(2)));
    assert_eq!(t.feed(GameState::Unknown), Some(Command::End));
    assert_eq!(t.feed(gp(true, false, 1000)), Some(Command::EnterMode(2)));
}

#[test]
fn feed_always_adopts_snapshot() {
    let mut t = Translator::new();
    assert_eq!(t.last, GameState::Unknown);
    t.feed(gp(true, false, 700));
    assert_eq!(t.last, gp(true, false, 700));
    t.feed(gp(true, false, 300));
    assert_eq!(t.last, gp(true, false, 300));
    t.feed(GameState::Unknown);
    assert_eq!(t.last, GameState::Unknown);
}
