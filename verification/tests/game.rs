use charliegame::button::KeyState;
use charliegame::charlie::brightness_delay_us;
use charliegame::game::GameState;

fn armed(a: u8, b: u8, brightness: u8) -> GameState {
    GameState { a, b, ap: true, bp: true, brightness }
}

#[test]
fn move_a_adds_modulo_64() {
    // a=30, b=33: the A chord sets a to (30+33) mod 64 = 63; the next A
    // chord sets a to (63+33) mod 64 = 32.
    let mut g = armed(30, 33, 1);
    assert_eq!(g.new_value(), 63);
    g.step(KeyState::Released, KeyState::Up);
    assert_eq!((g.a, g.b), (63, 33));
    g.step(KeyState::Released, KeyState::Up);
    assert_eq!((g.a, g.b), (32, 33));
}

#[test]
fn move_b_adds_modulo_64() {
    let mut g = armed(40, 30, 0);
    g.step(KeyState::Up, KeyState::Released);
    assert_eq!((g.a, g.b), (40, 6));
}

#[test]
fn disarmed_player_cannot_move() {
    let mut g = armed(10, 20, 1);
    g.ap = false;
    g.step(KeyState::Released, KeyState::Up);
    assert_eq!((g.a, g.b), (10, 20));
    g.step(KeyState::Up, KeyState::Released);
    assert_eq!((g.a, g.b), (10, 20));
}

#[test]
fn cancel_gesture_resets_counters() {
    let mut g = armed(10, 20, 2);
    g.step(KeyState::Down, KeyState::Released);
    assert_eq!((g.a, g.b), (63, 63));
    assert!(!g.ap);
    assert!(g.bp);
    assert_eq!(g.brightness, 2);
}

#[test]
fn both_up_rearms() {
    let mut g = armed(10, 20, 1);
    g.ap = false;
    g.bp = false;
    g.step(KeyState::Up, KeyState::Up);
    assert!(g.ap && g.bp);
    assert_eq!((g.a, g.b), (10, 20));
}

#[test]
fn other_combinations_change_nothing() {
    let mut g = armed(10, 20, 1);
    let before = g;
    g.step(KeyState::Down, KeyState::Up);
    g.step(KeyState::Up, KeyState::Down);
    g.step(KeyState::Down, KeyState::Down);
    g.step(KeyState::Pressed, KeyState::Up);
    assert_eq!(g, before);
}

#[test]
fn brightness_cycles_without_skip() {
    // Three gestures walk 0 -> 1 -> 2 -> 0, and the inter-frame delay
    // walks 20000us -> 1000us -> 0us -> 20000us.
    let mut g = armed(10, 21, 0);
    assert_eq!(brightness_delay_us(g.brightness), 20_000);
    g.step(KeyState::Released, KeyState::Down);
    assert_eq!(g.brightness, 1);
    assert_eq!(brightness_delay_us(g.brightness), 1_000);
    g.step(KeyState::Released, KeyState::Down);
    assert_eq!(g.brightness, 2);
    assert_eq!(brightness_delay_us(g.brightness), 0);
    g.step(KeyState::Released, KeyState::Down);
    assert_eq!(g.brightness, 0);
    assert_eq!(brightness_delay_us(g.brightness), 20_000);
    // The gesture moves no counter.
    assert_eq!((g.a, g.b), (10, 21));
}

#[test]
fn win_triggers_exactly_on_saturated_pair() {
    assert!(armed(63, 63, 1).win_triggered());
    assert!(!armed(63, 62, 1).win_triggered());
    assert!(!armed(62, 63, 1).win_triggered());
    assert!(!armed(0, 0, 1).win_triggered());
}

#[test]
fn counters_stay_in_range() {
    // Drive the machine through every chord from a saturated state and
    // check the 6-bit range is never left.
    let chords: [(KeyState, KeyState); 6] = [
        (KeyState::Released, KeyState::Up),
        (KeyState::Up, KeyState::Released),
        (KeyState::Down, KeyState::Released),
        (KeyState::Released, KeyState::Down),
        (KeyState::Up, KeyState::Up),
        (KeyState::Down, KeyState::Down),
    ];
    let mut g = armed(63, 63, 0);
    for (ka, kb) in chords {
        g.step(ka, kb);
        assert!(g.a <= 63 && g.b <= 63);
        assert!(g.brightness <= 2);
    }
}
