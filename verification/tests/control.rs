use charliegame::charlie::frame_plan;
use charliegame::control::{Action, Controller};

// At 100 Hz one counter tick is 10 ms, so the debounce window is 5 ticks
// and the idle timeout is 1000 ticks.
const HZ: u32 = 100;

fn playable(a: u8, b: u8) -> bool {
    a < 64 && b < 64 && !(a == 63 && b == 63) && !(a % 2 == 0 && b % 2 == 0)
}

#[test]
fn boot_strobes_once_then_reseeds() {
    // The game boots saturated, so the first iteration plays the win
    // strobe; the reseeded pair is playable, and the next iteration does
    // not strobe again.
    let mut c = Controller::new(HZ, 0, false, false);
    match c.step(1, false, false) {
        Action::Show { strobe, frame } => {
            assert!(strobe);
            assert_eq!(frame.len(), 13);
            assert_eq!(frame, frame_plan(c.game.a, c.game.b, c.game.brightness));
        },
        Action::Sleep => panic!("no sleep expected"),
    }
    assert!(playable(c.game.a, c.game.b));
    match c.step(2, false, false) {
        Action::Show { strobe, .. } => assert!(!strobe),
        Action::Sleep => panic!("no sleep expected"),
    }
}

#[test]
fn releasing_button_a_moves_counter_a() {
    let mut c = Controller::new(HZ, 0, false, false);
    c.step(1, false, false);
    let (a0, b0) = (c.game.a, c.game.b);
    // Press past the debounce window, then release past it: the move
    // fires on the release edge.
    match c.step(10, true, false) {
        Action::Show { strobe, .. } => assert!(!strobe),
        Action::Sleep => panic!("no sleep expected"),
    }
    assert_eq!((c.game.a, c.game.b), (a0, b0));
    c.step(20, false, false);
    let moved = ((a0 as u16 + b0 as u16) % 64) as u8;
    if playable(moved, b0) {
        assert_eq!((c.game.a, c.game.b), (moved, b0));
    } else {
        // The move landed on a degenerate pair and was reseeded.
        assert!(playable(c.game.a, c.game.b));
    }
}

#[test]
fn idle_timeout_sleeps_and_disarms() {
    let mut c = Controller::new(HZ, 0, false, false);
    c.step(1, false, false);
    // Just past a second: nowhere near the timeout.
    match c.step(101, false, false) {
        Action::Show { .. } => {},
        Action::Sleep => panic!("no sleep expected"),
    }
    // Past ten idle seconds with no edge: sleep, with both players
    // disarmed so waking cannot replay a gesture.
    match c.step(1002, false, false) {
        Action::Sleep => {},
        Action::Show { .. } => panic!("sleep expected"),
    }
    assert!(!c.game.ap);
    assert!(!c.game.bp);
}

#[test]
fn edge_restarts_the_idle_window() {
    let mut c = Controller::new(HZ, 0, false, false);
    c.step(1, false, false);
    // A press edge at 10.03 s keeps the loop awake...
    match c.step(1003, true, false) {
        Action::Show { .. } => {},
        Action::Sleep => panic!("the edge resets the idle clock"),
    }
    // ...and restarts the window: 9.99 s later is still awake, 10.07 s
    // later is asleep. The button stays held, so no further edge comes.
    match c.step(2002, true, false) {
        Action::Show { .. } => {},
        Action::Sleep => panic!("window was restarted"),
    }
    match c.step(2011, true, false) {
        Action::Sleep => {},
        Action::Show { .. } => panic!("sleep expected"),
    }
}

#[test]
fn sleep_skips_display_but_keeps_time() {
    let mut c = Controller::new(HZ, 0, false, false);
    c.step(1, false, false);
    let before = c.time.elapsed_ns;
    match c.step(2000, false, false) {
        Action::Sleep => {},
        Action::Show { .. } => panic!("sleep expected"),
    }
    assert!(c.time.elapsed_ns > before);
}
