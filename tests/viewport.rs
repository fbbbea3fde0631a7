use tock::viewport::{Action, Event, Key, Placement, Viewport, START_HEIGHT, START_WIDTH};

fn sized(center_height: u16, center_width: u16) -> Viewport {
    Viewport { center_height, center_width }
}

#[test]
fn starts_at_forty_by_eighty() {
    let v = Viewport::new();
    assert_eq!(v.center_height, 40);
    assert_eq!(v.center_width, 80);
    assert_eq!(START_HEIGHT, 40);
    assert_eq!(START_WIDTH, 80);
}

#[test]
fn placement_centres_the_area() {
    let p = Viewport::new().placement(100, 200);
    assert_eq!(p, Placement { top: 30, height: 40, left: 60, width: 80 });
}

#[test]
fn placement_rounds_margins_down() {
    let p = Viewport::new().placement(41, 83);
    assert_eq!(p, Placement { top: 0, height: 40, left: 1, width: 80 });
}

#[test]
fn placement_cuts_area_to_terminal() {
    let p = Viewport::new().placement(20, 50);
    assert_eq!(p, Placement { top: 0, height: 20, left: 0, width: 50 });
}

#[test]
fn placement_in_empty_terminal() {
    let p = Viewport::new().placement(0, 0);
    assert_eq!(p, Placement { top: 0, height: 0, left: 0, width: 0 });
}

#[test]
fn up_grows_below_terminal_height() {
    let mut v = sized(10, 10);
    v.press(Key::Up, 11, 30);
    assert_eq!(v, sized(11, 10));
    v.press(Key::Up, 11, 30);
    assert_eq!(v, sized(11, 10));
}

#[test]
fn right_grows_below_terminal_width() {
    let mut v = sized(10, 29);
    v.press(Key::Right, 11, 30);
    assert_eq!(v, sized(10, 30));
    v.press(Key::Right, 11, 30);
    assert_eq!(v, sized(10, 30));
}

#[test]
fn down_and_left_stop_at_zero() {
    let mut v = sized(1, 1);
    v.press(Key::Down, 5, 5);
    v.press(Key::Left, 5, 5);
    assert_eq!(v, sized(0, 0));
    v.press(Key::Down, 5, 5);
    v.press(Key::Left, 5, 5);
    assert_eq!(v, sized(0, 0));
}

#[test]
fn up_at_largest_size_keeps_size() {
    let mut v = sized(u16::MAX, u16::MAX);
    v.press(Key::Up, u16::MAX, u16::MAX);
    v.press(Key::Right, u16::MAX, u16::MAX);
    assert_eq!(v, sized(u16::MAX, u16::MAX));
}

#[test]
fn other_keys_keep_size() {
    let mut v = sized(7, 9);
    v.press(Key::Other, 20, 20);
    v.press(Key::Char('x'), 20, 20);
    assert_eq!(v, sized(7, 9));
}

#[test]
fn idle_step_draws() {
    let mut v = Viewport::new();
    let a = v.step(None, 100, 200);
    assert_eq!(a, Action::Draw(Placement { top: 30, height: 40, left: 60, width: 80 }));
    assert_eq!(v, Viewport::new());
}

#[test]
fn q_quits() {
    let mut v = Viewport::new();
    assert_eq!(v.step(Some(Event::Key(Key::Char('q'))), 100, 200), Action::Quit);
    assert_eq!(v, Viewport::new());
}

#[test]
fn key_step_resizes_and_waits() {
    let mut v = Viewport::new();
    assert_eq!(v.step(Some(Event::Key(Key::Down)), 100, 200), Action::Wait);
    assert_eq!(v, sized(39, 80));
    assert_eq!(v.step(Some(Event::Key(Key::Right)), 100, 200), Action::Wait);
    assert_eq!(v, sized(39, 81));
}

#[test]
fn other_event_waits() {
    let mut v = Viewport::new();
    assert_eq!(v.step(Some(Event::Other), 100, 200), Action::Wait);
    assert_eq!(v, Viewport::new());
}
