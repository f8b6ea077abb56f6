use cce_lock::auth::AuthEvent;
use cce_lock::locker::{startup, AppState, Startup};
use cce_lock::pam::PamReturnCode;
use cce_lock::scene::{Channels, Color, Paint, Rect, Scene};
use cce_lock::state::Event;

fn locker(password: &str) -> AppState {
    let found = vec![true];
    match startup(Some("ada".to_string()), &found, Some(PamReturnCode::SUCCESS)) {
        Startup::Lock { mut state } => {
            state.handle(Event::Key { keysym: 0x61, text: Some(password.to_string()) });
            state
        }
        _ => panic!("refused"),
    }
}

fn half(n: i64) -> f32 {
    n as f32 / 2.0
}

/// The layout in floating point.
fn check_layout(scene: &Scene, width: u32, height: u32, dots: usize) {
    let (w, h) = (width as f32, height as f32);
    let card_w = 360.0f32.min(w - 40.0);
    let card_h = 170.0f32;
    let (card_x, card_y) = ((w - card_w) / 2.0, (h - card_h) / 2.0);
    let (well_x, well_y, well_w, well_h) = (card_x + 24.0, card_y + 58.0, card_w - 48.0, 38.0f32);

    let close = |rect: &Rect, want: [f32; 4]| {
        assert_eq!([half(rect.x), half(rect.y), half(rect.width), half(rect.height)], want);
    };
    assert_eq!(scene.paints.len(), 4 + dots);
    match &scene.paints[0] {
        Paint::Quad { rect, color } => {
            close(rect, [0.0, 0.0, w, h]);
            assert_eq!(*color, Color::Ground);
        }
        _ => panic!("no ground"),
    }
    match &scene.paints[1] {
        Paint::Plate { rect, color } => {
            close(rect, [card_x, card_y, card_w, card_h]);
            assert_eq!(*color, Color::Card);
        }
        _ => panic!("no card"),
    }
    match &scene.paints[2] {
        Paint::Quad { rect, color } => {
            close(rect, [well_x, well_y, well_w, well_h]);
            assert_eq!(*color, Color::Well);
        }
        _ => panic!("no well"),
    }
    match &scene.paints[3] {
        Paint::Recess { rect } => close(rect, [well_x, well_y, well_w, well_h]),
        _ => panic!("no recess"),
    }
    for i in 0..dots {
        match &scene.paints[4 + i] {
            Paint::Circle { x, y, radius, color } => {
                assert_eq!(half(*x), well_x + 14.0 + 3.5 + i as f32 * 11.0);
                assert_eq!(half(*y), well_y + well_h / 2.0);
                assert_eq!(half(*radius), 3.5);
                assert_eq!(*color, Color::Dot);
            }
            _ => panic!("no dot"),
        }
    }
    assert_eq!(half(scene.labels[0].x), card_x + 24.0);
    assert_eq!(half(scene.labels[0].y), card_y + 22.0);
    if scene.labels.len() > 1 {
        assert_eq!(half(scene.labels[1].x), card_x + 24.0);
        assert_eq!(half(scene.labels[1].y), card_y + 112.0);
    }
}

#[test]
fn the_layout_is_exact() {
    let s = locker("abc");
    let scene = s.build_scene(1920, 1080);
    assert_eq!(
        scene.paints[1],
        Paint::Plate {
            rect: Rect { x: 1560, y: 910, width: 720, height: 340 },
            color: Color::Card,
        }
    );
    assert_eq!(
        scene.paints[5],
        Paint::Circle { x: 1665, y: 1064, radius: 7, color: Color::Dot }
    );
    assert_eq!((scene.labels[0].x, scene.labels[0].y), (1608, 954));
}

#[test]
fn the_layout_is_that_of_single_precision() {
    let mut s = locker("0123456789abcdef0123456789abcdefXYZ");
    s.handle(Event::Auth { event: AuthEvent::Info { msg: "wait".to_string() } });
    let sizes = [
        0u32, 1, 39, 40, 41, 169, 170, 171, 399, 400, 401, 1366, 1920, 4095, 8388607, 8388609,
        16777215, 16777217, 16777255, 33554431, 33554435, 123456789, 2147483647, 4294967295,
    ];
    for &width in &sizes {
        for &height in &sizes {
            check_layout(&s.build_scene(width, height), width, height, 32);
        }
    }
}

#[test]
fn texts_are_placed_as_in_single_precision() {
    let sizes = [1u32, 41, 170, 401, 1367, 1080, 8388609, 16777217, 123456789, 4294967295];
    let scales = [-3i32, -1, 0, 1, 2, 3, 7, 16777217, 2147483647];
    for &width in &sizes {
        for &height in &sizes {
            for &scale in &scales {
                let mut s = locker("");
                s.handle(Event::OutputAdded { id: 1 });
                s.handle(Event::ScaleChanged { id: 1, factor: scale });
                s.handle(Event::Configure { id: 1, serial: 1, width, height });
                let scene = s.build_scene(width, height);
                let frame = s.draw(1).unwrap();
                for (span, label) in frame.spans.iter().zip(scene.labels.iter()) {
                    assert_eq!(span.left as f32, (half(label.x) * scale as f32).round());
                    assert_eq!(span.top as f32, (half(label.y) * scale as f32).round());
                }
            }
        }
    }
}

#[test]
fn colours_are_exact() {
    let thousandths = |c: Channels| {
        [
            c.red as f32 / 1000.0,
            c.green as f32 / 1000.0,
            c.blue as f32 / 1000.0,
            c.alpha as f32 / 1000.0,
        ]
    };
    let table = [
        (Color::Ground, [0.004f32, 0.004, 0.006, 1.0]),
        (Color::Card, [0.013, 0.013, 0.017, 1.0]),
        (Color::Well, [0.005, 0.005, 0.007, 1.0]),
        (Color::Dot, [0.80, 0.80, 0.88, 1.0]),
        (Color::Name, [1.0, 1.0, 1.0, 1.0]),
        (Color::Busy, [0.72, 0.72, 0.80, 1.0]),
        (Color::Releasing, [0.72, 0.85, 0.72, 1.0]),
        (Color::Notice, [0.95, 0.55, 0.55, 1.0]),
        (Color::Caps, [0.95, 0.80, 0.50, 1.0]),
    ];
    for (color, want) in table {
        assert_eq!(thousandths(color.channels()), want);
    }
}

#[test]
fn the_card_has_equal_margins() {
    for (width, height) in [(1920u32, 1080u32), (300, 200), (41, 171), (30, 10)] {
        let scene = locker("").build_scene(width, height);
        match (&scene.paints[0], &scene.paints[1]) {
            (Paint::Quad { rect: s, .. }, Paint::Plate { rect: c, .. }) => {
                assert_eq!(c.x, s.width - (c.x + c.width));
                assert_eq!(c.y, s.height - (c.y + c.height));
            }
            _ => panic!("no card on a ground"),
        }
    }
}

#[test]
fn the_screen_shows_dots_and_no_characters() {
    let one = locker("secret").build_scene(800, 600);
    let other = locker("public").build_scene(800, 600);
    assert_eq!(one.paints, other.paints);
    assert_eq!(one.labels.len(), 1);
    assert_eq!(one.labels[0].text, "ada");
    let long = locker("0123456789abcdef0123456789abcdef").build_scene(800, 600);
    let longer = locker("0123456789abcdef0123456789abcdefgh").build_scene(800, 600);
    assert_eq!(long.paints, longer.paints);
}
