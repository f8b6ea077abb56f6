use cce_lock::auth::{check, AuthEvent, Transaction};
use cce_lock::locker::{startup, AppState, Leave, Startup};
use cce_lock::pam::PamReturnCode;
use cce_lock::scene::{Color, Paint};
use cce_lock::state::{
    Action, Capability, Event, KEY_BACKSPACE, KEY_ESCAPE, KEY_KP_ENTER, KEY_RETURN,
};

fn locker() -> AppState {
    let found = vec![true, false];
    match startup(Some("ada".to_string()), &found, Some(PamReturnCode::SUCCESS)) {
        Startup::Lock { state } => state,
        _ => panic!("refused"),
    }
}

fn describe(action: &Action<String>) -> String {
    match action {
        Action::CreateSurface { id } => format!("create {}", id),
        Action::DestroySurface { id } => format!("destroy {}", id),
        Action::AckConfigure { id, serial } => format!("ack {} {}", id, serial),
        Action::SetBufferScale { id, scale } => format!("scale {} {}", id, scale),
        Action::StartRenderer { id, width, height } => format!("start {} {}x{}", id, width, height),
        Action::ResizeRenderer { id, width, height } => {
            format!("resize {} {}x{}", id, width, height)
        }
        Action::BindKeyboard => "bind".to_string(),
        Action::ReleaseKeyboard => "release".to_string(),
        Action::Check { username, password } => format!("check {} {}", username, password),
        Action::UnlockAndDestroy => "unlock".to_string(),
        Action::DestroySurfaces => "destroy all".to_string(),
        Action::Draw { id } => format!("draw {}", id),
        Action::DrawAll => "draw all".to_string(),
    }
}

fn tell(state: &mut AppState, event: Event) -> Vec<String> {
    state.handle(event).iter().map(describe).collect()
}

fn key(state: &mut AppState, keysym: u32) -> Vec<String> {
    tell(state, Event::Key { keysym, text: None })
}

fn typed(state: &mut AppState, text: &str) -> Vec<String> {
    tell(state, Event::Key { keysym: 0x61, text: Some(text.to_string()) })
}

fn accept(state: &mut AppState) -> Vec<String> {
    tell(state, Event::Auth { event: AuthEvent::Success })
}

fn reject(state: &mut AppState, msg: &str) -> Vec<String> {
    tell(state, Event::Auth { event: AuthEvent::Failure { msg: msg.to_string() } })
}

fn inform(state: &mut AppState, msg: &str) -> Vec<String> {
    tell(state, Event::Auth { event: AuthEvent::Info { msg: msg.to_string() } })
}

fn status(state: &AppState) -> Option<(String, Color)> {
    let scene = state.build_scene(1920, 1080);
    assert_eq!(scene.labels[0].text, "ada");
    match scene.labels.len() {
        1 => None,
        2 => Some((scene.labels[1].text.clone(), scene.labels[1].color)),
        n => panic!("{} labels", n),
    }
}

fn dots(state: &AppState) -> usize {
    let scene = state.build_scene(1920, 1080);
    scene.paints.iter().filter(|p| matches!(p, Paint::Circle { .. })).count()
}

fn nothing() -> Vec<String> {
    Vec::new()
}

#[test]
fn startup_refuses_an_unknown_user() {
    let found = vec![true, true];
    for user in [None, Some(String::new())] {
        match startup(user, &found, Some(PamReturnCode::SUCCESS)) {
            Startup::Refuse { msg } => {
                assert_eq!(msg, "cannot determine the current user; refusing to lock")
            }
            _ => panic!("not refused"),
        }
    }
}

#[test]
fn startup_locks_only_after_the_stack_has_started() {
    let user = Some("ada".to_string());
    assert!(matches!(startup(user.clone(), &vec![false, true], None), Startup::TryStart));
    assert!(matches!(
        startup(user.clone(), &vec![false, false], Some(PamReturnCode::SUCCESS)),
        Startup::Refuse { .. }
    ));
    match startup(user.clone(), &vec![false, true], Some(PamReturnCode::OPEN_ERR)) {
        Startup::Refuse { msg } => assert!(msg.contains("unavailable (OPEN_ERR)")),
        _ => panic!("not refused"),
    }
    assert!(matches!(
        startup(user, &vec![false, true], Some(PamReturnCode::SUCCESS)),
        Startup::Lock { .. }
    ));
}

#[test]
fn accepted_credentials_release_a_confirmed_lock() {
    let mut s = locker();
    assert_eq!(tell(&mut s, Event::OutputAdded { id: 7 }), vec!["create 7"]);
    assert_eq!(tell(&mut s, Event::Locked), nothing());
    typed(&mut s, "pw");
    assert_eq!(key(&mut s, KEY_RETURN), vec!["check ada pw", "draw all"]);
    assert!(!s.exiting());
    assert_eq!(accept(&mut s), vec!["unlock", "destroy all"]);
    assert!(s.exiting());
    assert_eq!(status(&s), Some(("Unlocking…".to_string(), Color::Releasing)));
    assert_eq!(s.leave(), Leave { roundtrip: true, status: 0 });
    assert!(s.draw_all().is_empty());
    assert_eq!(tell(&mut s, Event::Idle), nothing());
}

#[test]
fn the_request_is_sent_once() {
    let mut s = locker();
    tell(&mut s, Event::Locked);
    assert_eq!(accept(&mut s), vec!["unlock", "destroy all"]);
    assert_eq!(accept(&mut s), nothing());
    assert_eq!(tell(&mut s, Event::Locked), nothing());
    assert_eq!(tell(&mut s, Event::OutputAdded { id: 1 }), nothing());
}

#[test]
fn acceptance_before_the_confirmation_waits_for_it() {
    let mut s = locker();
    typed(&mut s, "pw");
    key(&mut s, KEY_RETURN);
    assert!(!s.awaiting_lock());
    assert_eq!(accept(&mut s), nothing());
    assert!(s.awaiting_lock());
    assert!(!s.exiting());
    assert_eq!(status(&s), Some(("Locking, one moment…".to_string(), Color::Notice)));
    assert_eq!(tell(&mut s, Event::Locked), vec!["unlock", "destroy all"]);
    assert!(!s.awaiting_lock());
    assert!(s.exiting());
}

#[test]
fn a_lock_that_was_ended_is_not_released() {
    let mut s = locker();
    tell(&mut s, Event::Locked);
    assert_eq!(tell(&mut s, Event::Finished), nothing());
    assert!(s.exiting());
    assert_eq!(accept(&mut s), nothing());
    assert_eq!(s.leave(), Leave { roundtrip: false, status: 1 });

    let mut s = locker();
    accept(&mut s);
    tell(&mut s, Event::Finished);
    assert_eq!(tell(&mut s, Event::Locked), nothing());
    assert_eq!(s.leave(), Leave { roundtrip: false, status: 1 });
}

#[test]
fn acceptance_after_the_end_sends_nothing() {
    let mut s = locker();
    typed(&mut s, "pw");
    key(&mut s, KEY_RETURN);
    tell(&mut s, Event::Finished);
    assert_eq!(accept(&mut s), nothing());
    assert!(s.awaiting_lock());
    assert_eq!(status(&s), Some(("Locking, one moment…".to_string(), Color::Notice)));
    assert_eq!(tell(&mut s, Event::Locked), nothing());
    assert_eq!(s.leave(), Leave { roundtrip: false, status: 1 });
}

#[test]
fn only_a_check_that_succeeds_throughout_unlocks() {
    let codes = [PamReturnCode::SUCCESS, PamReturnCode::AUTH_ERR, PamReturnCode::ABORT];
    for start in codes {
        for authenticate in codes {
            for acct_mgmt in codes {
                let mut tx = Transaction::Starting;
                for rc in [start, authenticate, acct_mgmt] {
                    tx = check(tx, rc);
                }
                let Transaction::Done { verdict, .. } = tx else { panic!("undecided") };
                let mut s = locker();
                tell(&mut s, Event::Locked);
                let asked = tell(&mut s, Event::Auth { event: verdict.event() });
                let all = [start, authenticate, acct_mgmt] == [PamReturnCode::SUCCESS; 3];
                assert_eq!(asked.contains(&"unlock".to_string()), all);
            }
        }
    }
}

#[test]
fn rejected_credentials_reopen_the_prompt() {
    let mut s = locker();
    tell(&mut s, Event::Locked);
    typed(&mut s, "nope");
    key(&mut s, KEY_RETURN);
    assert_eq!(status(&s), Some(("Checking…".to_string(), Color::Busy)));
    assert_eq!(reject(&mut s, "Incorrect password"), nothing());
    assert_eq!(status(&s), Some(("Incorrect password".to_string(), Color::Notice)));
    assert_eq!(dots(&s), 0);
    assert!(!s.exiting());
    typed(&mut s, "again");
    assert_eq!(key(&mut s, KEY_KP_ENTER), vec!["check ada again", "draw all"]);
}

#[test]
fn keys_are_ignored_while_a_check_runs() {
    let mut s = locker();
    typed(&mut s, "pw");
    key(&mut s, KEY_RETURN);
    for _ in 0..100 {
        assert_eq!(key(&mut s, KEY_RETURN), nothing());
    }
    assert_eq!(typed(&mut s, "x"), nothing());
    assert_eq!(key(&mut s, KEY_ESCAPE), nothing());
    assert_eq!(dots(&s), 0);
}

#[test]
fn information_does_not_end_a_check() {
    let mut s = locker();
    typed(&mut s, "pw");
    key(&mut s, KEY_RETURN);
    assert_eq!(status(&s), Some(("Checking…".to_string(), Color::Busy)));
    assert_eq!(inform(&mut s, "locked for 2 minutes"), nothing());
    assert_eq!(status(&s), Some(("locked for 2 minutes".to_string(), Color::Busy)));
    assert_eq!(typed(&mut s, "x"), nothing());
    inform(&mut s, "");
    assert_eq!(status(&s), Some(("Checking…".to_string(), Color::Busy)));
    reject(&mut s, "no");
    inform(&mut s, "password expires soon");
    assert_eq!(status(&s), Some(("password expires soon".to_string(), Color::Notice)));
}

#[test]
fn what_the_stack_says_is_shown_while_a_check_runs() {
    let mut s = locker();
    typed(&mut s, "pw");
    key(&mut s, KEY_RETURN);
    for msg in ["wait 2 seconds", "wait 1 second"] {
        assert_eq!(inform(&mut s, msg), nothing());
        assert_eq!(status(&s), Some((msg.to_string(), Color::Busy)));
        assert_eq!(tell(&mut s, Event::Idle), vec!["draw all"]);
    }
    reject(&mut s, "Incorrect password");
    assert_eq!(status(&s), Some(("Incorrect password".to_string(), Color::Notice)));
    typed(&mut s, "pw");
    key(&mut s, KEY_RETURN);
    assert_eq!(status(&s), Some(("Checking…".to_string(), Color::Busy)));
}

#[test]
fn an_empty_password_is_not_checked() {
    let mut s = locker();
    assert_eq!(key(&mut s, KEY_RETURN), vec!["draw all"]);
    assert_eq!(status(&s), Some(("Enter your password".to_string(), Color::Notice)));
}

#[test]
fn backspace_and_escape_edit_the_field() {
    let mut s = locker();
    key(&mut s, KEY_RETURN);
    assert_eq!(key(&mut s, KEY_BACKSPACE), vec!["draw all"]);
    assert_eq!(status(&s), None);
    typed(&mut s, "aé…");
    assert_eq!(dots(&s), 3);
    key(&mut s, KEY_BACKSPACE);
    assert_eq!(dots(&s), 2);
    typed(&mut s, "z");
    key(&mut s, KEY_RETURN);
    reject(&mut s, "no");
    typed(&mut s, "abc");
    assert_eq!(key(&mut s, KEY_ESCAPE), vec!["draw all"]);
    assert_eq!(dots(&s), 0);
    assert!(!s.exiting());
}

#[test]
fn backspace_removes_the_last_character_typed() {
    let mut s = locker();
    typed(&mut s, "abc");
    key(&mut s, KEY_BACKSPACE);
    assert_eq!(key(&mut s, KEY_RETURN), vec!["check ada ab", "draw all"]);
}

#[test]
fn control_characters_are_not_typed() {
    let mut s = locker();
    typed(&mut s, "\u{8}\t\0p\u{1b}w\r\n");
    assert_eq!(key(&mut s, KEY_RETURN), vec!["check ada pw", "draw all"]);
}

#[test]
fn a_key_without_text_keeps_the_status() {
    let mut s = locker();
    key(&mut s, KEY_RETURN);
    assert_eq!(key(&mut s, 0xffe1), vec!["draw all"]);
    assert_eq!(status(&s), Some(("Enter your password".to_string(), Color::Notice)));
    assert_eq!(typed(&mut s, ""), vec!["draw all"]);
    assert_eq!(status(&s), None);
}

#[test]
fn no_key_dismisses_the_lock() {
    let mut s = locker();
    tell(&mut s, Event::Locked);
    for keysym in 0xff00..0x10000u32 {
        for action in key(&mut s, keysym) {
            assert_ne!(action, "unlock");
        }
        assert!(!s.exiting());
    }
}

#[test]
fn caps_lock_is_shown_at_an_idle_prompt() {
    let mut s = locker();
    assert_eq!(status(&s), None);
    assert_eq!(tell(&mut s, Event::Modifiers { caps_lock: true }), vec!["draw all"]);
    assert_eq!(tell(&mut s, Event::Modifiers { caps_lock: true }), nothing());
    assert_eq!(status(&s), Some(("Caps Lock is on".to_string(), Color::Caps)));
    key(&mut s, KEY_RETURN);
    assert_eq!(status(&s), Some(("Enter your password".to_string(), Color::Notice)));
    assert_eq!(tell(&mut s, Event::Modifiers { caps_lock: false }), vec!["draw all"]);
    key(&mut s, KEY_ESCAPE);
    assert_eq!(status(&s), None);
}

#[test]
fn dots_stop_at_a_limit() {
    let mut s = locker();
    for n in 1..=40usize {
        typed(&mut s, "x");
        assert_eq!(dots(&s), n.min(32));
    }
}

#[test]
fn surfaces_follow_their_outputs() {
    let mut s = locker();
    assert_eq!(tell(&mut s, Event::OutputAdded { id: 3 }), vec!["create 3"]);
    assert_eq!(tell(&mut s, Event::OutputAdded { id: 3 }), nothing());
    assert_eq!(tell(&mut s, Event::OutputAdded { id: 5 }), vec!["create 5"]);
    let mut ids = s.draw_all();
    ids.sort();
    assert_eq!(ids, vec![3, 5]);
    assert_eq!(tell(&mut s, Event::OutputRemoved { id: 3 }), vec!["destroy 3"]);
    assert_eq!(tell(&mut s, Event::OutputRemoved { id: 3 }), nothing());
    assert_eq!(s.draw_all(), vec![5]);
}

#[test]
fn a_surface_is_painted_after_its_first_configure() {
    let mut s = locker();
    tell(&mut s, Event::OutputAdded { id: 3 });
    assert!(s.draw(3).is_none());
    assert_eq!(
        tell(&mut s, Event::ScaleChanged { id: 3, factor: 2 }),
        vec!["scale 3 2", "draw 3"]
    );
    assert_eq!(
        tell(&mut s, Event::Configure { id: 3, serial: 11, width: 800, height: 600 }),
        vec!["ack 3 11", "scale 3 2", "start 3 1600x1200", "draw 3"]
    );
    assert!(s.draw(3).is_some());
    assert_eq!(
        tell(&mut s, Event::Configure { id: 3, serial: 12, width: 1024, height: 768 }),
        vec!["ack 3 12", "resize 3 2048x1536", "draw 3"]
    );
    assert_eq!(
        tell(&mut s, Event::ScaleChanged { id: 3, factor: 1 }),
        vec!["scale 3 1", "resize 3 1024x768", "draw 3"]
    );
    assert_eq!(
        tell(&mut s, Event::Configure { id: 3, serial: 13, width: 0, height: 768 }),
        vec!["ack 3 13", "resize 3 0x768", "draw 3"]
    );
    assert!(s.draw(3).is_none());
    assert!(s.draw(4).is_none());
    assert_eq!(
        tell(&mut s, Event::Configure { id: 4, serial: 1, width: 1, height: 1 }),
        nothing()
    );
    assert_eq!(tell(&mut s, Event::ScaleChanged { id: 4, factor: 2 }), nothing());
}

#[test]
fn one_keyboard_is_held() {
    let mut s = locker();
    let keyboard = Capability::Keyboard;
    assert_eq!(
        tell(&mut s, Event::CapabilityAdded { capability: Capability::Pointer }),
        nothing()
    );
    assert_eq!(tell(&mut s, Event::CapabilityRemoved { capability: keyboard }), nothing());
    assert_eq!(tell(&mut s, Event::CapabilityAdded { capability: keyboard }), vec!["bind"]);
    assert_eq!(tell(&mut s, Event::CapabilityAdded { capability: keyboard }), vec!["bind"]);
    assert_eq!(tell(&mut s, Event::KeyboardBound), nothing());
    assert_eq!(tell(&mut s, Event::CapabilityAdded { capability: keyboard }), nothing());
    assert_eq!(
        tell(&mut s, Event::CapabilityRemoved { capability: Capability::Touch }),
        nothing()
    );
    assert_eq!(tell(&mut s, Event::CapabilityRemoved { capability: keyboard }), vec!["release"]);
    assert_eq!(tell(&mut s, Event::CapabilityRemoved { capability: keyboard }), nothing());
}

#[test]
fn an_idle_locker_paints() {
    let mut s = locker();
    assert_eq!(tell(&mut s, Event::Idle), vec!["draw all"]);
    typed(&mut s, "pw");
    key(&mut s, KEY_RETURN);
    assert_eq!(tell(&mut s, Event::Idle), vec!["draw all"]);
}

#[test]
fn a_frame_has_its_texts_on_physical_pixels() {
    let mut s = locker();
    tell(&mut s, Event::OutputAdded { id: 1 });
    tell(&mut s, Event::ScaleChanged { id: 1, factor: 3 });
    tell(&mut s, Event::Configure { id: 1, serial: 1, width: 801, height: 601 });
    key(&mut s, KEY_RETURN);
    let frame = s.draw(1).unwrap();
    assert_eq!((frame.width, frame.height, frame.scale), (801, 601, 3));
    assert_eq!(frame.spans.len(), 2);
    // The card starts at (220.5, 215.5).
    assert_eq!(frame.spans[0].text, "ada");
    assert_eq!((frame.spans[0].left, frame.spans[0].top), (734, 713));
    assert_eq!(frame.spans[0].size, 15);
    assert_eq!(frame.spans[1].text, "Enter your password");
    assert_eq!((frame.spans[1].left, frame.spans[1].top), (734, 983));
    assert_eq!(frame.spans[1].size, 12);
}
