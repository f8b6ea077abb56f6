//! What is typed, and where it goes: over every sequence of events, what the prompt shows and holds
//! is told by the events alone.

use vstd::prelude::*;

use crate::auth;
use crate::auth::{AuthEvent, ConvData, Message, Response};
use crate::laws;
use crate::scene::Phase;
use crate::state;
use crate::state::{Action, Capability, Event, LockState};
use crate::text;

verus! {

/// The user never changes, and what was typed is changed by keys alone.
pub proof fn only_keys_touch_the_password(s: LockState, event: Event)
    ensures
        s.step(event).state.username == s.username,
        event !is Key ==> s.step(event).state.password == s.password,
{
}

/// Whatever happens short of a key, and however often, what was typed stays as it is.
pub proof fn typed_text_waits(s: LockState, events: Seq<Event>)
    requires
        forall|i: int| 0 <= i < events.len() ==> #[trigger] events[i] !is Key,
    ensures
        laws::after(s, events).password == s.password,
    decreases events.len(),
{
    if events.len() > 0 {
        typed_text_waits(s, events.drop_last());
        only_keys_touch_the_password(laws::after(s, events.drop_last()), events.last());
    }
}

/// Whatever happens, the user is still the one the locker began with.
pub proof fn user_stays(s: LockState, events: Seq<Event>)
    ensures
        laws::after(s, events).username == s.username,
    decreases events.len(),
{
    if events.len() > 0 {
        user_stays(s, events.drop_last());
        only_keys_touch_the_password(laws::after(s, events.drop_last()), events.last());
    }
}

/// Every credential check is one of the user the locker began with.
pub proof fn checks_are_of_the_user(
    s: LockState,
    events: Seq<Event>,
    i: int,
    username: Seq<char>,
    password: Seq<char>,
)
    requires
        0 <= i < events.len(),
        laws::asked(s, events, i).contains(Action::Check { username, password }),
    ensures
        username == s.username,
{
    user_stays(s, events.take(i));
    laws::check_takes_the_password(
        laws::after(s, events.take(i)),
        events[i],
        username,
        password,
    );
}

/// Return or Enter at the prompt with something typed always asks for a check of just that, and
/// then the field is empty, the message gone, and the check runs; with nothing typed it asks for
/// the password. Nothing else changes.
pub proof fn return_asks_for_a_check(s: LockState, keysym: u32, text: Option<String>)
    requires
        s.phase == Phase::Prompt,
        keysym == 0xff0d || keysym == 0xff8d,
    ensures
        ({
            let next = s.step(Event::Key { keysym, text });
            &&& s.password.len() > 0 ==> {
                &&& next.actions == seq![
                    Action::Check { username: s.username, password: s.password },
                    Action::DrawAll,
                ]
                &&& next.state == LockState {
                    password: Seq::empty(),
                    phase: Phase::Checking,
                    status: None,
                    ..s
                }
            }
            &&& s.password.len() == 0 ==> {
                &&& next.actions == seq![Action::<Seq<char>>::DrawAll]
                &&& next.state == LockState { status: Some("Enter your password"@), ..s }
            }
        }),
{
}

/// What a key other than Return and Enter leaves of what was typed. Backspace takes the last
/// character away, Escape takes all, and any other key adds what it types, without control
/// characters.
pub open spec fn edited(typed: Seq<char>, keysym: u32, text: Option<String>) -> Seq<char> {
    if keysym == 0xff08 {
        if typed.len() > 0 {
            typed.take(typed.len() - 1)
        } else {
            typed
        }
    } else if keysym == 0xff1b {
        Seq::empty()
    } else if text is Some {
        typed + text::printable(text->0@)
    } else {
        typed
    }
}

/// A key other than Return and Enter at the prompt edits what was typed and clears the message,
/// unless it types nothing. Nothing else changes, and everything is painted again.
pub proof fn keys_edit_the_field(s: LockState, keysym: u32, text: Option<String>)
    requires
        s.phase == Phase::Prompt,
        keysym != 0xff0d && keysym != 0xff8d,
    ensures
        ({
            let next = s.step(Event::Key { keysym, text });
            let types = keysym == 0xff08 || keysym == 0xff1b || text is Some;
            &&& next.actions == seq![Action::<Seq<char>>::DrawAll]
            &&& next.state == LockState {
                password: edited(s.password, keysym, text),
                status: if types {
                    None
                } else {
                    s.status
                },
                ..s
            }
        }),
{
    if s.password.len() > 0 {
        assert(s.password.drop_last() =~= s.password.take(s.password.len() - 1));
    }
}

/// What the events alone tell of the prompt.
pub struct Prompt {
    /// How far the attempt has come.
    pub phase: Phase,
    /// What was typed since the last check was asked for.
    pub typed: Seq<char>,
    /// The last message, unless a key has cleared it.
    pub message: Option<Seq<char>>,
    /// Whether Caps Lock was on when it was last told.
    pub caps_lock: bool,
    /// Whether there is a keyboard.
    pub keyboard: bool,
}

/// What a key makes of the prompt while it is open.
pub open spec fn keyed(p: Prompt, keysym: u32, text: Option<String>) -> Prompt {
    if keysym == 0xff0d || keysym == 0xff8d {
        if p.typed.len() == 0 {
            Prompt { message: Some("Enter your password"@), ..p }
        } else {
            Prompt { phase: Phase::Checking, typed: Seq::empty(), message: None, ..p }
        }
    } else {
        Prompt {
            typed: edited(p.typed, keysym, text),
            message: if keysym == 0xff08 || keysym == 0xff1b || text is Some {
                None
            } else {
                p.message
            },
            ..p
        }
    }
}

/// What an event makes of the prompt: keys count while it is open, an answer that rejects opens it
/// again, one that accepts opens it while the lock is not confirmed, the release closes it, and
/// every message is told. Nothing else touches it.
pub open spec fn touched(p: Prompt, event: Event, confirmed: bool, releases: bool) -> Prompt {
    match event {
        Event::Key { keysym, text } => if p.phase == Phase::Prompt {
            keyed(p, keysym, text)
        } else {
            p
        },
        Event::Auth { event: AuthEvent::Failure { msg } } => Prompt {
            phase: Phase::Prompt,
            message: Some(msg@),
            ..p
        },
        Event::Auth { event: AuthEvent::Info { msg } } => Prompt { message: Some(msg@), ..p },
        Event::Modifiers { caps_lock } => Prompt { caps_lock, ..p },
        Event::KeyboardBound => Prompt { keyboard: true, ..p },
        Event::CapabilityRemoved { capability: Capability::Keyboard } => Prompt {
            keyboard: false,
            ..p
        },
        Event::Auth { event: AuthEvent::Success } => if releases {
            Prompt { phase: Phase::Unlocking, ..p }
        } else if !confirmed {
            Prompt { phase: Phase::Prompt, message: Some("Locking, one moment…"@), ..p }
        } else {
            p
        },
        Event::Locked => if releases {
            Prompt { phase: Phase::Unlocking, ..p }
        } else {
            p
        },
        _ => p,
    }
}

/// The prompt after the given events.
pub open spec fn prompt_after(events: Seq<Event>) -> Prompt
    decreases events.len(),
{
    if events.len() == 0 {
        Prompt {
            phase: Phase::Prompt,
            typed: Seq::empty(),
            message: None,
            caps_lock: false,
            keyboard: false,
        }
    } else {
        let before = events.drop_last();
        touched(
            prompt_after(before),
            events.last(),
            laws::confirmed(before),
            laws::released(events) && !laws::released(before),
        )
    }
}

/// What a locker holds and shows at the prompt.
pub open spec fn prompt_of(s: LockState) -> Prompt {
    Prompt {
        phase: s.phase,
        typed: s.password,
        message: s.status,
        caps_lock: s.caps_lock,
        keyboard: s.keyboard,
    }
}

/// Every event makes of the prompt what [`touched`] says.
pub proof fn events_touch_the_prompt(s: LockState, event: Event)
    requires
        s.inv(),
    ensures
        prompt_of(s.step(event).state) == touched(
            prompt_of(s),
            event,
            s.locked,
            s.step(event).state.unlocked && !s.unlocked,
        ),
{
    if let Event::Key { keysym, text } = event {
        if s.phase == Phase::Prompt {
            if keysym == 0xff0d || keysym == 0xff8d {
                return_asks_for_a_check(s, keysym, text);
            } else {
                keys_edit_the_field(s, keysym, text);
            }
        }
    }
}

/// What the locker holds and shows at the prompt is what the events tell, whatever else lies
/// between the keys.
pub proof fn prompt_follows_the_events(username: Seq<char>, events: Seq<Event>)
    ensures
        ({
            let s = laws::after(state::initial(username), events);
            let p = prompt_after(events);
            &&& s.username == username
            &&& s.password == p.typed
            &&& s.phase == p.phase
            &&& s.status == p.message
            &&& s.caps_lock == p.caps_lock
            &&& s.keyboard == p.keyboard
        }),
{
    prompt_is_told(username, events);
    user_stays(state::initial(username), events);
}

/// The same in one value.
proof fn prompt_is_told(username: Seq<char>, events: Seq<Event>)
    ensures
        prompt_of(laws::after(state::initial(username), events)) == prompt_after(events),
    decreases events.len(),
{
    if events.len() > 0 {
        let before = events.drop_last();
        prompt_is_told(username, before);
        laws::flags_tell_the_past(username, before);
        laws::unlock_is_exact(username, before);
        laws::unlock_is_exact(username, events);
        assert(laws::after(state::initial(username), events) == laws::after(
            state::initial(username),
            before,
        ).step(events.last()).state);
        events_touch_the_prompt(laws::after(state::initial(username), before), events.last());
    }
}

/// Return at an open prompt asks for a check of the user, and of what was typed since the last
/// check, every character of it, whatever else happened in between.
pub proof fn what_was_typed_is_checked(
    username: Seq<char>,
    events: Seq<Event>,
    keysym: u32,
    text: Option<String>,
)
    requires
        prompt_after(events).phase == Phase::Prompt,
        prompt_after(events).typed.len() > 0,
        keysym == 0xff0d || keysym == 0xff8d,
    ensures
        laws::asked(
            state::initial(username),
            events.push(Event::Key { keysym, text }),
            events.len() as int,
        ) == seq![
            Action::Check { username, password: prompt_after(events).typed },
            Action::DrawAll,
        ],
{
    prompt_follows_the_events(username, events);
    let s = laws::after(state::initial(username), events);
    assert(events.push(Event::Key { keysym, text }).take(events.len() as int) =~= events);
    return_asks_for_a_check(s, keysym, text);
}

/// Whatever check is asked for, in whatever course of events, is one of what was typed since the
/// last check.
pub proof fn only_what_was_typed_is_checked(
    username: Seq<char>,
    events: Seq<Event>,
    i: int,
    name: Seq<char>,
    password: Seq<char>,
)
    requires
        0 <= i < events.len(),
        laws::asked(state::initial(username), events, i).contains(
            Action::Check { username: name, password },
        ),
    ensures
        name == username,
        password == prompt_after(events.take(i)).typed,
        password.len() > 0,
        prompt_after(events.take(i)).phase == Phase::Prompt,
        events[i] matches Event::Key { keysym, text } && (keysym == 0xff0d || keysym == 0xff8d),
{
    prompt_follows_the_events(username, events.take(i));
    laws::check_takes_the_password(
        laws::after(state::initial(username), events.take(i)),
        events[i],
        name,
        password,
    );
}

/// What was typed reaches the PAM stack: a conversation held with the name and the password of a
/// check answers every prompt that does not echo with exactly what was typed since the last check,
/// and every prompt that echoes with exactly the user's name.
pub proof fn typed_text_answers_the_prompt(
    username: Seq<char>,
    events: Seq<Event>,
    i: int,
    name: Seq<char>,
    password: Seq<char>,
    data: ConvData,
    messages: Seq<Message>,
    responses: Seq<Response>,
    k: int,
)
    requires
        0 <= i < events.len(),
        laws::asked(state::initial(username), events, i).contains(
            Action::Check { username: name, password },
        ),
        data.username@ == name,
        data.password@ == password,
        auth::conversed(data, messages, responses),
        0 <= k < messages.len(),
    ensures
        messages[k].style == 1 ==> responses[k].reply is Some && responses[k].reply->0@
            == prompt_after(events.take(i)).typed,
        messages[k].style == 2 && !username.contains('\0') ==> responses[k].reply is Some
            && responses[k].reply->0@ == username,
{
    only_what_was_typed_is_checked(username, events, i, name, password);
    prompt_follows_the_events(username, events.take(i));
    laws::flags_tell_the_past(username, events.take(i));
    let s = laws::after(state::initial(username), events.take(i));
    assert(!password.contains('\0')) by {
        if s.password.contains('\0') {
            let n = s.password.index_of('\0');
            assert(!text::control(s.password[n]));
        }
    }
    if messages[k].style == 1 {
        auth::silent_prompt_gets_the_password(data, messages, responses, k);
    } else if messages[k].style == 2 {
        auth::echoing_prompt_gets_the_name(data, messages, responses, k);
    }
}

/// Away from the prompt no key changes anything or asks for anything.
pub proof fn keys_are_dead_away_from_the_prompt(s: LockState, keysym: u32, text: Option<String>)
    requires
        s.phase != Phase::Prompt,
    ensures
        s.step(Event::Key { keysym, text }).state == s,
        s.step(Event::Key { keysym, text }).actions.len() == 0,
{
}

/// Backspace takes back the character typed last, whatever was typed before.
pub proof fn backspace_takes_back(
    s: LockState,
    keysym: u32,
    text: String,
    c: char,
    other: Option<String>,
)
    requires
        s.phase == Phase::Prompt,
        keysym != 0xff0d && keysym != 0xff8d && keysym != 0xff08 && keysym != 0xff1b,
        text@ == seq![c],
        !((c as int) < 0x20 || 0x7f <= c as int <= 0x9f),
    ensures
        ({
            let typed = s.step(Event::Key { keysym, text: Some(text) }).state;
            &&& typed.password == s.password.push(c)
            &&& typed.step(Event::Key { keysym: 0xff08, text: other }).state.password == s.password
        }),
{
    text::printable_keeps_or_drops(c);
    let typed = s.step(Event::Key { keysym, text: Some(text) }).state;
    assert(typed.password =~= s.password.push(c));
    assert(s.password.push(c).drop_last() =~= s.password);
}

} // verus!
