//! What the locker promises as a whole, over every sequence of events.

use vstd::prelude::*;

use crate::auth;
use crate::auth::{AuthEvent, Transaction};
use crate::pam::PamReturnCode;
use crate::scene;
use crate::scene::Phase;
use crate::state;
use crate::state::{Action, Event, LockState};
use crate::text;

verus! {

/// The state after the given events, in order.
pub open spec fn after(s: LockState, events: Seq<Event>) -> LockState
    decreases events.len(),
{
    if events.len() == 0 {
        s
    } else {
        after(s, events.drop_last()).step(events.last()).state
    }
}

/// What event number `i` of the given events asks to be done.
pub open spec fn asked(s: LockState, events: Seq<Event>, i: int) -> Seq<Action<Seq<char>>> {
    after(s, events.take(i)).step(events[i]).actions
}

/// Credentials are accepted.
pub open spec fn accepts(event: Event) -> bool {
    event matches Event::Auth { event: AuthEvent::Success }
}

/// A credential check gives its answer.
pub open spec fn answers(event: Event) -> bool {
    event matches Event::Auth { event } && event !is Info
}

/// Whether an event of a kind came in the course of the events.
pub open spec fn happened(events: Seq<Event>, kind: spec_fn(Event) -> bool) -> bool {
    exists|i: int| 0 <= i < events.len() && kind(#[trigger] events[i])
}

/// The events by which credentials are accepted.
pub open spec fn acceptance() -> spec_fn(Event) -> bool {
    |event: Event| accepts(event)
}

/// The events by which the compositor confirms the lock.
pub open spec fn confirmation() -> spec_fn(Event) -> bool {
    |event: Event| event is Locked
}

/// The events by which the compositor ends the lock.
pub open spec fn ending() -> spec_fn(Event) -> bool {
    |event: Event| event is Finished
}

/// Whether credentials were accepted in the course of the events.
pub open spec fn accepted(events: Seq<Event>) -> bool {
    happened(events, acceptance())
}

/// Whether the compositor has confirmed the lock in the course of the events.
pub open spec fn confirmed(events: Seq<Event>) -> bool {
    happened(events, confirmation())
}

/// Whether the compositor has ended the lock in the course of the events.
pub open spec fn ended(events: Seq<Event>) -> bool {
    happened(events, ending())
}

/// What happened in the course of the events happened before the last one or in it.
proof fn last_or_before(events: Seq<Event>, kind: spec_fn(Event) -> bool)
    requires
        events.len() > 0,
    ensures
        happened(events, kind) <==> happened(events.drop_last(), kind) || kind(events.last()),
{
    let before = events.drop_last();
    if happened(before, kind) {
        let i = choose|i: int| 0 <= i < before.len() && kind(#[trigger] before[i]);
        assert(kind(events[i]));
    }
    if happened(events, kind) {
        let i = choose|i: int| 0 <= i < events.len() && kind(#[trigger] events[i]);
        if i < before.len() {
            assert(kind(before[i]));
        }
    }
    assert(events.last() == events[events.len() - 1]);
}

/// The same of each kind that the flags of the locker tell of.
proof fn flags_last_or_before(events: Seq<Event>)
    requires
        events.len() > 0,
    ensures
        accepted(events) <==> accepted(events.drop_last()) || accepts(events.last()),
        confirmed(events) <==> confirmed(events.drop_last()) || events.last() is Locked,
        ended(events) <==> ended(events.drop_last()) || events.last() is Finished,
{
    last_or_before(events, acceptance());
    last_or_before(events, confirmation());
    last_or_before(events, ending());
}

/// Every event keeps the invariant.
pub proof fn inv_is_kept(s: LockState, event: Event)
    ensures
        s.inv() ==> s.step(event).state.inv(),
{
}

/// What the flags of the locker say of the events so far.
pub proof fn flags_tell_the_past(username: Seq<char>, events: Seq<Event>)
    ensures
        after(state::initial(username), events).inv(),
        after(state::initial(username), events).locked == confirmed(events),
        after(state::initial(username), events).finished == ended(events),
        after(state::initial(username), events).unlock_when_locked == (accepted(events)
            && !confirmed(events)),
        after(state::initial(username), events).unlocked ==> accepted(events) && confirmed(events),
    decreases events.len(),
{
    if events.len() > 0 {
        flags_tell_the_past(username, events.drop_last());
        flags_last_or_before(events);
        inv_is_kept(after(state::initial(username), events.drop_last()), events.last());
    }
}

/// The session is released by the unlock request, and by nothing else: an event asks for it
/// exactly when it turns a locker that has not sent it into one that has.
pub proof fn request_is_what_unlocks(s: LockState, event: Event)
    requires
        s.inv(),
    ensures
        s.step(event).actions.contains(Action::UnlockAndDestroy) <==> (!s.unlocked && s.step(
            event,
        ).state.unlocked),
        s.unlocked ==> s.step(event).state.unlocked,
{
    let actions = s.step(event).actions;
    if !s.unlocked && s.step(event).state.unlocked {
        assert(actions[0] == Action::<Seq<char>>::UnlockAndDestroy);
    }
}

/// The unlock request is sent only after credentials were accepted and the lock was confirmed, and
/// never after the compositor has ended the lock.
pub proof fn unlock_is_earned(username: Seq<char>, events: Seq<Event>, i: int)
    requires
        0 <= i < events.len(),
        asked(state::initial(username), events, i).contains(Action::UnlockAndDestroy),
    ensures
        accepted(events.take(i + 1)),
        confirmed(events.take(i + 1)),
        !ended(events.take(i + 1)),
{
    let s = after(state::initial(username), events.take(i));
    flags_tell_the_past(username, events.take(i));
    flags_tell_the_past(username, events.take(i + 1));
    flags_last_or_before(events.take(i + 1));
    assert(events.take(i + 1).drop_last() =~= events.take(i));
    request_is_what_unlocks(s, events[i]);
}

/// Whether an event tells the outcome of the credential check whose calls returned `codes`.
pub open spec fn comes_from(event: Event, codes: Seq<PamReturnCode>) -> bool {
    &&& event matches Event::Auth { event: told }
    &&& auth::check_run(codes) matches Transaction::Done { verdict, end }
    &&& verdict.told_by(told)
}

/// No path leads to an unlock that did not come from PAM calls that all succeeded: if every
/// acceptance is the outcome of a credential check, then the unlock request is sent only after one
/// whose `pam_start`, `pam_authenticate` and `pam_acct_mgmt` all returned `SUCCESS`.
pub proof fn unlock_is_vouched_for(username: Seq<char>, events: Seq<Event>, i: int)
    requires
        0 <= i < events.len(),
        forall|j: int|
            0 <= j <= i && accepts(#[trigger] events[j]) ==> exists|codes: Seq<PamReturnCode>|
                comes_from(events[j], codes),
        asked(state::initial(username), events, i).contains(Action::UnlockAndDestroy),
    ensures
        exists|j: int, codes: Seq<PamReturnCode>|
            #![trigger comes_from(events[j], codes)]
            {
                &&& 0 <= j <= i
                &&& accepts(events[j])
                &&& comes_from(events[j], codes)
                &&& codes.len() >= 3
                &&& codes[0] == PamReturnCode::SUCCESS
                &&& codes[1] == PamReturnCode::SUCCESS
                &&& codes[2] == PamReturnCode::SUCCESS
            },
{
    unlock_is_earned(username, events, i);
    let past = events.take(i + 1);
    let j = choose|j: int| 0 <= j < past.len() && acceptance()(#[trigger] past[j]);
    assert(past[j] == events[j]);
    let codes = choose|codes: Seq<PamReturnCode>| comes_from(events[j], codes);
    auth::success_needs_every_call(codes);
    assert(comes_from(events[j], codes));
}

/// As long as the compositor does not end the lock, the session is released exactly when
/// credentials have been accepted and the lock has been confirmed, in whichever order.
pub proof fn unlock_is_granted(username: Seq<char>, events: Seq<Event>)
    requires
        !ended(events),
    ensures
        after(state::initial(username), events).unlocked <==> accepted(events) && confirmed(events),
    decreases events.len(),
{
    flags_tell_the_past(username, events);
    if events.len() > 0 {
        flags_last_or_before(events);
        flags_tell_the_past(username, events.drop_last());
        unlock_is_granted(username, events.drop_last());
    }
}

/// Once released, the session stays so.
proof fn unlocked_stays(username: Seq<char>, events: Seq<Event>, i: int)
    requires
        0 <= i <= events.len(),
        after(state::initial(username), events.take(i)).unlocked,
    ensures
        after(state::initial(username), events).unlocked,
    decreases events.len() - i,
{
    if i < events.len() {
        flags_tell_the_past(username, events.take(i));
        request_is_what_unlocks(after(state::initial(username), events.take(i)), events[i]);
        assert(events.take(i + 1).drop_last() =~= events.take(i));
        unlocked_stays(username, events, i + 1);
    } else {
        assert(events.take(i) =~= events);
    }
}

/// Whether, at some point in the course of the events, credentials had been accepted and the lock
/// confirmed while the compositor had not ended it.
pub open spec fn released(events: Seq<Event>) -> bool {
    exists|n: int|
        #![trigger events.take(n)]
        0 <= n <= events.len() && accepted(events.take(n)) && confirmed(events.take(n)) && !ended(
            events.take(n),
        )
}

/// The session is released exactly when, at some point, credentials had been accepted and the lock
/// confirmed, in whichever order, while the compositor had not ended it.
pub proof fn unlock_is_exact(username: Seq<char>, events: Seq<Event>)
    ensures
        after(state::initial(username), events).unlocked <==> released(events),
    decreases events.len(),
{
    if released(events) {
        let n = choose|n: int|
            #![trigger events.take(n)]
            0 <= n <= events.len() && accepted(events.take(n)) && confirmed(events.take(n))
                && !ended(events.take(n));
        unlock_is_granted(username, events.take(n));
        unlocked_stays(username, events, n);
    }
    if after(state::initial(username), events).unlocked && events.len() > 0 {
        let last = events.len() - 1;
        assert(events.take(last) =~= events.drop_last());
        assert(events.take(events.len() as int) =~= events);
        if after(state::initial(username), events.drop_last()).unlocked {
            unlock_is_exact(username, events.drop_last());
            let n = choose|n: int|
                #![trigger events.drop_last().take(n)]
                0 <= n <= last && accepted(events.drop_last().take(n)) && confirmed(
                    events.drop_last().take(n),
                ) && !ended(events.drop_last().take(n));
            assert(events.drop_last().take(n) =~= events.take(n));
        } else {
            flags_tell_the_past(username, events.drop_last());
            request_is_what_unlocks(
                after(state::initial(username), events.drop_last()),
                events.last(),
            );
            unlock_is_earned(username, events, last);
        }
    }
}

/// The locker leaves only once the session is released or the compositor has ended the lock.
pub proof fn there_is_no_other_way_out(username: Seq<char>, events: Seq<Event>)
    ensures
        after(state::initial(username), events).exit <==> released(events) || ended(events),
{
    flags_tell_the_past(username, events);
    unlock_is_exact(username, events);
}

/// The unlock request is sent at most once.
pub proof fn unlock_is_asked_once(username: Seq<char>, events: Seq<Event>, i: int, j: int)
    requires
        0 <= i < j < events.len(),
        asked(state::initial(username), events, i).contains(Action::UnlockAndDestroy),
    ensures
        !asked(state::initial(username), events, j).contains(Action::UnlockAndDestroy),
{
    flags_tell_the_past(username, events.take(i));
    flags_tell_the_past(username, events.take(j));
    request_is_what_unlocks(after(state::initial(username), events.take(i)), events[i]);
    request_is_what_unlocks(after(state::initial(username), events.take(j)), events[j]);
    assert(events.take(j).take(i + 1).drop_last() =~= events.take(i));
    unlocked_stays(username, events.take(j), i + 1);
}

/// Credentials accepted before the lock is confirmed are not lost: the request is sent with the
/// confirmation.
pub proof fn early_acceptance_is_kept(s: LockState)
    requires
        s.inv(),
        !s.locked,
        !s.finished,
    ensures
        s.step(Event::Auth { event: AuthEvent::Success }).actions == Seq::<
            Action<Seq<char>>,
        >::empty(),
        s.step(Event::Auth { event: AuthEvent::Success }).state.step(
            Event::Locked,
        ).actions.contains(Action::UnlockAndDestroy),
{
    let t = s.step(Event::Auth { event: AuthEvent::Success }).state;
    assert(t.step(Event::Locked).actions[0] == Action::<Seq<char>>::UnlockAndDestroy);
}

/// What accepted credentials lead to, at once or with the confirmation that they had to wait for.
/// Under a confirmed lock the session is released: the request goes out, then every surface is
/// destroyed, and the locker leaves. If the compositor has ended the lock, or the session was
/// released before, the locker only leaves. Before the lock is confirmed the request is put off.
pub proof fn acceptance_is_exact(s: LockState)
    ensures
        ({
            let now = s.step(Event::Auth { event: AuthEvent::Success });
            let then = s.step(Event::Locked);
            &&& !s.locked ==> {
                &&& now.actions.len() == 0
                &&& now.state == LockState {
                    unlock_when_locked: true,
                    phase: Phase::Prompt,
                    status: Some("Locking, one moment…"@),
                    ..s
                }
            }
            &&& s.locked ==> released_or_left(s, now)
            &&& s.unlock_when_locked ==> released_or_left(
                LockState { locked: true, unlock_when_locked: false, ..s },
                then,
            )
            &&& !s.unlock_when_locked ==> {
                &&& then.actions.len() == 0
                &&& then.state == LockState { locked: true, ..s }
            }
        }),
{
}

/// Whether `next` releases the session from a state, or only leaves if the lock is no longer ours.
pub open spec fn released_or_left(s: LockState, next: state::Step) -> bool {
    if s.lock && !s.finished {
        &&& next.actions == seq![Action::<Seq<char>>::UnlockAndDestroy, Action::DestroySurfaces]
        &&& next.state == LockState {
            lock: false,
            unlocked: true,
            exit: true,
            phase: Phase::Unlocking,
            outputs: Map::empty(),
            ..s
        }
    } else {
        &&& next.actions.len() == 0
        &&& next.state == LockState { exit: true, ..s }
    }
}

/// No key dismisses the lock: whatever is pressed, no unlock request is sent, and nothing changes
/// in how far the lock has come or whether the locker leaves.
pub proof fn no_key_unlocks(s: LockState, keysym: u32, text: Option<String>)
    ensures
        ({
            let next = s.step(Event::Key { keysym, text });
            &&& !next.actions.contains(Action::UnlockAndDestroy)
            &&& next.state.lock == s.lock
            &&& next.state.locked == s.locked
            &&& next.state.unlock_when_locked == s.unlock_when_locked
            &&& next.state.unlocked == s.unlocked
            &&& next.state.finished == s.finished
            &&& next.state.exit == s.exit
        }),
{
}

/// A credential check is asked for only by Return or Enter at the prompt, with what was typed, and
/// what was typed is then forgotten.
pub proof fn check_takes_the_password(
    s: LockState,
    event: Event,
    username: Seq<char>,
    password: Seq<char>,
)
    requires
        s.step(event).actions.contains(Action::Check { username, password }),
    ensures
        event matches Event::Key { keysym, text } && (keysym == state::KEY_RETURN || keysym
            == state::KEY_KP_ENTER),
        s.phase == Phase::Prompt,
        username == s.username,
        password == s.password,
        password.len() > 0,
        s.step(event).state.phase == Phase::Checking,
        s.step(event).state.password == Seq::<char>::empty(),
{
}

/// Away from the prompt nothing but an answer leads back to it.
proof fn only_answers_reopen(s: LockState, event: Event)
    requires
        s.phase != Phase::Prompt,
        s.inv(),
        !answers(event),
    ensures
        s.step(event).state.phase != Phase::Prompt,
{
}

/// Away from the prompt, the prompt stays closed over events without an answer.
proof fn prompt_stays_closed(username: Seq<char>, events: Seq<Event>, i: int, j: int)
    requires
        0 <= i <= j <= events.len(),
        after(state::initial(username), events.take(i)).phase != Phase::Prompt,
        forall|k: int| i <= k < j ==> !answers(#[trigger] events[k]),
    ensures
        after(state::initial(username), events.take(j)).phase != Phase::Prompt,
    decreases j - i,
{
    if i < j {
        flags_tell_the_past(username, events.take(i));
        only_answers_reopen(after(state::initial(username), events.take(i)), events[i]);
        assert(events.take(i + 1).drop_last() =~= events.take(i));
        prompt_stays_closed(username, events, i + 1, j);
    }
}

/// One attempt at a time: between two credential checks that are asked for lies the answer of a
/// check, so that a held Return cannot queue attempts.
pub proof fn one_attempt_at_a_time(
    username: Seq<char>,
    events: Seq<Event>,
    i: int,
    j: int,
    first: Seq<char>,
    second: Seq<char>,
)
    requires
        0 <= i < j < events.len(),
        asked(state::initial(username), events, i).contains(
            Action::Check { username, password: first },
        ),
        asked(state::initial(username), events, j).contains(
            Action::Check { username, password: second },
        ),
    ensures
        exists|k: int| i < k < j && answers(#[trigger] events[k]),
{
    let s = after(state::initial(username), events.take(i));
    check_takes_the_password(s, events[i], username, first);
    check_takes_the_password(
        after(state::initial(username), events.take(j)),
        events[j],
        username,
        second,
    );
    assert(events.take(i + 1).drop_last() =~= events.take(i));
    if forall|k: int| i < k < j ==> !answers(#[trigger] events[k]) {
        prompt_stays_closed(username, events, i + 1, j);
    }
}

/// While a check runs, keys change nothing at all.
pub proof fn keys_are_ignored_while_checking(s: LockState, keysym: u32, text: Option<String>)
    requires
        s.phase != Phase::Prompt,
    ensures
        s.step(Event::Key { keysym, text }) == s.stay(),
{
}

/// A rejection opens the prompt again, says why on the screen, and leaves the lock as it was.
pub proof fn rejection_is_shown(s: LockState, msg: String, width: u32, height: u32)
    requires
        msg@.len() > 0,
    ensures
        ({
            let next = s.step(Event::Auth { event: AuthEvent::Failure { msg } });
            &&& next.actions == Seq::<Action<Seq<char>>>::empty()
            &&& next.state == LockState { phase: Phase::Prompt, status: Some(msg@), ..s }
            &&& next.state.labels(width, height).len() == 2
            &&& next.state.labels(width, height)[1].text == msg@
        }),
{
}

/// What the stack says while a check runs is on the screen as it arrives, and the check goes on.
pub proof fn information_is_shown(s: LockState, msg: String, width: u32, height: u32)
    requires
        s.phase == Phase::Checking,
        msg@.len() > 0,
    ensures
        ({
            let next = s.step(Event::Auth { event: AuthEvent::Info { msg } });
            &&& next.actions == Seq::<Action<Seq<char>>>::empty()
            &&& next.state == LockState { status: Some(msg@), ..s }
            &&& next.state.labels(width, height).len() == 2
            &&& next.state.labels(width, height)[1].text == msg@
        }),
{
}

/// Lock surfaces are destroyed together only after the unlock request.
pub proof fn surfaces_outlive_the_lock(s: LockState, event: Event, i: int)
    requires
        0 <= i < s.step(event).actions.len(),
        s.step(event).actions[i] == Action::<Seq<char>>::DestroySurfaces,
    ensures
        exists|j: int|
            0 <= j < i && #[trigger] s.step(event).actions[j] == Action::<
                Seq<char>,
            >::UnlockAndDestroy,
{
    assert(s.step(event).actions[0] == Action::<Seq<char>>::UnlockAndDestroy);
}

/// No buffer is attached too early: a surface counts as configured, and so can be painted, only by
/// a configure that is acknowledged before anything else is done.
pub proof fn configured_means_acknowledged(s: LockState, event: Event, id: u32)
    requires
        s.step(event).state.outputs.contains_key(id),
        s.step(event).state.outputs[id].configured,
        !s.outputs.contains_key(id) || !s.outputs[id].configured,
    ensures
        event matches Event::Configure { id: configured, serial, width, height } && configured == id
            && s.step(event).actions[0] == (Action::<Seq<char>>::AckConfigure { id, serial }),
{
}

/// Every monitor gets a lock surface as long as the session is not released, also one that is
/// plugged in while it is locked.
pub proof fn every_output_gets_a_surface(s: LockState, id: u32)
    requires
        s.inv(),
        !s.unlocked,
    ensures
        s.step(Event::OutputAdded { id }).state.outputs.contains_key(id),
        !s.outputs.contains_key(id) ==> s.step(Event::OutputAdded { id }).actions == seq![
            Action::<Seq<char>>::CreateSurface { id },
        ],
{
}

/// What was typed reaches the credential check whole: it holds no character at which a C string
/// would end.
pub proof fn typed_password_is_whole(s: LockState)
    requires
        s.inv(),
    ensures
        text::c_text(s.password) == s.password,
{
}

/// The screen tells nothing of the password but its dots: no line of text depends on it, and two
/// passwords with as many dots look the same.
pub proof fn screen_hides_the_password(s: LockState, other: Seq<char>, width: u32, height: u32)
    ensures
        ({
            let t = LockState { password: other, ..s };
            &&& t.labels(width, height) == s.labels(width, height)
            &&& scene::dots_for(other) == scene::dots_for(s.password) ==> t.paints(width, height)
                == s.paints(width, height)
        }),
        other.len() >= scene::MAX_DOTS && s.password.len() >= scene::MAX_DOTS ==> scene::dots_for(
            other,
        ) == scene::dots_for(s.password),
{
}

} // verus!
