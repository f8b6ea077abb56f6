//! What the user sees and whom the locker is for: every frame tells the user's name and how the
//! attempt stands, and nothing of the password but its dots.

use vstd::prelude::*;

use crate::laws;
use crate::locker;
use crate::locker::{Frame, Startup};
use crate::pam::PamReturnCode;
use crate::scene;
use crate::scene::{Color, Paint, Phase};
use crate::single;
use crate::state;
use crate::state::{Action, Event, LockState};
use crate::typing;

verus! {

/// What the lines of the screen say: first the user's name in the colour of names; then, if there
/// is anything to tell, the message, or that Caps Lock is on, or what is under way.
pub proof fn lines_tell_the_state(s: LockState, width: u32, height: u32)
    ensures
        ({
            let l = s.labels(width, height);
            &&& 1 <= l.len() <= 2
            &&& l[0].text == s.username && l[0].color == Color::Name && l[0].size == 15
            &&& l.len() == 2 ==> l[1].size == 12
            &&& s.phase == Phase::Prompt ==> match s.status {
                Some(msg) => if msg.len() > 0 {
                    l.len() == 2 && l[1].text == msg && l[1].color == Color::Notice
                } else {
                    l.len() == 1
                },
                None => if s.caps_lock {
                    l.len() == 2 && l[1].text == "Caps Lock is on"@ && l[1].color == Color::Caps
                } else {
                    l.len() == 1
                },
            }
            &&& s.phase == Phase::Checking ==> {
                &&& l.len() == 2
                &&& l[1].color == Color::Busy
                &&& l[1].text == (if s.status is Some && s.status->0.len() > 0 {
                    s.status->0
                } else {
                    "Checking…"@
                })
            }
            &&& s.phase == Phase::Unlocking ==> {
                &&& l.len() == 2
                &&& l[1].color == Color::Releasing
                &&& l[1].text == "Unlocking…"@
            }
        }),
{
    scene::lines_tell_name_and_status(
        width,
        height,
        s.username,
        scene::status_line(s.phase, s.status, s.caps_lock),
    );
    if s.status is Some {
        scene::status_is_told(s.status, s.caps_lock, s.status->0);
        if s.status->0.len() == 0 {
            assert(s.status->0 =~= Seq::<char>::empty());
        }
    } else {
        scene::status_is_told(s.status, s.caps_lock, Seq::empty());
    }
}

/// What is painted on the screen: the ground over all of it, the card, the well and its rim, and
/// then a dot for every character typed, up to 32, each in its place and none else.
pub proof fn paints_tell_the_state(s: LockState, width: u32, height: u32, i: int)
    ensures
        ({
            let p = s.paints(width, height);
            let dots = if s.password.len() < 32 {
                s.password.len() as int
            } else {
                32
            };
            &&& p.len() == 4 + dots
            &&& p[0] == Paint::Quad { rect: scene::screen(width, height), color: Color::Ground }
            &&& p[1] == Paint::Plate { rect: scene::card(width, height), color: Color::Card }
            &&& p[2] == Paint::Quad { rect: scene::well(width, height), color: Color::Well }
            &&& p[3] == Paint::Recess { rect: scene::well(width, height) }
            &&& 0 <= i < dots ==> p[4 + i] == scene::dot(width, height, i)
        }),
{
    dots_are_in_place(width, height, scene::dots_for(s.password), i);
}

/// The same for any number of dots.
proof fn dots_are_in_place(width: u32, height: u32, dots: int, i: int)
    requires
        0 <= dots,
    ensures
        ({
            let p = scene::paints(width, height, dots);
            &&& p.len() == 4 + dots
            &&& p[0] == Paint::Quad { rect: scene::screen(width, height), color: Color::Ground }
            &&& p[1] == Paint::Plate { rect: scene::card(width, height), color: Color::Card }
            &&& p[2] == Paint::Quad { rect: scene::well(width, height), color: Color::Well }
            &&& p[3] == Paint::Recess { rect: scene::well(width, height) }
            &&& 0 <= i < dots ==> p[4 + i] == scene::dot(width, height, i)
        }),
    decreases dots,
{
    scene::dots_are_painted_last(width, height, dots);
    if dots > 0 {
        dots_are_in_place(width, height, dots - 1, i);
        scene::dots_are_painted_last(width, height, dots - 1);
    }
}

/// An output is painted exactly when it has a surface that was configured, to a size that is not
/// empty; the frame has the size and the scale of that surface.
pub proof fn frame_is_of_its_output(s: LockState, id: u32, frame: Option<Frame>)
    requires
        locker::framed(s, id, frame),
    ensures
        frame is Some <==> s.outputs.contains_key(id) && s.outputs[id].configured
            && s.outputs[id].width != 0 && s.outputs[id].height != 0,
        frame matches Some(f) ==> {
            &&& f.width == s.outputs[id].width
            &&& f.height == s.outputs[id].height
            &&& f.scale == s.outputs[id].scale
            &&& f.paints@ == s.paints(f.width, f.height)
        },
{
}

/// A frame shows every line of the screen, in order, and no other: each with its own text, size and
/// colour, at its place on the screen in physical pixels.
pub proof fn frame_shows_every_line(s: LockState, id: u32, f: Frame, i: int)
    requires
        locker::framed(s, id, Some(f)),
    ensures
        ({
            let l = s.labels(f.width, f.height);
            let scale = single::single(f.scale as int);
            &&& f.spans@.len() == l.len()
            &&& 0 <= i < l.len() ==> {
                &&& f.spans@[i].text@ == l[i].text
                &&& f.spans@[i].size == l[i].size
                &&& f.spans@[i].color == l[i].color
                &&& f.spans@[i].left == single::round_halves(single::single(l[i].x * scale))
                &&& f.spans@[i].top == single::round_halves(single::single(l[i].y * scale))
            }
        }),
{
    let l = s.labels(f.width, f.height);
    scene::spans_view_is_faithful(f.spans@, i);
    if 0 <= i < l.len() {
        scene::layout_on_any_screen(
            f.width,
            f.height,
            s.username,
            scene::status_line(s.phase, s.status, s.caps_lock),
            0,
        );
        scene::placing_keeps_the_line(l[i], f.scale);
        assert(scene::spans_view(f.spans@)[i] == scene::place(l[i], f.scale));
    }
}

/// Every frame shows the user's name, whole, first, and in the colour of names. At the prompt it
/// shows the message there is, whole and in the colour of notices; while a check runs, what is under
/// way, in the colour for that. Every text is light and everything behind it is dark.
pub proof fn frame_can_be_read(s: LockState, id: u32, f: Frame, i: int)
    requires
        locker::framed(s, id, Some(f)),
    ensures
        1 <= f.spans@.len() <= 2,
        f.spans@[0].text@ == s.username,
        f.spans@[0].color == Color::Name,
        f.spans@[0].size == 15,
        s.phase == Phase::Prompt && s.status is Some && s.status->0.len() > 0 ==> {
            &&& f.spans@.len() == 2
            &&& f.spans@[1].text@ == s.status->0
            &&& f.spans@[1].color == Color::Notice
            &&& f.spans@[1].size == 12
        },
        s.phase == Phase::Prompt && s.status is None && s.caps_lock ==> {
            &&& f.spans@.len() == 2
            &&& f.spans@[1].text@ == "Caps Lock is on"@
            &&& f.spans@[1].color == Color::Caps
        },
        s.phase == Phase::Checking ==> {
            &&& f.spans@.len() == 2
            &&& f.spans@[1].color == Color::Busy
            &&& f.spans@[1].text@ == (if s.status is Some && s.status->0.len() > 0 {
                s.status->0
            } else {
                "Checking…"@
            })
        },
        0 <= i < f.spans@.len() ==> {
            let light = f.spans@[i].color.spec_channels();
            &&& f.spans@[i].color != Color::Card
            &&& f.spans@[i].color != Color::Ground
            &&& f.spans@[i].color != Color::Well
            &&& light.red >= 700 && light.green >= 500 && light.blue >= 500
        },
{
    lines_tell_the_state(s, f.width, f.height);
    frame_shows_every_line(s, id, f, 0);
    frame_shows_every_line(s, id, f, 1);
    frame_shows_every_line(s, id, f, i);
    if 0 <= i < f.spans@.len() {
        scene::text_stands_out(
            f.width,
            f.height,
            s.username,
            s.phase,
            s.status,
            s.caps_lock,
            i,
        );
    }
}

/// A frame tells of the password only how many dots it has, and no more than 32 of them.
pub proof fn frame_shows_dots_only(s: LockState, id: u32, f: Frame)
    requires
        locker::framed(s, id, Some(f)),
    ensures
        f.paints@.len() == 4 + (if s.password.len() < 32 {
            s.password.len() as int
        } else {
            32
        }),
{
    paints_tell_the_state(s, f.width, f.height, 0);
}

/// Everything painted at once is every output with a surface, each exactly once.
pub proof fn every_output_is_painted_once(s: LockState, ids: Seq<u32>, id: u32)
    requires
        locker::every_output_once(s, ids),
    ensures
        s.outputs.contains_key(id) ==> exists|i: int|
            0 <= i < ids.len() && #[trigger] ids[i] == id && forall|j: int|
                0 <= j < ids.len() && #[trigger] ids[j] == id ==> j == i,
        !s.outputs.contains_key(id) ==> !ids.contains(id),
        ids.len() == s.outputs.dom().len(),
{
    if s.outputs.contains_key(id) {
        assert(ids.contains(id));
        let i = choose|i: int| 0 <= i < ids.len() && ids[i] == id;
        assert(ids[i] == id && forall|j: int|
            0 <= j < ids.len() && #[trigger] ids[j] == id ==> j == i);
    }
    ids.unique_seq_to_set();
    assert(ids.to_set() =~= s.outputs.dom());
}

/// The lock is asked for only for a user whose name is known, with a service file in place and the
/// PAM stack seen to start. The locker then begins with that very name, with nothing typed, no
/// surface, no keyboard, an open prompt and nothing on it, and nothing confirmed, ended or released.
pub proof fn locker_begins_for_the_user(
    username: Option<Seq<char>>,
    found: Seq<bool>,
    start: Option<PamReturnCode>,
    next: Startup,
)
    requires
        locker::started(username, found, start, next),
    ensures
        next matches Startup::Lock { state } ==> {
            &&& username == Some(state@.username)
            &&& state@.username.len() > 0
            &&& found.contains(true)
            &&& start == Some(PamReturnCode::SUCCESS)
            &&& state@.password.len() == 0
            &&& forall|id: u32| !state@.outputs.contains_key(id)
            &&& !state@.keyboard
            &&& state@.phase == Phase::Prompt
            &&& state@.status is None
            &&& !state@.caps_lock
            &&& state@.lock
            &&& !state@.locked
            &&& !state@.finished
            &&& !state@.unlock_when_locked
            &&& !state@.unlocked
            &&& !state@.exit
            &&& state@.inv()
        },
        next is TryStart ==> username is Some && username->0.len() > 0 && found.contains(true)
            && start is None,
        (username is None || username->0.len() == 0) ==> next is Refuse,
        !found.contains(true) ==> next is Refuse,
        username is Some && username->0.len() > 0 && found.contains(true) ==> {
            &&& start is None ==> next is TryStart
            &&& start == Some(PamReturnCode::SUCCESS) ==> next is Lock
            &&& start is Some && start != Some(PamReturnCode::SUCCESS) ==> next is Refuse
        },
{
    if found.contains(true) {
        let i = choose|i: int| 0 <= i < found.len() && found[i] == true;
        assert(found[i]);
    }
    if exists|i: int| 0 <= i < found.len() && found[i] {
        let i = choose|i: int| 0 <= i < found.len() && found[i];
        assert(found[i] == true);
    }
}

/// Once begun for a user, the locker is for that user whatever happens: the name never changes,
/// every credential check is of that name, and the first line of every screen and of every frame is
/// that name.
pub proof fn locker_is_for_the_user(
    name: Seq<char>,
    found: Seq<bool>,
    start: Option<PamReturnCode>,
    next: Startup,
    events: Seq<Event>,
    i: int,
    width: u32,
    height: u32,
    id: u32,
    f: Frame,
)
    requires
        locker::started(Some(name), found, start, next),
        next is Lock,
    ensures
        ({
            let s = next->state@;
            let t = laws::after(s, events);
            &&& s.username == name
            &&& t.username == name
            &&& t.labels(width, height)[0].text == name
            &&& t.labels(width, height)[0].color == Color::Name
            &&& locker::framed(t, id, Some(f)) ==> f.spans@[0].text@ == name
            &&& 0 <= i < events.len() ==> forall|username: Seq<char>, password: Seq<char>|
                #[trigger] laws::asked(s, events, i).contains(Action::Check { username, password })
                    ==> username == name
        }),
{
    let s = next->state@;
    let t = laws::after(s, events);
    locker_begins_for_the_user(Some(name), found, start, next);
    typing::user_stays(s, events);
    lines_tell_the_state(t, width, height);
    if locker::framed(t, id, Some(f)) {
        frame_can_be_read(t, id, f, 0);
    }
    if 0 <= i < events.len() {
        assert forall|username: Seq<char>, password: Seq<char>|
            #[trigger] laws::asked(s, events, i).contains(
                Action::Check { username, password },
            ) implies username == name by {
            typing::checks_are_of_the_user(s, events, i, username, password);
        }
    }
}

/// After a startup that asks for the lock, everything that is said of lockers from their beginning
/// holds: the locker is the initial one for the name that was given.
pub proof fn startup_begins_the_locker(
    name: Seq<char>,
    found: Seq<bool>,
    start: Option<PamReturnCode>,
    next: Startup,
    events: Seq<Event>,
)
    requires
        locker::started(Some(name), found, start, next),
        next is Lock,
    ensures
        next->state@ == state::initial(name),
        laws::after(next->state@, events) == laws::after(state::initial(name), events),
{
}

/// The locker waits for the compositor to read everything exactly when the session was released, and
/// reports failure exactly when the compositor ended the lock.
pub proof fn leaving_tells_the_end(username: Seq<char>, events: Seq<Event>)
    ensures
        ({
            let leave = locker::leaving(laws::after(state::initial(username), events));
            &&& leave.roundtrip <==> laws::released(events)
            &&& laws::ended(events) ==> leave.status == 1
            &&& !laws::ended(events) ==> leave.status == 0
        }),
{
    laws::flags_tell_the_past(username, events);
    laws::unlock_is_exact(username, events);
}

} // verus!
