//! The running locker.

use vstd::prelude::*;

use std::collections::HashMap;

use crate::auth;
use crate::auth::{AuthEvent, Readiness};
use crate::display;
use crate::laws;
use crate::pam::PamReturnCode;
use crate::scene;
use crate::scene::{Phase, Scene, Span};
use crate::state;
use crate::state::{Action, Capability, Event, LockState};
use crate::surface;
use crate::surface::LockOutput;
use crate::text;
use crate::typing;

verus! {

broadcast use vstd::std_specs::hash::group_hash_axioms;

/// The locker: what it holds, what was typed, and how far the lock has come.
pub struct AppState {
    lock: bool,
    outputs: HashMap<u32, LockOutput>,
    keyboard: bool,
    username: String,
    password: String,
    phase: Phase,
    status: Option<String>,
    caps_lock: bool,
    locked: bool,
    finished: bool,
    unlock_when_locked: bool,
    unlocked: bool,
    exit: bool,
}

impl View for AppState {
    type V = LockState;

    closed spec fn view(&self) -> LockState {
        LockState {
            lock: self.lock,
            outputs: self.outputs@,
            keyboard: self.keyboard,
            username: self.username@,
            password: self.password@,
            phase: self.phase,
            status: text::view_of(self.status),
            caps_lock: self.caps_lock,
            locked: self.locked,
            finished: self.finished,
            unlock_when_locked: self.unlock_when_locked,
            unlocked: self.unlocked,
            exit: self.exit,
        }
    }
}

impl AppState {
    /// Hands the typed password to a credential check. Ignored while a check runs.
    fn submit(&mut self) -> (actions: Vec<Action<String>>)
        ensures
            final(self)@ == old(self)@.submit().state,
            state::actions_view(actions@) == old(self)@.submit().actions,
    {
        let mut actions: Vec<Action<String>> = Vec::new();
        if self.phase != Phase::Prompt {
            return actions;
        }
        if self.password.as_str().is_empty() {
            self.status = Some("Enter your password".to_owned());
            actions.push(Action::DrawAll);
            return actions;
        }
        self.phase = Phase::Checking;
        self.status = None;
        let mut password: String = String::new();
        std::mem::swap(&mut self.password, &mut password);
        actions.push(Action::Check { username: self.username.clone(), password });
        actions.push(Action::DrawAll);
        actions
    }

    /// Credentials were accepted: release the session and go.
    ///
    /// The request before the lock is confirmed would be a protocol error, for which the compositor
    /// kills the client and leaves the session locked. Credentials can be accepted that early, so
    /// then the request is put off. After the compositor has ended the lock there is no request at
    /// all. Surfaces are destroyed only after the request.
    fn unlock(&mut self) -> (actions: Vec<Action<String>>)
        ensures
            final(self)@ == old(self)@.unlock().state,
            state::actions_view(actions@) == old(self)@.unlock().actions,
    {
        let mut actions: Vec<Action<String>> = Vec::new();
        if !self.locked {
            self.phase = Phase::Prompt;
            self.status = Some("Locking, one moment…".to_owned());
            self.unlock_when_locked = true;
            return actions;
        }
        if self.finished || !self.lock {
            self.exit = true;
            return actions;
        }
        self.lock = false;
        self.phase = Phase::Unlocking;
        actions.push(Action::UnlockAndDestroy);
        self.outputs.clear();
        actions.push(Action::DestroySurfaces);
        self.unlocked = true;
        self.exit = true;
        actions
    }

    /// The lock is confirmed.
    fn confirmed(&mut self) -> (actions: Vec<Action<String>>)
        ensures
            final(self)@ == old(self)@.confirmed().state,
            state::actions_view(actions@) == old(self)@.confirmed().actions,
    {
        self.locked = true;
        if self.unlock_when_locked {
            self.unlock_when_locked = false;
            self.unlock()
        } else {
            Vec::new()
        }
    }

    /// A monitor is there. One plugged in while the session is locked still gets a prompt.
    fn create_lock_surface(&mut self, id: u32) -> (actions: Vec<Action<String>>)
        ensures
            final(self)@ == old(self)@.create_lock_surface(id).state,
            state::actions_view(actions@) == old(self)@.create_lock_surface(id).actions,
    {
        let mut actions: Vec<Action<String>> = Vec::new();
        if !self.lock || self.outputs.contains_key(&id) {
            return actions;
        }
        self.outputs.insert(id, LockOutput::new());
        actions.push(Action::CreateSurface { id });
        actions
    }

    /// A monitor is gone.
    fn output_destroyed(&mut self, id: u32) -> (actions: Vec<Action<String>>)
        ensures
            final(self)@ == old(self)@.output_destroyed(id).state,
            state::actions_view(actions@) == old(self)@.output_destroyed(id).actions,
    {
        let mut actions: Vec<Action<String>> = Vec::new();
        if self.outputs.contains_key(&id) {
            self.outputs.remove(&id);
            actions.push(Action::DestroySurface { id });
        }
        actions
    }

    /// A surface gets its size.
    fn configure(&mut self, id: u32, serial: u32, width: u32, height: u32) -> (actions: Vec<
        Action<String>,
    >)
        ensures
            final(self)@ == old(self)@.configure(id, serial, width, height).state,
            state::actions_view(actions@) == old(self)@.configure(
                id,
                serial,
                width,
                height,
            ).actions,
    {
        let mut actions: Vec<Action<String>> = Vec::new();
        let out: LockOutput = match self.outputs.get(&id) {
            Some(out) => *out,
            None => return actions,
        };
        actions.push(Action::AckConfigure { id, serial });
        let w: u32 = surface::pixels(width, out.scale);
        let h: u32 = surface::pixels(height, out.scale);
        if out.rendering {
            actions.push(Action::ResizeRenderer { id, width: w, height: h });
        } else {
            actions.push(
                Action::SetBufferScale { id, scale: surface::buffer_scale(out.scale) },
            );
            actions.push(Action::StartRenderer { id, width: w, height: h });
        }
        self.outputs.insert(
            id,
            LockOutput { width, height, scale: out.scale, configured: true, rendering: true },
        );
        actions.push(Action::Draw { id });
        actions
    }

    /// A surface gets its scale.
    fn scale_factor_changed(&mut self, id: u32, factor: i32) -> (actions: Vec<Action<String>>)
        ensures
            final(self)@ == old(self)@.scale_factor_changed(id, factor).state,
            state::actions_view(actions@) == old(self)@.scale_factor_changed(id, factor).actions,
    {
        let mut actions: Vec<Action<String>> = Vec::new();
        let out: LockOutput = match self.outputs.get(&id) {
            Some(out) => *out,
            None => return actions,
        };
        self.outputs.insert(
            id,
            LockOutput {
                width: out.width,
                height: out.height,
                scale: factor,
                configured: out.configured,
                rendering: out.rendering,
            },
        );
        actions.push(Action::SetBufferScale { id, scale: factor });
        if out.rendering {
            actions.push(
                Action::ResizeRenderer {
                    id,
                    width: surface::pixels(out.width, factor),
                    height: surface::pixels(out.height, factor),
                },
            );
        }
        actions.push(Action::Draw { id });
        actions
    }

    /// A key was pressed.
    ///
    /// Everything is ignored while a check runs: a held Return would otherwise queue attempts.
    /// Escape clears the field and does not dismiss the lock; no key does.
    fn press_key(&mut self, keysym: u32, text: Option<String>) -> (actions: Vec<Action<String>>)
        ensures
            final(self)@ == old(self)@.press_key(keysym, text::view_of(text)).state,
            state::actions_view(actions@) == old(self)@.press_key(
                keysym,
                text::view_of(text),
            ).actions,
    {
        let mut actions: Vec<Action<String>> = Vec::new();
        if self.phase != Phase::Prompt {
            return actions;
        }
        if keysym == state::KEY_RETURN || keysym == state::KEY_KP_ENTER {
            return self.submit();
        }
        if keysym == state::KEY_BACKSPACE {
            self.password.pop();
            self.status = None;
        } else if keysym == state::KEY_ESCAPE {
            self.password.clear();
            self.status = None;
        } else if let Some(typed) = text {
            text::push_printable(&mut self.password, typed.as_str());
            self.status = None;
        }
        actions.push(Action::DrawAll);
        actions
    }

    /// A credential check reports.
    fn auth(&mut self, event: AuthEvent) -> (actions: Vec<Action<String>>)
        ensures
            final(self)@ == old(self)@.auth(event).state,
            state::actions_view(actions@) == old(self)@.auth(event).actions,
    {
        match event {
            AuthEvent::Success => self.unlock(),
            AuthEvent::Failure { msg } => {
                self.phase = Phase::Prompt;
                self.status = Some(msg);
                Vec::new()
            },
            AuthEvent::Info { msg } => {
                self.status = Some(msg);
                Vec::new()
            },
        }
    }

    /// Takes an event in, and says what is to be done, in order.
    #[verifier::rlimit(50)]
    pub fn handle(&mut self, event: Event) -> (actions: Vec<Action<String>>)
        ensures
            final(self)@ == old(self)@.step(event).state,
            state::actions_view(actions@) == old(self)@.step(event).actions,
            old(self)@.inv() ==> final(self)@.inv(),
            final(self)@.username == old(self)@.username,
            event !is Key ==> final(self)@.password == old(self)@.password,
    {
        proof {
            laws::inv_is_kept(self@, event);
            typing::only_keys_touch_the_password(self@, event);
        }
        let mut actions: Vec<Action<String>> = Vec::new();
        match event {
            Event::Locked => {
                return self.confirmed();
            },
            Event::Finished => {
                self.finished = true;
                self.exit = true;
            },
            Event::OutputAdded { id } => {
                return self.create_lock_surface(id);
            },
            Event::OutputRemoved { id } => {
                return self.output_destroyed(id);
            },
            Event::Configure { id, serial, width, height } => {
                return self.configure(id, serial, width, height);
            },
            Event::ScaleChanged { id, factor } => {
                return self.scale_factor_changed(id, factor);
            },
            Event::CapabilityAdded { capability } => {
                if capability == Capability::Keyboard && !self.keyboard {
                    actions.push(Action::BindKeyboard);
                }
            },
            Event::KeyboardBound => {
                self.keyboard = true;
            },
            Event::CapabilityRemoved { capability } => {
                if capability == Capability::Keyboard && self.keyboard {
                    self.keyboard = false;
                    actions.push(Action::ReleaseKeyboard);
                }
            },
            Event::Key { keysym, text } => {
                return self.press_key(keysym, text);
            },
            Event::Modifiers { caps_lock } => {
                if caps_lock != self.caps_lock {
                    self.caps_lock = caps_lock;
                    actions.push(Action::DrawAll);
                }
            },
            Event::Auth { event } => {
                return self.auth(event);
            },
            Event::Idle => {
                if self.phase != Phase::Unlocking {
                    actions.push(Action::DrawAll);
                }
            },
        }
        actions
    }

    /// The outputs to paint when everything is painted, in no particular order.
    pub fn draw_all(&self) -> (ids: Vec<u32>)
        ensures
            ids@.no_duplicates(),
            forall|id: u32| ids@.contains(id) <==> self@.outputs.contains_key(id),
            every_output_once(self@, ids@),
    {
        let mut ids: Vec<u32> = Vec::new();
        let ghost keys = vstd::std_specs::iter::IteratorSpec::remaining(&self.outputs.keys());
        for id in it: self.outputs.keys()
            invariant
                it.seq() == keys,
                ids@.len() == it.index(),
                forall|i: int| 0 <= i < ids@.len() ==> ids@[i] == *keys[i],
        {
            ids.push(*id);
        }
        proof {
            assert(ids@ =~= keys.unref());
            assert forall|id: u32| ids@.contains(id) <==> self@.outputs.contains_key(id) by {
                assert(ids@.to_set().contains(id) <==> self.outputs@.dom().contains(id));
            }
        }
        ids
    }

    /// What to paint on an output: nothing unless its surface was configured, to a size that is
    /// not empty.
    pub fn draw(&self, id: u32) -> (frame: Option<Frame>)
        ensures
            frame is Some <==> self@.outputs.contains_key(id)
                && self@.outputs[id].spec_drawable(),
            frame matches Some(f) ==> {
                let out = self@.outputs[id];
                &&& f.width == out.width
                &&& f.height == out.height
                &&& f.scale == out.scale
                &&& f.paints@ == self@.paints(out.width, out.height)
                &&& scene::spans_view(f.spans@) == self@.labels(out.width, out.height).map_values(
                    |l: scene::Label<Seq<char>>| scene::place(l, out.scale),
                )
            },
            framed(self@, id, frame),
            frame matches Some(f) ==> {
                &&& f.spans@.len() > 0
                &&& f.spans@[0].text@ == self@.username
                &&& f.spans@[0].color == scene::Color::Name
            },
    {
        let out: LockOutput = match self.outputs.get(&id) {
            Some(out) => *out,
            None => return None,
        };
        if !out.drawable() {
            return None;
        }
        let scene: Scene = self.build_scene(out.width, out.height);
        let spans: Vec<Span<String>> = scene::place_all(&scene.labels, out.scale);
        let frame = Frame {
            width: out.width,
            height: out.height,
            scale: out.scale,
            paints: scene.paints,
            spans,
        };
        proof {
            display::frame_can_be_read(self@, id, frame, 0);
        }
        Some(frame)
    }

    /// The lock screen, on a screen of the given size.
    ///
    /// Of the password only its dots are shown, never a character of it, and no count in the status
    /// line.
    pub fn build_scene(&self, width: u32, height: u32) -> (scene: Scene)
        ensures
            scene.paints@ == self@.paints(width, height),
            scene::labels_view(scene.labels@) == self@.labels(width, height),
            scene::placeable(scene.labels@),
    {
        let dots: usize = scene::dots(self.password.as_str());
        let status: Option<(String, scene::Color)> = scene::say_status(
            self.phase,
            &self.status,
            self.caps_lock,
        );
        Scene {
            paints: scene::paint_list(width, height, dots),
            labels: scene::label_list(width, height, &self.username, status),
        }
    }

    /// Whether credentials were accepted and the unlock request waits for the lock to be confirmed.
    pub fn awaiting_lock(&self) -> (b: bool)
        ensures
            b == self@.unlock_when_locked,
            self@.inv() && self@.locked ==> !b,
    {
        self.unlock_when_locked
    }

    /// Whether the locker is to leave.
    pub fn exiting(&self) -> (b: bool)
        ensures
            b == self@.exit,
            self@.inv() ==> b == (self@.unlocked || self@.finished),
    {
        self.exit
    }

    /// How the locker leaves.
    ///
    /// After the unlock request a flush is not enough: without a round trip the compositor may
    /// drop the client before it has read the request, and the session would stay locked with no
    /// locker running.
    pub fn leave(&self) -> (leave: Leave)
        ensures
            leave.roundtrip == self@.unlocked,
            leave.status == (if self@.finished {
                1int
            } else {
                0
            }),
            leave == leaving(self@),
    {
        Leave { roundtrip: self.unlocked, status: if self.finished { 1 } else { 0 } }
    }
}

/// What to paint on one output.
pub struct Frame {
    /// Logical width in pixels.
    pub width: u32,
    /// Logical height in pixels.
    pub height: u32,
    pub scale: i32,
    pub paints: Vec<scene::Paint>,
    pub spans: Vec<Span<String>>,
}

/// How the locker leaves.
#[derive(Clone, Copy, Debug, PartialEq, Eq, Structural)]
pub struct Leave {
    /// Whether to wait until the compositor has read everything.
    pub roundtrip: bool,
    /// The exit status of the process.
    pub status: i32,
}

/// What to do before the session is locked.
pub enum Startup {
    /// Leave, and say why. Failing here costs the user nothing.
    Refuse { msg: String },
    /// Try to start the PAM stack.
    TryStart,
    /// Ask for the lock.
    Lock { state: AppState },
}

/// Whether `ids` are the outputs with a surface, each of them once.
pub open spec fn every_output_once(s: LockState, ids: Seq<u32>) -> bool {
    &&& ids.no_duplicates()
    &&& forall|id: u32| ids.contains(id) <==> s.outputs.contains_key(id)
}

/// Whether `frame` is what a locker in the given state paints on an output.
pub open spec fn framed(s: LockState, id: u32, frame: Option<Frame>) -> bool {
    let out = s.outputs[id];
    &&& frame is Some <==> s.outputs.contains_key(id) && out.spec_drawable()
    &&& frame matches Some(f) ==> {
        &&& f.width == out.width
        &&& f.height == out.height
        &&& f.scale == out.scale
        &&& f.paints@ == s.paints(out.width, out.height)
        &&& scene::spans_view(f.spans@) == s.labels(out.width, out.height).map_values(
            |l: scene::Label<Seq<char>>| scene::place(l, out.scale),
        )
    }
}

/// How a locker in the given state leaves.
pub open spec fn leaving(s: LockState) -> Leave {
    Leave { roundtrip: s.unlocked, status: if s.finished { 1 } else { 0 } }
}

/// Whether `next` is what to do before the session is locked.
pub open spec fn started(
    username: Option<Seq<char>>,
    found: Seq<bool>,
    start: Option<PamReturnCode>,
    next: Startup,
) -> bool {
    let known = username matches Some(name) && name.len() > 0;
    match next {
        Startup::Lock { state } => {
            &&& known
            &&& auth::any_found(found)
            &&& start == Some(PamReturnCode::SUCCESS)
            &&& state@ == state::initial(username->0)
        },
        Startup::TryStart => known && auth::any_found(found) && start is None,
        Startup::Refuse { msg } => if !known {
            msg@ == "cannot determine the current user; refusing to lock"@
        } else if !auth::any_found(found) {
            msg@ == auth::missing_message()
        } else {
            &&& start matches Some(rc)
            &&& rc != PamReturnCode::SUCCESS
            &&& msg@ == auth::unavailable_message(rc)
        },
    }
}

/// Whether the session may be locked.
///
/// `username` is the current user, as far as it is known, `found` says where a PAM service file
/// lies, and `start` is the code of starting the stack, once that was tried. A stack that will not
/// start would reject every password with the screen already locked, so the lock is not even asked
/// for until it has started.
pub fn startup(username: Option<String>, found: &Vec<bool>, start: Option<PamReturnCode>) -> (next:
    Startup)
    ensures
        match (text::view_of(username), next) {
            (Some(name), Startup::Lock { state }) => {
                &&& name.len() > 0
                &&& auth::any_found(found@)
                &&& start == Some(PamReturnCode::SUCCESS)
                &&& state@ == state::initial(name)
                &&& state@.inv()
            },
            (Some(name), Startup::TryStart) => {
                &&& name.len() > 0
                &&& auth::any_found(found@)
                &&& start is None
            },
            (name, Startup::Refuse { msg }) => {
                if name is None || name->0.len() == 0 {
                    msg@ == "cannot determine the current user; refusing to lock"@
                } else if !auth::any_found(found@) {
                    msg@ == auth::missing_message()
                } else {
                    &&& start matches Some(rc)
                    &&& rc != PamReturnCode::SUCCESS
                    &&& msg@ == auth::unavailable_message(rc)
                }
            },
            _ => false,
        },
        next matches Startup::Lock { state } ==> {
            &&& username matches Some(name)
            &&& state@.username == name@
            &&& state@.password.len() == 0
        },
        started(text::view_of(username), found@, start, next),
{
    let name: String = match username {
        Some(name) => name,
        None => String::new(),
    };
    if name.as_str().is_empty() {
        return Startup::Refuse {
            msg: "cannot determine the current user; refusing to lock".to_owned(),
        };
    }
    match auth::preflight(found, start) {
        Err(msg) => Startup::Refuse { msg },
        Ok(Readiness::TryStart) => Startup::TryStart,
        Ok(Readiness::Ready) => Startup::Lock {
            state: AppState {
                lock: true,
                outputs: HashMap::new(),
                keyboard: false,
                username: name,
                password: String::new(),
                phase: Phase::Prompt,
                status: None,
                caps_lock: false,
                locked: false,
                finished: false,
                unlock_when_locked: false,
                unlocked: false,
                exit: false,
            },
        },
    }
}

} // verus!
