//! The locker as a state machine: what each event changes, and what it asks to be done.

use vstd::prelude::*;

use crate::auth::AuthEvent;
use crate::scene;
use crate::scene::Phase;
use crate::surface;
use crate::surface::LockOutput;
use crate::text;

verus! {

/// The number of the BackSpace key.
pub const KEY_BACKSPACE: u32 = 0xff08;

/// The number of the Return key.
pub const KEY_RETURN: u32 = 0xff0d;

/// The number of the Escape key.
pub const KEY_ESCAPE: u32 = 0xff1b;

/// The number of the Enter key of the keypad.
pub const KEY_KP_ENTER: u32 = 0xff8d;

/// What a seat can offer.
#[derive(Clone, Copy, Debug, PartialEq, Eq, Structural)]
pub enum Capability {
    Keyboard,
    Pointer,
    Touch,
}

/// What happens to the locker.
pub enum Event {
    /// The compositor confirms that the session is locked and its contents are hidden.
    Locked,
    /// The compositor refused the lock, or ended it.
    Finished,
    /// A monitor is there.
    OutputAdded { id: u32 },
    /// A monitor is gone.
    OutputRemoved { id: u32 },
    /// The compositor gives a surface its size.
    Configure { id: u32, serial: u32, width: u32, height: u32 },
    /// The compositor gives a surface its scale.
    ScaleChanged { id: u32, factor: i32 },
    /// A seat offers something.
    CapabilityAdded { capability: Capability },
    /// The keyboard that was asked for is there.
    KeyboardBound,
    /// A seat no longer offers something.
    CapabilityRemoved { capability: Capability },
    /// A key was pressed. `text` is what it types, if anything.
    Key { keysym: u32, text: Option<String> },
    /// The modifiers have changed.
    Modifiers { caps_lock: bool },
    /// A credential check reports.
    Auth { event: AuthEvent },
    /// The pending events have been handled.
    Idle,
}

/// What is to be done, in the order given.
pub enum Action<S> {
    /// Create a lock surface on the output.
    CreateSurface { id: u32 },
    /// Destroy the lock surface of the output.
    DestroySurface { id: u32 },
    /// Acknowledge a configure.
    AckConfigure { id: u32, serial: u32 },
    /// Announce the scale of the buffers of a surface.
    SetBufferScale { id: u32, scale: i32 },
    /// Start a renderer on a surface, of a size in physical pixels.
    StartRenderer { id: u32, width: u32, height: u32 },
    /// Resize the renderer of a surface.
    ResizeRenderer { id: u32, width: u32, height: u32 },
    /// Ask the seat for its keyboard.
    BindKeyboard,
    /// Give the keyboard back.
    ReleaseKeyboard,
    /// Check credentials, without waiting for the answer.
    Check { username: S, password: S },
    /// Release the session.
    UnlockAndDestroy,
    /// Destroy every lock surface.
    DestroySurfaces,
    /// Paint one surface.
    Draw { id: u32 },
    /// Paint every surface.
    DrawAll,
}

impl Action<String> {
    /// The action with its texts as sequences of characters.
    pub open spec fn view(&self) -> Action<Seq<char>> {
        match *self {
            Action::CreateSurface { id } => Action::CreateSurface { id },
            Action::DestroySurface { id } => Action::DestroySurface { id },
            Action::AckConfigure { id, serial } => Action::AckConfigure { id, serial },
            Action::SetBufferScale { id, scale } => Action::SetBufferScale { id, scale },
            Action::StartRenderer { id, width, height } => Action::StartRenderer {
                id,
                width,
                height,
            },
            Action::ResizeRenderer { id, width, height } => Action::ResizeRenderer {
                id,
                width,
                height,
            },
            Action::BindKeyboard => Action::BindKeyboard,
            Action::ReleaseKeyboard => Action::ReleaseKeyboard,
            Action::Check { username, password } => Action::Check {
                username: username@,
                password: password@,
            },
            Action::UnlockAndDestroy => Action::UnlockAndDestroy,
            Action::DestroySurfaces => Action::DestroySurfaces,
            Action::Draw { id } => Action::Draw { id },
            Action::DrawAll => Action::DrawAll,
        }
    }
}

/// The actions with their texts as sequences of characters.
pub open spec fn actions_view(actions: Seq<Action<String>>) -> Seq<Action<Seq<char>>> {
    actions.map_values(|a: Action<String>| a.view())
}

/// The actions and their texts tell the same, one by one and in the same order: a credential check
/// carries the very name and password that it is told to carry.
pub proof fn actions_view_is_faithful(actions: Seq<Action<String>>, i: int)
    ensures
        actions_view(actions).len() == actions.len(),
        0 <= i < actions.len() ==> match (actions[i], actions_view(actions)[i]) {
            (Action::CreateSurface { id: a }, Action::CreateSurface { id: b }) => a == b,
            (Action::DestroySurface { id: a }, Action::DestroySurface { id: b }) => a == b,
            (
                Action::AckConfigure { id: a, serial: m },
                Action::AckConfigure { id: b, serial: n },
            ) => a == b && m == n,
            (
                Action::SetBufferScale { id: a, scale: m },
                Action::SetBufferScale { id: b, scale: n },
            ) => a == b && m == n,
            (
                Action::StartRenderer { id: a, width: m, height: j },
                Action::StartRenderer { id: b, width: n, height: k },
            ) => a == b && m == n && j == k,
            (
                Action::ResizeRenderer { id: a, width: m, height: j },
                Action::ResizeRenderer { id: b, width: n, height: k },
            ) => a == b && m == n && j == k,
            (Action::BindKeyboard, Action::BindKeyboard) => true,
            (Action::ReleaseKeyboard, Action::ReleaseKeyboard) => true,
            (
                Action::Check { username: a, password: m },
                Action::Check { username: b, password: n },
            ) => a@ == b && m@ == n,
            (Action::UnlockAndDestroy, Action::UnlockAndDestroy) => true,
            (Action::DestroySurfaces, Action::DestroySurfaces) => true,
            (Action::Draw { id: a }, Action::Draw { id: b }) => a == b,
            (Action::DrawAll, Action::DrawAll) => true,
            _ => false,
        },
{
}

/// All that the locker knows.
#[verifier::ext_equal]
pub struct LockState {
    /// Whether the lock is held: it was asked for, and not yet released.
    pub lock: bool,
    /// The lock surfaces, by the number of their output.
    pub outputs: Map<u32, LockOutput>,
    /// Whether a keyboard is held.
    pub keyboard: bool,
    pub username: Seq<char>,
    /// What has been typed since the last attempt.
    pub password: Seq<char>,
    pub phase: Phase,
    pub status: Option<Seq<char>>,
    pub caps_lock: bool,
    /// Whether the compositor has confirmed the lock.
    pub locked: bool,
    /// Whether the compositor has ended the lock by itself.
    pub finished: bool,
    /// Credentials were accepted before the lock was confirmed; unlock as soon as it is.
    pub unlock_when_locked: bool,
    /// Whether the unlock request has been sent.
    pub unlocked: bool,
    /// Whether the locker is to leave.
    pub exit: bool,
}

/// A state and what is to be done.
pub struct Step {
    pub state: LockState,
    pub actions: Seq<Action<Seq<char>>>,
}

/// The state in which the lock has just been asked for.
pub open spec fn initial(username: Seq<char>) -> LockState {
    LockState {
        lock: true,
        outputs: Map::empty(),
        keyboard: false,
        username,
        password: Seq::empty(),
        phase: Phase::Prompt,
        status: None,
        caps_lock: false,
        locked: false,
        finished: false,
        unlock_when_locked: false,
        unlocked: false,
        exit: false,
    }
}

impl LockState {
    /// Nothing changes and nothing is to be done.
    pub open spec fn stay(self) -> Step {
        Step { state: self, actions: seq![] }
    }

    /// Return was pressed: what was typed goes to a credential check, unless it is empty.
    pub open spec fn submit(self) -> Step {
        if self.phase != Phase::Prompt {
            self.stay()
        } else if self.password.len() == 0 {
            Step {
                state: LockState { status: Some("Enter your password"@), ..self },
                actions: seq![Action::DrawAll],
            }
        } else {
            Step {
                state: LockState {
                    phase: Phase::Checking,
                    status: None,
                    password: Seq::empty(),
                    ..self
                },
                actions: seq![
                    Action::Check { username: self.username, password: self.password },
                    Action::DrawAll,
                ],
            }
        }
    }

    /// Credentials were accepted: release the session, once the lock is confirmed. A lock that the
    /// compositor has ended is not ours to release.
    pub open spec fn unlock(self) -> Step {
        if !self.locked {
            LockState {
                phase: Phase::Prompt,
                status: Some("Locking, one moment…"@),
                unlock_when_locked: true,
                ..self
            }.stay()
        } else if self.finished || !self.lock {
            LockState { exit: true, ..self }.stay()
        } else {
            Step {
                state: LockState {
                    lock: false,
                    phase: Phase::Unlocking,
                    outputs: Map::empty(),
                    unlocked: true,
                    exit: true,
                    ..self
                },
                actions: seq![Action::UnlockAndDestroy, Action::DestroySurfaces],
            }
        }
    }

    /// The lock is confirmed.
    pub open spec fn confirmed(self) -> Step {
        let s = LockState { locked: true, ..self };
        if s.unlock_when_locked {
            LockState { unlock_when_locked: false, ..s }.unlock()
        } else {
            s.stay()
        }
    }

    /// A monitor is there: while the lock is held it gets a surface, unless it has one.
    pub open spec fn create_lock_surface(self, id: u32) -> Step {
        if !self.lock || self.outputs.contains_key(id) {
            self.stay()
        } else {
            Step {
                state: LockState { outputs: self.outputs.insert(id, surface::fresh()), ..self },
                actions: seq![Action::CreateSurface { id }],
            }
        }
    }

    /// A monitor is gone, and its surface with it.
    pub open spec fn output_destroyed(self, id: u32) -> Step {
        if self.outputs.contains_key(id) {
            Step {
                state: LockState { outputs: self.outputs.remove(id), ..self },
                actions: seq![Action::DestroySurface { id }],
            }
        } else {
            self.stay()
        }
    }

    /// A surface gets its size: acknowledge it, bring the renderer to it, and paint.
    pub open spec fn configure(self, id: u32, serial: u32, width: u32, height: u32) -> Step {
        if self.outputs.contains_key(id) {
            let out = self.outputs[id];
            let w = surface::spec_pixels(width, out.scale);
            let h = surface::spec_pixels(height, out.scale);
            Step {
                state: LockState {
                    outputs: self.outputs.insert(
                        id,
                        LockOutput { width, height, configured: true, rendering: true, ..out },
                    ),
                    ..self
                },
                actions: if out.rendering {
                    seq![
                        Action::AckConfigure { id, serial },
                        Action::ResizeRenderer { id, width: w, height: h },
                        Action::Draw { id },
                    ]
                } else {
                    seq![
                        Action::AckConfigure { id, serial },
                        Action::SetBufferScale {
                            id,
                            scale: surface::spec_buffer_scale(out.scale),
                        },
                        Action::StartRenderer { id, width: w, height: h },
                        Action::Draw { id },
                    ]
                },
            }
        } else {
            self.stay()
        }
    }

    /// A surface gets its scale: announce it, bring the renderer to it, and paint.
    pub open spec fn scale_factor_changed(self, id: u32, factor: i32) -> Step {
        if self.outputs.contains_key(id) {
            let out = self.outputs[id];
            Step {
                state: LockState {
                    outputs: self.outputs.insert(id, LockOutput { scale: factor, ..out }),
                    ..self
                },
                actions: if out.rendering {
                    seq![
                        Action::SetBufferScale { id, scale: factor },
                        Action::ResizeRenderer {
                            id,
                            width: surface::spec_pixels(out.width, factor),
                            height: surface::spec_pixels(out.height, factor),
                        },
                        Action::Draw { id },
                    ]
                } else {
                    seq![Action::SetBufferScale { id, scale: factor }, Action::Draw { id }]
                },
            }
        } else {
            self.stay()
        }
    }

    /// A key was pressed. While a check runs every key is ignored.
    pub open spec fn press_key(self, keysym: u32, text: Option<Seq<char>>) -> Step {
        if self.phase != Phase::Prompt {
            self.stay()
        } else if keysym == KEY_RETURN || keysym == KEY_KP_ENTER {
            self.submit()
        } else {
            Step {
                state: if keysym == KEY_BACKSPACE {
                    LockState {
                        password: if self.password.len() == 0 {
                            self.password
                        } else {
                            self.password.drop_last()
                        },
                        status: None,
                        ..self
                    }
                } else if keysym == KEY_ESCAPE {
                    LockState { password: Seq::empty(), status: None, ..self }
                } else {
                    match text {
                        Some(typed) => LockState {
                            password: self.password + text::printable(typed),
                            status: None,
                            ..self
                        },
                        None => self,
                    }
                },
                actions: seq![Action::DrawAll],
            }
        }
    }

    /// A credential check reports.
    pub open spec fn auth(self, event: AuthEvent) -> Step {
        match event {
            AuthEvent::Success => self.unlock(),
            AuthEvent::Failure { msg } => LockState {
                phase: Phase::Prompt,
                status: Some(msg@),
                ..self
            }.stay(),
            AuthEvent::Info { msg } => LockState { status: Some(msg@), ..self }.stay(),
        }
    }

    /// What an event changes, and what it asks to be done.
    pub open spec fn step(self, event: Event) -> Step {
        match event {
            Event::Locked => self.confirmed(),
            Event::Finished => LockState { finished: true, exit: true, ..self }.stay(),
            Event::OutputAdded { id } => self.create_lock_surface(id),
            Event::OutputRemoved { id } => self.output_destroyed(id),
            Event::Configure { id, serial, width, height } => self.configure(
                id,
                serial,
                width,
                height,
            ),
            Event::ScaleChanged { id, factor } => self.scale_factor_changed(id, factor),
            Event::CapabilityAdded { capability } => if capability == Capability::Keyboard
                && !self.keyboard {
                Step { state: self, actions: seq![Action::BindKeyboard] }
            } else {
                self.stay()
            },
            Event::KeyboardBound => LockState { keyboard: true, ..self }.stay(),
            Event::CapabilityRemoved { capability } => if capability == Capability::Keyboard
                && self.keyboard {
                Step {
                    state: LockState { keyboard: false, ..self },
                    actions: seq![Action::ReleaseKeyboard],
                }
            } else {
                self.stay()
            },
            Event::Key { keysym, text } => self.press_key(keysym, text::view_of(text)),
            Event::Modifiers { caps_lock } => if caps_lock != self.caps_lock {
                Step {
                    state: LockState { caps_lock, ..self },
                    actions: seq![Action::DrawAll],
                }
            } else {
                self.stay()
            },
            Event::Auth { event } => self.auth(event),
            Event::Idle => if self.phase == Phase::Unlocking {
                self.stay()
            } else {
                Step { state: self, actions: seq![Action::DrawAll] }
            },
        }
    }

    /// What holds of the locker at all times.
    pub open spec fn inv(self) -> bool {
        // Nothing that was typed is a control character.
        &&& forall|i: int| 0 <= i < self.password.len() ==> !text::control(#[trigger] self.password[i])
        // The lock is given up by the unlock request, and by nothing else.
        &&& self.lock == !self.unlocked
        // The request goes out only under a confirmed lock.
        &&& self.unlocked ==> self.locked
        &&& self.phase == Phase::Unlocking ==> self.unlocked
        // The locker leaves once it has sent the request or the compositor has ended the lock.
        &&& self.exit == (self.unlocked || self.finished)
        // There is nothing to wait for once the lock is confirmed.
        &&& self.unlock_when_locked ==> !self.locked
        // Surfaces exist only under the lock, and are rendered on once configured.
        &&& !self.lock ==> self.outputs.dom() =~= Set::empty()
        &&& forall|id: u32| #[trigger]
            self.outputs.contains_key(id) ==> self.outputs[id].rendering
                == self.outputs[id].configured
    }

    /// What is painted on a screen of the given size, in order.
    pub open spec fn paints(self, width: u32, height: u32) -> Seq<scene::Paint> {
        scene::paints(width, height, scene::dots_for(self.password))
    }

    /// The lines of text on a screen of the given size.
    pub open spec fn labels(self, width: u32, height: u32) -> Seq<scene::Label<Seq<char>>> {
        scene::labels(
            width,
            height,
            self.username,
            scene::status_line(self.phase, self.status, self.caps_lock),
        )
    }
}

} // verus!
