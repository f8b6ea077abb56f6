//! The decisions of a session locker: what each event leads to, what is painted, and when the
//! session is released.
//!
//! The locker asks the compositor to lock the session, shows a password prompt on every output,
//! and sends the unlock request only when PAM has accepted the user's credentials. The compositor
//! hides the session the moment the lock is granted, and keeps it locked if the locker dies. So
//! the dangerous failure is not a crash but a locker that can never succeed, which is why the lock
//! is not even asked for before PAM has been seen to start.
//!
//! - [`auth`] carries a credential check from one PAM call to the next, answers the PAM
//!   conversation, and holds the preflight.
//! - [`state`] is the locker as a state machine over mathematical values, and [`locker`] is the
//!   running one, which follows it step by step.
//! - [`scene`] lays out the lock screen, [`surface`] measures the outputs, and [`single`] rounds
//!   as the renderer does.
//! - [`laws`] holds what is promised over every sequence of events: when the session is released,
//!   and what a key can and cannot do. [`typing`] follows what is typed from the keys to the PAM
//!   stack, [`monitors`] follows the outputs and their surfaces, and [`display`] says what the user
//!   gets to see, and that the locker is for the user it began with.
//!
//! Events come in as plain values and actions go out as plain values: talking to the compositor,
//! to PAM and to the display is left to the program around this library.

pub mod auth;
pub mod display;
pub mod laws;
pub mod locker;
pub mod monitors;
pub mod pam;
pub mod scene;
pub mod single;
pub mod state;
pub mod surface;
pub mod text;
pub mod typing;
