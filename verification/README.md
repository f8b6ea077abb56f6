# cce-lock

The session locker of the cce desktop: an `ext-session-lock-v1` client that locks the session,
paints a password prompt on every output, and releases the session only when PAM has accepted the
user's credentials.

- `src/` is a Verus library that holds every decision: the credential check, the PAM conversation,
  the preflight, the state machine from events to actions, and the layout of the screen. It does
  no input or output. `src/laws.rs` proves what holds over every sequence of events, among it that
  the unlock request is sent only after credentials were accepted and the lock was confirmed, at
  most once, and never after the compositor has ended the lock.
- `app/` is the program around it: Wayland, libpam, threads, and the renderer.
- `tests/` runs the library on concrete values. The layout is compared with the same sums in
  floating point.

## What is trusted

`String::push`, `String::pop`, `String::clear` and `String::into_bytes` are given contracts in
`src/text.rs` that Verus believes; everything else in `src/` is proved.
