//! Which outputs have a lock surface, and what becomes of each: over every sequence of events, told
//! by the events alone. And what each event asks to be done.

use vstd::prelude::*;

use crate::laws;
use crate::scene::Phase;
use crate::state;
use crate::state::{Action, Event, LockState};
use crate::surface;
use crate::surface::LockOutput;

verus! {

/// The output that an event is about.
pub open spec fn concerns(event: Event, id: u32) -> bool {
    match event {
        Event::OutputAdded { id: n } => n == id,
        Event::OutputRemoved { id: n } => n == id,
        Event::Configure { id: n, serial, width, height } => n == id,
        Event::ScaleChanged { id: n, factor } => n == id,
        _ => false,
    }
}

/// An event leaves every output that it is not about exactly as it was, unless it releases the
/// session: neither added nor forgotten, and of the same size, scale and condition.
pub proof fn other_outputs_are_left_alone(s: LockState, event: Event, id: u32)
    requires
        !concerns(event, id),
    ensures
        ({
            let t = s.step(event).state;
            t.lock == s.lock || !(event is Locked || event is Auth) ==> {
                &&& t.outputs.contains_key(id) <==> s.outputs.contains_key(id)
                &&& s.outputs.contains_key(id) ==> t.outputs[id] == s.outputs[id]
            }
        }),
{
}

/// A configure or a change of scale adds no output and forgets none, be it about one that has a
/// surface or not.
pub proof fn configuring_keeps_every_output(s: LockState, event: Event)
    requires
        event is Configure || event is ScaleChanged,
    ensures
        s.step(event).state.outputs.dom() == s.outputs.dom(),
{
    assert(s.step(event).state.outputs.dom() =~= s.outputs.dom());
}

/// What an event makes of the surface of an output, if it has one.
pub open spec fn reshaped(out: Option<LockOutput>, event: Event, id: u32) -> Option<LockOutput> {
    if !concerns(event, id) {
        out
    } else {
        match event {
            Event::OutputAdded { id: n } => if out is None {
                Some(
                    LockOutput {
                        width: 0,
                        height: 0,
                        scale: 1,
                        configured: false,
                        rendering: false,
                    },
                )
            } else {
                out
            },
            Event::OutputRemoved { id: n } => None,
            Event::Configure { id: n, serial, width, height } => match out {
                Some(o) => Some(
                    LockOutput { width, height, scale: o.scale, configured: true, rendering: true },
                ),
                None => None,
            },
            Event::ScaleChanged { id: n, factor } => match out {
                Some(o) => Some(
                    LockOutput {
                        width: o.width,
                        height: o.height,
                        scale: factor,
                        configured: o.configured,
                        rendering: o.rendering,
                    },
                ),
                None => None,
            },
            _ => out,
        }
    }
}

/// The surface of an output after the given events, if it has one.
pub open spec fn surface_after(events: Seq<Event>, id: u32) -> Option<LockOutput>
    decreases events.len(),
{
    if events.len() == 0 || laws::released(events) {
        None
    } else {
        reshaped(surface_after(events.drop_last(), id), events.last(), id)
    }
}

/// The surface of an output, if it has one.
pub open spec fn surface_of(s: LockState, id: u32) -> Option<LockOutput> {
    if s.outputs.contains_key(id) {
        Some(s.outputs[id])
    } else {
        None
    }
}

/// Every event that does not release the session makes of a surface what [`reshaped`] says; the
/// release takes every surface away.
pub proof fn events_reshape_surfaces(s: LockState, event: Event, id: u32)
    requires
        s.inv(),
        !s.unlocked,
    ensures
        !s.step(event).state.unlocked ==> surface_of(s.step(event).state, id) == reshaped(
            surface_of(s, id),
            event,
            id,
        ),
        s.step(event).state.unlocked ==> surface_of(s.step(event).state, id) is None,
{
    laws::inv_is_kept(s, event);
    held_surfaces_are_reshaped(s, event, id);
    assert(s.lock == !s.unlocked);
    assert(s.step(event).state.lock == !s.step(event).state.unlocked);
}

/// The same in terms of whether the lock is held.
proof fn held_surfaces_are_reshaped(s: LockState, event: Event, id: u32)
    requires
        s.lock,
    ensures
        s.step(event).state.lock ==> surface_of(s.step(event).state, id) == reshaped(
            surface_of(s, id),
            event,
            id,
        ),
        !s.step(event).state.lock ==> surface_of(s.step(event).state, id) is None,
{
    let t = s.step(event).state;
    if !concerns(event, id) {
        other_outputs_are_left_alone(s, event, id);
        if !t.lock {
            assert(t.outputs == Map::<u32, LockOutput>::empty());
        }
    } else {
        assert(t.lock);
        match event {
            Event::OutputAdded { id: n } => {
                assert(surface_of(t, id) == reshaped(surface_of(s, id), event, id));
            },
            Event::OutputRemoved { id: n } => {
                assert(surface_of(t, id) is None);
            },
            Event::Configure { id: n, serial, width, height } => {
                assert(surface_of(t, id) == reshaped(surface_of(s, id), event, id));
            },
            Event::ScaleChanged { id: n, factor } => {
                assert(surface_of(t, id) == reshaped(surface_of(s, id), event, id));
            },
            _ => {},
        }
    }
}

/// The surface of every output is what the events tell.
pub proof fn surfaces_follow_the_events(username: Seq<char>, events: Seq<Event>, id: u32)
    ensures
        ({
            let s = laws::after(state::initial(username), events);
            &&& s.outputs.contains_key(id) <==> surface_after(events, id) is Some
            &&& s.outputs.contains_key(id) ==> s.outputs[id] == surface_after(events, id)->0
        }),
    decreases events.len(),
{
    laws::unlock_is_exact(username, events);
    laws::flags_tell_the_past(username, events);
    if events.len() > 0 {
        let before = events.drop_last();
        let s = laws::after(state::initial(username), before);
        surfaces_follow_the_events(username, before, id);
        laws::flags_tell_the_past(username, before);
        laws::request_is_what_unlocks(s, events.last());
        assert(laws::after(state::initial(username), events) == s.step(events.last()).state);
        if !s.unlocked {
            events_reshape_surfaces(s, events.last(), id);
        }
        assert(laws::after(state::initial(username), events).unlocked ==> !laws::after(
            state::initial(username),
            events,
        ).outputs.dom().contains(id));
    }
}

/// Whether an output was added in the course of the events and not removed since.
pub open spec fn connected(events: Seq<Event>, id: u32) -> bool {
    exists|i: int|
        #![trigger events[i]]
        {
            &&& 0 <= i < events.len()
            &&& events[i] == Event::OutputAdded { id }
            &&& forall|j: int|
                i < j < events.len() ==> #[trigger] events[j] != (Event::OutputRemoved { id })
        }
}

/// What was connected before the last event is still so, unless that event removes it.
proof fn connected_before(events: Seq<Event>, id: u32)
    requires
        events.len() > 0,
    ensures
        connected(events, id) <==> events.last() == (Event::OutputAdded { id }) || (connected(
            events.drop_last(),
            id,
        ) && events.last() != (Event::OutputRemoved { id })),
{
    let before = events.drop_last();
    let n = events.len() - 1;
    assert(events[n] == events.last());
    if connected(events, id) {
        let i = choose|i: int|
            #![trigger events[i]]
            {
                &&& 0 <= i < events.len()
                &&& events[i] == Event::OutputAdded { id }
                &&& forall|j: int|
                    i < j < events.len() ==> #[trigger] events[j] != (Event::OutputRemoved { id })
            };
        if i < n {
            assert(before[i] == Event::OutputAdded { id });
            assert forall|j: int| i < j < before.len() implies #[trigger] before[j] != (
            Event::OutputRemoved { id }) by {
                assert(events[j] == before[j]);
            }
        }
    }
    if connected(before, id) && events.last() != (Event::OutputRemoved { id }) {
        let i = choose|i: int|
            #![trigger before[i]]
            {
                &&& 0 <= i < before.len()
                &&& before[i] == Event::OutputAdded { id }
                &&& forall|j: int|
                    i < j < before.len() ==> #[trigger] before[j] != (Event::OutputRemoved { id })
            };
        assert(events[i] == Event::OutputAdded { id });
        assert forall|j: int| i < j < events.len() implies #[trigger] events[j] != (
        Event::OutputRemoved { id }) by {
            if j < n {
                assert(before[j] == events[j]);
            }
        }
    }
}

/// As long as the session is not released, the outputs with a surface are exactly those that were
/// added and not removed since. Afterwards there is none.
pub proof fn outputs_are_the_connected_ones(username: Seq<char>, events: Seq<Event>, id: u32)
    ensures
        !laws::released(events) ==> (laws::after(
            state::initial(username),
            events,
        ).outputs.contains_key(id) <==> connected(events, id)),
        laws::released(events) ==> !laws::after(
            state::initial(username),
            events,
        ).outputs.contains_key(id),
    decreases events.len(),
{
    surfaces_follow_the_events(username, events, id);
    if events.len() > 0 && !laws::released(events) {
        let before = events.drop_last();
        laws::unlock_is_exact(username, before);
        laws::unlock_is_exact(username, events);
        laws::flags_tell_the_past(username, before);
        laws::request_is_what_unlocks(
            laws::after(state::initial(username), before),
            events.last(),
        );
        outputs_are_the_connected_ones(username, before, id);
        surfaces_follow_the_events(username, before, id);
        connected_before(events, id);
    }
}

/// How far the lock has come is told by the events.
pub proof fn lock_follows_the_events(username: Seq<char>, events: Seq<Event>)
    ensures
        ({
            let s = laws::after(state::initial(username), events);
            &&& s.lock == !laws::released(events)
            &&& s.unlocked == laws::released(events)
            &&& s.locked == laws::confirmed(events)
            &&& s.finished == laws::ended(events)
            &&& s.unlock_when_locked == (laws::accepted(events) && !laws::confirmed(events))
            &&& s.exit == (laws::released(events) || laws::ended(events))
        }),
{
    laws::flags_tell_the_past(username, events);
    laws::unlock_is_exact(username, events);
}

/// What each event about an output asks to be done, in order. A configure is acknowledged first,
/// then the renderer is brought to the new size at the scale of the surface, then it is painted; a
/// change of scale is announced first. An event about an output without a surface asks for
/// nothing, and an output gets a surface while the lock is held, unless it has one.
pub proof fn what_outputs_ask_for(s: LockState, event: Event)
    ensures
        ({
            let actions = s.step(event).actions;
            match event {
                Event::OutputAdded { id } => if s.lock && !s.outputs.contains_key(id) {
                    actions == seq![Action::<Seq<char>>::CreateSurface { id }]
                } else {
                    actions.len() == 0
                },
                Event::OutputRemoved { id } => if s.outputs.contains_key(id) {
                    actions == seq![Action::<Seq<char>>::DestroySurface { id }]
                } else {
                    actions.len() == 0
                },
                Event::Configure { id, serial, width, height } => if !s.outputs.contains_key(id) {
                    actions.len() == 0
                } else if s.outputs[id].rendering {
                    let scale = s.outputs[id].scale;
                    actions == seq![
                        Action::<Seq<char>>::AckConfigure { id, serial },
                        Action::ResizeRenderer {
                            id,
                            width: surface::spec_pixels(width, scale),
                            height: surface::spec_pixels(height, scale),
                        },
                        Action::Draw { id },
                    ]
                } else {
                    let scale = s.outputs[id].scale;
                    actions == seq![
                        Action::<Seq<char>>::AckConfigure { id, serial },
                        Action::SetBufferScale { id, scale: surface::spec_buffer_scale(scale) },
                        Action::StartRenderer {
                            id,
                            width: surface::spec_pixels(width, scale),
                            height: surface::spec_pixels(height, scale),
                        },
                        Action::Draw { id },
                    ]
                },
                Event::ScaleChanged { id, factor } => if !s.outputs.contains_key(id) {
                    actions.len() == 0
                } else if s.outputs[id].rendering {
                    actions == seq![
                        Action::<Seq<char>>::SetBufferScale { id, scale: factor },
                        Action::ResizeRenderer {
                            id,
                            width: surface::spec_pixels(s.outputs[id].width, factor),
                            height: surface::spec_pixels(s.outputs[id].height, factor),
                        },
                        Action::Draw { id },
                    ]
                } else {
                    actions == seq![
                        Action::<Seq<char>>::SetBufferScale { id, scale: factor },
                        Action::Draw { id },
                    ]
                },
                _ => true,
            }
        }),
{
}

/// The renderer always has the size of its surface in physical pixels: within 24 bits the product
/// of the size and the scale that the surface has from then on, both when it is started and when it
/// is resized.
pub proof fn renderer_has_the_size_of_the_surface(
    s: LockState,
    event: Event,
    id: u32,
    width: u32,
    height: u32,
)
    requires
        s.step(event).actions.contains(Action::StartRenderer { id, width, height })
            || s.step(event).actions.contains(Action::ResizeRenderer { id, width, height }),
    ensures
        ({
            let out = s.step(event).state.outputs[id];
            &&& s.step(event).state.outputs.contains_key(id)
            &&& out.rendering
            &&& 0 < out.scale <= 16777216 && out.width <= 16777216 && out.width * out.scale
                <= 16777216 ==> width == out.width * out.scale
            &&& 0 < out.scale <= 16777216 && out.height <= 16777216 && out.height * out.scale
                <= 16777216 ==> height == out.height * out.scale
            &&& s.step(event).actions.contains(Action::StartRenderer { id, width, height })
                <==> !s.outputs[id].rendering
        }),
{
    what_outputs_ask_for(s, event);
    let next = s.step(event);
    let out = next.state.outputs[id];
    assert(event is Configure || event is ScaleChanged);
    assert(s.outputs.contains_key(id));
    assert(!s.outputs[id].rendering ==> next.actions[2] == Action::<Seq<char>>::StartRenderer {
        id,
        width,
        height,
    });
    if 0 < out.scale <= 16777216 && out.width <= 16777216 && out.width * out.scale <= 16777216 {
        surface::pixels_are_the_product(out.width, out.scale);
    }
    if 0 < out.scale <= 16777216 && out.height <= 16777216 && out.height * out.scale <= 16777216 {
        surface::pixels_are_the_product(out.height, out.scale);
    }
}

/// What every other event asks to be done. The release asks for the unlock request and then for
/// every surface to be destroyed; a keyboard is asked for when one is offered and none is held, and
/// given back when it is no longer offered; everything is painted again when Caps Lock changes and
/// when there is nothing else to do, unless the session is being released. For keys see
/// [`crate::typing`].
pub proof fn what_other_events_ask_for(s: LockState, event: Event)
    requires
        s.inv(),
    ensures
        ({
            let actions = s.step(event).actions;
            match event {
                Event::Locked => if s.unlock_when_locked && !s.finished {
                    actions == seq![
                        Action::<Seq<char>>::UnlockAndDestroy,
                        Action::DestroySurfaces,
                    ]
                } else {
                    actions.len() == 0
                },
                Event::Auth { event: told } => if told is Success && s.locked && !s.finished
                    && !s.unlocked {
                    actions == seq![
                        Action::<Seq<char>>::UnlockAndDestroy,
                        Action::DestroySurfaces,
                    ]
                } else {
                    actions.len() == 0
                },
                Event::Finished => actions.len() == 0,
                Event::KeyboardBound => actions.len() == 0,
                Event::CapabilityAdded { capability } => if capability is Keyboard && !s.keyboard {
                    actions == seq![Action::<Seq<char>>::BindKeyboard]
                } else {
                    actions.len() == 0
                },
                Event::CapabilityRemoved { capability } => if capability is Keyboard && s.keyboard {
                    actions == seq![Action::<Seq<char>>::ReleaseKeyboard]
                } else {
                    actions.len() == 0
                },
                Event::Modifiers { caps_lock } => if caps_lock != s.caps_lock {
                    actions == seq![Action::<Seq<char>>::DrawAll]
                } else {
                    actions.len() == 0
                },
                Event::Idle => if s.phase != Phase::Unlocking {
                    actions == seq![Action::<Seq<char>>::DrawAll]
                } else {
                    actions.len() == 0
                },
                _ => true,
            }
        }),
{
}

} // verus!
