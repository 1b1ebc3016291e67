//! The player's control mapper: input events to control state.
//!
//! Axis policy is last-press-wins: a press sets the axis to the key's
//! clamped magnitude and remembers that key; a release zeroes the axis only
//! when it comes from the most recently remembered presser, so releasing a
//! stale key never cancels a newer one. The fire control simply mirrors
//! press and release.

use vstd::prelude::*;

verus! {

use crate::input::InputAction;
use crate::input::InputEvent;
use crate::input::KeyState;
use crate::ship::ShipControls;

/// Registration marker for the player passes.
pub struct PlayerPlugin;

/// Marker attribute for the player's ship entity.
#[derive(Clone, Copy, Debug, PartialEq, Eq, Structural, Default)]
pub struct PlayerMarker;

/// The most recent press remembered per axis.
#[derive(Clone, Copy, Debug, PartialEq, Eq, Structural)]
pub struct PlayerInputMemory {
    pub thrust: Option<InputEvent>,
    pub turn: Option<InputEvent>,
}

impl Default for PlayerInputMemory {
    /// No press remembered yet.
    fn default() -> (m: PlayerInputMemory)
        ensures
            m == (PlayerInputMemory { thrust: None, turn: None }),
    {
        PlayerInputMemory { thrust: None, turn: None }
    }
}

/// The player's full tuning record.
#[derive(Clone, Copy, Debug, PartialEq, Eq, Structural)]
pub struct PlayerConfig {
    pub ship: crate::ship::ShipConfig,
}

/// Clamp an axis magnitude to the milli-scaled unit range.
pub open spec fn clamp_axis_spec(x: int) -> int {
    if x > 1_000 {
        1_000
    } else if x < -1_000 {
        -1_000
    } else {
        x
    }
}

/// The control and memory state after one input event.
pub open spec fn apply_input_spec(c: ShipControls, m: PlayerInputMemory, ev: InputEvent)
    -> (ShipControls, PlayerInputMemory) {
    match ev.action {
        InputAction::Thrust(x) => match ev.state {
            KeyState::Pressed => (
                ShipControls { thrust: clamp_axis_spec(x as int) as i64, ..c },
                PlayerInputMemory { thrust: Some(ev), ..m },
            ),
            KeyState::Released => match m.thrust {
                Some(prev) => if ev.scan_code == prev.scan_code {
                    (ShipControls { thrust: 0, ..c }, m)
                } else {
                    (c, m)
                },
                None => (c, m),
            },
        },
        InputAction::Turn(x) => match ev.state {
            KeyState::Pressed => (
                ShipControls { turn: clamp_axis_spec(x as int) as i64, ..c },
                PlayerInputMemory { turn: Some(ev), ..m },
            ),
            KeyState::Released => match m.turn {
                Some(prev) => if ev.scan_code == prev.scan_code {
                    (ShipControls { turn: 0, ..c }, m)
                } else {
                    (c, m)
                },
                None => (c, m),
            },
        },
        InputAction::Shoot => (
            ShipControls { shoot: ev.state == KeyState::Pressed, ..c },
            m,
        ),
    }
}

/// The control and memory state after the events from position `i` on.
pub open spec fn fold_inputs_spec(c: ShipControls, m: PlayerInputMemory,
    events: Seq<InputEvent>, i: int) -> (ShipControls, PlayerInputMemory)
    decreases events.len() - i,
{
    if i < 0 || i >= events.len() {
        (c, m)
    } else {
        let step = apply_input_spec(c, m, events[i]);
        fold_inputs_spec(step.0, step.1, events, i + 1)
    }
}

/// One event never drives an axis out of the unit range.
pub proof fn lemma_apply_input_wf(c: ShipControls, m: PlayerInputMemory, ev: InputEvent)
    requires
        c.wf(),
    ensures
        apply_input_spec(c, m, ev).0.wf(),
{
}

/// Apply one input event to the player's controls and press memory.
pub fn apply_input(c: &ShipControls, m: &PlayerInputMemory, ev: &InputEvent)
    -> (out: (ShipControls, PlayerInputMemory))
    ensures
        out == apply_input_spec(*c, *m, *ev),
{
    match ev.action {
        InputAction::Thrust(x) => match ev.state {
            KeyState::Pressed => {
                let v = if x > 1_000 { 1_000 } else if x < -1_000 { -1_000 } else { x };
                (ShipControls { thrust: v, ..*c }, PlayerInputMemory { thrust: Some(*ev), ..*m })
            }
            KeyState::Released => match m.thrust {
                Some(prev) => if ev.scan_code == prev.scan_code {
                    (ShipControls { thrust: 0, ..*c }, *m)
                } else {
                    (*c, *m)
                },
                None => (*c, *m),
            },
        },
        InputAction::Turn(x) => match ev.state {
            KeyState::Pressed => {
                let v = if x > 1_000 { 1_000 } else if x < -1_000 { -1_000 } else { x };
                (ShipControls { turn: v, ..*c }, PlayerInputMemory { turn: Some(*ev), ..*m })
            }
            KeyState::Released => match m.turn {
                Some(prev) => if ev.scan_code == prev.scan_code {
                    (ShipControls { turn: 0, ..*c }, *m)
                } else {
                    (*c, *m)
                },
                None => (*c, *m),
            },
        },
        InputAction::Shoot => {
            let pressed = matches!(ev.state, KeyState::Pressed);
            (ShipControls { shoot: pressed, ..*c }, *m)
        }
    }
}

/// Fold one tick's input events into the player's controls and memory,
/// in order.
pub fn system_handle_input(controls: &mut ShipControls, memory: &mut PlayerInputMemory,
    events: &Vec<InputEvent>)
    ensures
        (*final(controls), *final(memory))
            == fold_inputs_spec(*old(controls), *old(memory), events@, 0),
        old(controls).wf() ==> final(controls).wf(),
{
    let ghost c0 = *controls;
    let ghost m0 = *memory;
    for i in 0..events.len()
        invariant
            fold_inputs_spec(*controls, *memory, events@, i as int)
                == fold_inputs_spec(c0, m0, events@, 0),
            c0.wf() ==> controls.wf(),
    {
        let step = apply_input(&*controls, &*memory, &events[i]);
        proof {
            if c0.wf() {
                lemma_apply_input_wf(*controls, *memory, events@[i as int]);
            }
        }
        *controls = step.0;
        *memory = step.1;
    }
    proof {
        assert(fold_inputs_spec(*controls, *memory, events@, events@.len() as int)
            == (*controls, *memory));
    }
}

/// Folding well-formed controls keeps them well-formed.
pub proof fn lemma_fold_inputs_wf(c: ShipControls, m: PlayerInputMemory,
    events: Seq<InputEvent>, i: int)
    requires
        c.wf(),
    ensures
        fold_inputs_spec(c, m, events, i).0.wf(),
    decreases events.len() - i,
{
    if 0 <= i < events.len() {
        let step = apply_input_spec(c, m, events[i]);
        lemma_apply_input_wf(c, m, events[i]);
        lemma_fold_inputs_wf(step.0, step.1, events, i + 1);
    }
}

} // verus!
