//! Semantic input events and their two sources: a keyboard mapping and a
//! cursor click router.
//!
//! Keyboard hardware events arrive as (key, state, scan code) triples; the
//! mapping turns them into controller-agnostic actions with milli-scaled
//! magnitudes. Clicks are routed to circular listeners: of all listeners the
//! cursor falls on, exactly those sharing the lowest z coordinate receive
//! the click, a single deterministic top-object policy.

use vstd::prelude::*;

verus! {

use crate::collision::collides;
use crate::units::POS_WANDER_MAX;
use crate::units::RADIUS_MAX;

/// Registration marker for the input passes.
pub struct InputPlugin;

/// Whether a key or button went down or up.
#[derive(Clone, Copy, Debug, PartialEq, Eq, Structural)]
pub enum KeyState {
    Pressed,
    Released,
}

/// A controller-agnostic input signal; axis magnitudes are milli-scaled,
/// so full forward thrust is `Thrust(1000)`.
#[derive(Clone, Copy, Debug, PartialEq, Eq, Structural)]
pub enum InputAction {
    Thrust(i64),
    Turn(i64),
    Shoot,
}

/// One semantic input event, remembering the physical key it came from.
#[derive(Clone, Copy, Debug, PartialEq, Eq, Structural)]
pub struct InputEvent {
    pub action: InputAction,
    pub state: KeyState,
    pub scan_code: u32,
}

/// The physical keys the keyboard mapping knows about.
#[derive(Clone, Copy, Debug, PartialEq, Eq, Structural)]
pub enum Key {
    W,
    A,
    S,
    D,
    Up,
    Down,
    Left,
    Right,
    Space,
    Other,
}

/// The fixed key-to-action table: W/Up thrust forward, S/Down thrust
/// backward, A/Left turn counter-clockwise, D/Right turn clockwise,
/// Space shoots; anything else is ignored.
pub open spec fn key_action_spec(key: Key) -> Option<InputAction> {
    match key {
        Key::W | Key::Up => Some(InputAction::Thrust(1_000)),
        Key::S | Key::Down => Some(InputAction::Thrust(-1_000i64)),
        Key::A | Key::Left => Some(InputAction::Turn(1_000)),
        Key::D | Key::Right => Some(InputAction::Turn(-1_000i64)),
        Key::Space => Some(InputAction::Shoot),
        Key::Other => None,
    }
}

/// The semantic events a batch of keyboard events maps to, in order,
/// dropping unmapped keys.
pub open spec fn keyboard_events_spec(keys: Seq<(Key, KeyState, u32)>) -> Seq<InputEvent>
    decreases keys.len(),
{
    if keys.len() == 0 {
        Seq::empty()
    } else {
        let (key, state, scan_code) = keys.last();
        let head = keyboard_events_spec(keys.drop_last());
        match key_action_spec(key) {
            Some(action) => head.push(InputEvent { action, state, scan_code }),
            None => head,
        }
    }
}

/// Map one tick's keyboard events to semantic input events.
pub fn system_keyboard_input(keys: &Vec<(Key, KeyState, u32)>) -> (events: Vec<InputEvent>)
    ensures
        events@ == keyboard_events_spec(keys@),
{
    let mut events: Vec<InputEvent> = Vec::new();
    for i in 0..keys.len()
        invariant
            events@ == keyboard_events_spec(keys@.take(i as int)),
    {
        let (key, state, scan_code) = keys[i];
        let action_opt = match key {
            Key::W | Key::Up => Some(InputAction::Thrust(1_000)),
            Key::S | Key::Down => Some(InputAction::Thrust(-1_000)),
            Key::A | Key::Left => Some(InputAction::Turn(1_000)),
            Key::D | Key::Right => Some(InputAction::Turn(-1_000)),
            Key::Space => Some(InputAction::Shoot),
            Key::Other => None,
        };
        if let Some(action) = action_opt {
            events.push(InputEvent { action, state, scan_code });
        }
        proof {
            assert(keys@.take(i + 1).drop_last() =~= keys@.take(i as int));
            assert(keys@.take(i + 1).last() == keys@[i as int]);
        }
    }
    proof {
        assert(keys@.take(keys@.len() as int) =~= keys@);
    }
    events
}

/// A circular click listener: a position, a z layer and a hit radius.
#[derive(Clone, Copy, Debug, PartialEq, Eq, Structural)]
pub struct ClickListener {
    pub x: i64,
    pub y: i64,
    pub z: i64,
    pub radius: i64,
}

impl ClickListener {
    /// Coordinate and radius ranges the hit test is exact for.
    pub open spec fn wf(self) -> bool {
        &&& -POS_WANDER_MAX <= self.x <= POS_WANDER_MAX
        &&& -POS_WANDER_MAX <= self.y <= POS_WANDER_MAX
        &&& 0 <= self.radius <= RADIUS_MAX
    }

    /// Whether the cursor falls on this listener: within its radius,
    /// boundary included.
    pub open spec fn hit_spec(self, cx: int, cy: int) -> bool {
        collides(self.x as int, self.y as int, self.radius as int, cx, cy, 0)
    }
}

/// Route one click at `(cx, cy)` to listeners: returns the indices of
/// exactly those listeners the cursor falls on whose z coordinate is
/// minimal among all listeners the cursor falls on, in ascending order.
pub fn system_click_input(listeners: &Vec<ClickListener>, cx: i64, cy: i64)
    -> (clicked: Vec<usize>)
    requires
        forall|i: int| 0 <= i < listeners@.len() ==> (#[trigger] listeners@[i]).wf(),
        -POS_WANDER_MAX <= cx <= POS_WANDER_MAX,
        -POS_WANDER_MAX <= cy <= POS_WANDER_MAX,
    ensures
        forall|k: int| 0 <= k < clicked@.len() ==> {
            let i = #[trigger] clicked@[k];
            &&& i < listeners@.len()
            &&& listeners@[i as int].hit_spec(cx as int, cy as int)
            &&& forall|j: int| 0 <= j < listeners@.len()
                    && (#[trigger] listeners@[j]).hit_spec(cx as int, cy as int)
                ==> listeners@[i as int].z <= listeners@[j].z
        },
        forall|i: int| 0 <= i < listeners@.len()
            && (#[trigger] listeners@[i]).hit_spec(cx as int, cy as int)
            && (forall|j: int| 0 <= j < listeners@.len()
                    && (#[trigger] listeners@[j]).hit_spec(cx as int, cy as int)
                ==> listeners@[i].z <= listeners@[j].z)
            ==> exists|k: int| 0 <= k < clicked@.len() && clicked@[k] == i,
{
    let mut top_z: Option<i64> = None;
    for i in 0..listeners.len()
        invariant
            -POS_WANDER_MAX <= cx <= POS_WANDER_MAX,
            -POS_WANDER_MAX <= cy <= POS_WANDER_MAX,
            forall|j: int| 0 <= j < listeners@.len() ==> (#[trigger] listeners@[j]).wf(),
            top_z matches Some(m) ==> exists|j: int| 0 <= j < i
                && (#[trigger] listeners@[j]).hit_spec(cx as int, cy as int)
                && listeners@[j].z == m,
            forall|j: int| 0 <= j < i
                && (#[trigger] listeners@[j]).hit_spec(cx as int, cy as int)
                ==> (top_z matches Some(m) && m <= listeners@[j].z),
    {
        let l = listeners[i];
        if crate::collision::Collider::is_collision(
            l.x, l.y, &crate::collision::Collider { radius: l.radius },
            cx, cy, &crate::collision::Collider { radius: 0 })
        {
            match top_z {
                None => { top_z = Some(l.z); }
                Some(m) => {
                    if l.z < m {
                        top_z = Some(l.z);
                    }
                }
            }
        }
    }
    let mut clicked: Vec<usize> = Vec::new();
    match top_z {
        None => clicked,
        Some(m) => {
            for i in 0..listeners.len()
                invariant
                    -POS_WANDER_MAX <= cx <= POS_WANDER_MAX,
                    -POS_WANDER_MAX <= cy <= POS_WANDER_MAX,
                    forall|j: int| 0 <= j < listeners@.len() ==> (#[trigger] listeners@[j]).wf(),
                    exists|j: int| 0 <= j < listeners@.len()
                        && (#[trigger] listeners@[j]).hit_spec(cx as int, cy as int)
                        && listeners@[j].z == m,
                    forall|j: int| 0 <= j < listeners@.len()
                        && (#[trigger] listeners@[j]).hit_spec(cx as int, cy as int)
                        ==> m <= listeners@[j].z,
                    forall|k: int| 0 <= k < clicked@.len() ==> {
                        let t = #[trigger] clicked@[k];
                        &&& t < i
                        &&& listeners@[t as int].hit_spec(cx as int, cy as int)
                        &&& listeners@[t as int].z == m
                    },
                    forall|j: int| 0 <= j < i
                        && (#[trigger] listeners@[j]).hit_spec(cx as int, cy as int)
                        && listeners@[j].z == m
                        ==> exists|k: int| 0 <= k < clicked@.len() && clicked@[k] == j,
            {
                let l = listeners[i];
                if crate::collision::Collider::is_collision(
                    l.x, l.y, &crate::collision::Collider { radius: l.radius },
                    cx, cy, &crate::collision::Collider { radius: 0 })
                {
                    if l.z == m {
                        let ghost pre = clicked@;
                        clicked.push(i);
                        proof {
                            assert forall|j: int| 0 <= j < i as int + 1
                                && (#[trigger] listeners@[j]).hit_spec(cx as int, cy as int)
                                && listeners@[j].z == m
                                implies exists|k: int|
                                    0 <= k < clicked@.len() && clicked@[k] == j by {
                                if j == i as int {
                                    assert(clicked@[pre.len() as int] == i as usize);
                                } else {
                                    let k0 = choose|k: int| 0 <= k < pre.len() && pre[k] == j;
                                    assert(clicked@[k0] == pre[k0]);
                                }
                            };
                        }
                    }
                }
            }
            clicked
        }
    }
}

} // verus!
