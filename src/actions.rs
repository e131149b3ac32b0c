use vstd::prelude::*;

verus! {

/// A set of agent actions, one bit per action; actions compose by union.
#[derive(Clone, Copy, Debug, PartialEq, Eq, Structural)]
pub struct Actions {
    pub bits: u32,
}

pub const IDLE: u32 = 1;

pub const FORWARD: u32 = 2;

pub const BACKWARD: u32 = 4;

pub const LEFT: u32 = 8;

pub const RIGHT: u32 = 16;

pub const TURN_LEFT: u32 = 32;

pub const TURN_RIGHT: u32 = 64;

pub const SHOOT: u32 = 128;

/// Speed given to an agent by one movement action.
pub const AGENT_SPEED: i32 = 10;

impl Actions {
    /// Every bit of `flag` is set.
    pub open spec fn has(self, flag: u32) -> bool {
        self.bits & flag == flag
    }

    pub fn from_bits(bits: u32) -> (r: Actions)
        ensures
            r.bits == bits,
    {
        Actions { bits }
    }

    pub fn contains(&self, other: Actions) -> (r: bool)
        ensures
            r == self.has(other.bits),
    {
        self.bits & other.bits == other.bits
    }

    pub fn union(&self, other: Actions) -> (r: Actions)
        ensures
            r.bits == self.bits | other.bits,
    {
        Actions { bits: self.bits | other.bits }
    }
}

/// Why an action payload was not accepted.
#[derive(Clone, Copy, Debug, PartialEq, Eq, Structural)]
pub enum ActionError {
    /// The payload is not one of the action tokens (this covers bytes that are not UTF-8).
    Unrecognized,
}

pub open spec fn forward_token() -> Seq<u8> {
    seq!['F' as u8, 'O' as u8, 'R' as u8, 'W' as u8, 'A' as u8, 'R' as u8, 'D' as u8]
}

pub open spec fn backward_token() -> Seq<u8> {
    seq![
        'B' as u8,
        'A' as u8,
        'C' as u8,
        'K' as u8,
        'W' as u8,
        'A' as u8,
        'R' as u8,
        'D' as u8,
    ]
}

pub open spec fn left_token() -> Seq<u8> {
    seq!['L' as u8, 'E' as u8, 'F' as u8, 'T' as u8]
}

pub open spec fn right_token() -> Seq<u8> {
    seq!['R' as u8, 'I' as u8, 'G' as u8, 'H' as u8, 'T' as u8]
}

pub open spec fn turn_left_token() -> Seq<u8> {
    seq!['T' as u8, 'U' as u8, 'R' as u8, 'N' as u8, '_' as u8] + left_token()
}

pub open spec fn turn_right_token() -> Seq<u8> {
    seq!['T' as u8, 'U' as u8, 'R' as u8, 'N' as u8, '_' as u8] + right_token()
}

pub open spec fn shoot_token() -> Seq<u8> {
    seq!['S' as u8, 'H' as u8, 'O' as u8, 'O' as u8, 'T' as u8]
}

/// The action bits named by a raw payload: the empty payload is the idle action,
/// each token names its single action, anything else names none.
pub open spec fn action_bits_of(p: Seq<u8>) -> Option<u32> {
    if p.len() == 0 {
        Some(IDLE)
    } else if p == forward_token() {
        Some(FORWARD)
    } else if p == backward_token() {
        Some(BACKWARD)
    } else if p == left_token() {
        Some(LEFT)
    } else if p == right_token() {
        Some(RIGHT)
    } else if p == turn_left_token() {
        Some(TURN_LEFT)
    } else if p == turn_right_token() {
        Some(TURN_RIGHT)
    } else if p == shoot_token() {
        Some(SHOOT)
    } else {
        None
    }
}

/// The result of parsing a raw payload.
pub open spec fn parsed(p: Seq<u8>) -> Result<Actions, ActionError> {
    match action_bits_of(p) {
        Some(b) => Ok(Actions { bits: b }),
        None => Err(ActionError::Unrecognized),
    }
}

fn same_bytes(p: &[u8], t: &[u8]) -> (r: bool)
    ensures
        r == (p@ == t@),
{
    if p.len() != t.len() {
        return false;
    }
    let mut i: usize = 0;
    while i < p.len()
        invariant
            i <= p.len(),
            p.len() == t.len(),
            forall|j: int| 0 <= j < i ==> p@[j] == t@[j],
        decreases p.len() - i,
    {
        if p[i] != t[i] {
            return false;
        }
        i += 1;
    }
    assert(p@ =~= t@);
    true
}

/// Parses a raw action payload into action flags.
pub fn parse_action(p: &[u8]) -> (r: Result<Actions, ActionError>)
    ensures
        r == parsed(p@),
{
    let forward = [
        'F' as u8, 'O' as u8, 'R' as u8, 'W' as u8, 'A' as u8, 'R' as u8, 'D' as u8,
    ];
    let backward = [
        'B' as u8, 'A' as u8, 'C' as u8, 'K' as u8, 'W' as u8, 'A' as u8, 'R' as u8, 'D' as u8,
    ];
    let left = ['L' as u8, 'E' as u8, 'F' as u8, 'T' as u8];
    let right = ['R' as u8, 'I' as u8, 'G' as u8, 'H' as u8, 'T' as u8];
    let turn_left = [
        'T' as u8, 'U' as u8, 'R' as u8, 'N' as u8, '_' as u8, 'L' as u8, 'E' as u8, 'F' as u8,
        'T' as u8,
    ];
    let turn_right = [
        'T' as u8, 'U' as u8, 'R' as u8, 'N' as u8, '_' as u8, 'R' as u8, 'I' as u8, 'G' as u8,
        'H' as u8, 'T' as u8,
    ];
    let shoot = ['S' as u8, 'H' as u8, 'O' as u8, 'O' as u8, 'T' as u8];
    assert(forward@ =~= forward_token());
    assert(backward@ =~= backward_token());
    assert(left@ =~= left_token());
    assert(right@ =~= right_token());
    assert(turn_left@ =~= turn_left_token());
    assert(turn_right@ =~= turn_right_token());
    assert(shoot@ =~= shoot_token());
    if p.len() == 0 {
        Ok(Actions { bits: IDLE })
    } else if same_bytes(p, &forward) {
        Ok(Actions { bits: FORWARD })
    } else if same_bytes(p, &backward) {
        Ok(Actions { bits: BACKWARD })
    } else if same_bytes(p, &left) {
        Ok(Actions { bits: LEFT })
    } else if same_bytes(p, &right) {
        Ok(Actions { bits: RIGHT })
    } else if same_bytes(p, &turn_left) {
        Ok(Actions { bits: TURN_LEFT })
    } else if same_bytes(p, &turn_right) {
        Ok(Actions { bits: TURN_RIGHT })
    } else if same_bytes(p, &shoot) {
        Ok(Actions { bits: SHOOT })
    } else {
        Err(ActionError::Unrecognized)
    }
}

/// What one control step asks of an agent's body: speeds along its own forward and
/// right axes, a turn direction (positive is to the left) and whether it fires.
#[derive(Clone, Copy, Debug, PartialEq, Eq, Structural)]
pub struct Motion {
    pub forward: i32,
    pub right: i32,
    pub turn: i32,
    pub shoot: bool,
}

pub open spec fn speed_if(b: bool) -> i32 {
    if b {
        AGENT_SPEED
    } else {
        0
    }
}

/// The motion of an agent for one step. A dead agent stands still and does not fire;
/// a collision stops the body but not a shot; a later turn overrides an earlier one.
pub open spec fn motion_of(action: Option<Actions>, alive: bool, collided: bool) -> Motion {
    if !alive {
        Motion { forward: 0, right: 0, turn: 0, shoot: false }
    } else {
        match action {
            None => Motion { forward: 0, right: 0, turn: 0, shoot: false },
            Some(a) => {
                let shoot = a.has(SHOOT);
                if collided {
                    Motion { forward: 0, right: 0, turn: 0, shoot }
                } else {
                    Motion {
                        forward: (speed_if(a.has(FORWARD)) - speed_if(a.has(BACKWARD))) as i32,
                        right: (speed_if(a.has(RIGHT)) - speed_if(a.has(LEFT))) as i32,
                        turn: if a.has(TURN_RIGHT) {
                            -1i32
                        } else if a.has(TURN_LEFT) {
                            1i32
                        } else {
                            0i32
                        },
                        shoot,
                    }
                }
            },
        }
    }
}

fn speed_when(b: bool) -> (r: i32)
    ensures
        r == speed_if(b),
{
    if b {
        AGENT_SPEED
    } else {
        0
    }
}

/// Turns an agent's parsed action into the motion the engine applies to its body.
pub fn control_agent(action: Option<Actions>, alive: bool, collided: bool) -> (m: Motion)
    ensures
        m == motion_of(action, alive, collided),
{
    if !alive {
        return Motion { forward: 0, right: 0, turn: 0, shoot: false };
    }
    match action {
        None => Motion { forward: 0, right: 0, turn: 0, shoot: false },
        Some(a) => {
            let shoot = a.contains(Actions { bits: SHOOT });
            if collided {
                Motion { forward: 0, right: 0, turn: 0, shoot }
            } else {
                let forward = speed_when(a.contains(Actions { bits: FORWARD })) - speed_when(
                    a.contains(Actions { bits: BACKWARD }),
                );
                let right = speed_when(a.contains(Actions { bits: RIGHT })) - speed_when(
                    a.contains(Actions { bits: LEFT }),
                );
                let turn: i32 = if a.contains(Actions { bits: TURN_RIGHT }) {
                    -1
                } else if a.contains(Actions { bits: TURN_LEFT }) {
                    1
                } else {
                    0
                };
                Motion { forward, right, turn, shoot }
            }
        },
    }
}

} // verus!
