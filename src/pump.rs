use vstd::prelude::*;

use crate::actions::{parse_action, parsed, Actions};
use crate::frame::Frame;
use crate::state::{bytes_views, terminated_kept, AIGymState, GymView};

verus! {

/// Where the simulation stands in a round.
#[derive(Clone, Copy, Debug, PartialEq, Eq, Structural)]
pub enum SimPhase {
    /// The world is being spawned.
    Initializing,
    /// Physics and AI tick; actions from the last step are in effect.
    Running,
    /// Waiting at a control point for the next step's actions.
    PausedForControl,
    /// The round has ended; only a reset leaves this phase.
    RoundOver,
}

/// What the engine must do after a tick of the pump.
pub enum SimCommand {
    /// Keep simulating.
    Continue,
    /// Stop physics and publish the environment snapshot (`world::publish_environment`):
    /// a control point was reached.
    Pause,
    /// Apply these actions, one per agent (`None`: no movement), then resume physics.
    Apply(Vec<Option<Actions>>),
    /// Tear the round's entities down and spawn a fresh round.
    Respawn,
    /// Nothing arrived: stay paused.
    Wait,
}

/// Score given for disabling another agent.
pub const KILL_REWARD: i32 = 10;

/// Health taken by one hit.
pub const HIT_DAMAGE: u16 = 100;

/// The simulation-side driver of control steps.
pub struct Pump {
    pub phase: SimPhase,
    /// Simulated time since the last control point, in milliseconds.
    pub elapsed_ms: u64,
    /// An action was consumed and its step has not been recorded yet.
    pub step_open: bool,
}

/// The parsed action of each payload; an unrecognized payload moves nothing.
pub open spec fn actions_of(p: Seq<Seq<u8>>) -> Seq<Option<Actions>> {
    p.map_values(
        |x: Seq<u8>|
            match parsed(x) {
                Ok(a) => Some(a),
                Err(_) => None,
            },
    )
}

/// Which payloads were not recognized.
pub open spec fn rejected_of(p: Seq<Seq<u8>>) -> Seq<bool> {
    p.map_values(|x: Seq<u8>| parsed(x) is Err)
}

/// Termination flags after a tick in which the agents have the given health.
pub open spec fn terminated_by_health(t: Seq<bool>, healths: Seq<u16>) -> Seq<bool> {
    Seq::new(t.len(), |i: int| t[i] || healths[i] == 0)
}

/// The round ends when every agent is down or the round timer has run out.
pub open spec fn round_is_over(healths: Seq<u16>, seconds_left: u64) -> bool {
    seconds_left == 0 || forall|i: int| 0 <= i < healths.len() ==> #[trigger] healths[i] == 0
}

pub open spec fn with_terminations<E>(v: GymView<E>, t: Seq<bool>) -> GymView<E> {
    GymView { is_terminated: t, ..v }
}

/// The record at a control point: paused, with the open step's result recorded.
pub open spec fn at_control_point<E>(v: GymView<E>, record: bool) -> GymView<E> {
    let p = v.with_paused(true);
    if record {
        p.with_step_recorded()
    } else {
        p
    }
}

impl Pump {
    /// The pump and the record agree: the record is paused exactly in the waiting
    /// phases, a step is open only while running, and the timer has not passed the
    /// pause interval.
    pub open spec fn consistent<E>(self, v: GymView<E>) -> bool {
        &&& v.wf()
        &&& (self.phase == SimPhase::PausedForControl || self.phase == SimPhase::RoundOver)
            == v.is_paused
        &&& self.step_open ==> self.phase == SimPhase::Running
        &&& self.elapsed_ms <= v.settings.pause_interval_ms
    }

    pub fn new() -> (r: Pump)
        ensures
            r.phase == SimPhase::Initializing,
            r.elapsed_ms == 0,
            !r.step_open,
    {
        Pump { phase: SimPhase::Initializing, elapsed_ms: 0, step_open: false }
    }

    /// The world has been spawned: the round starts with a fresh timer.
    pub fn round_started(&mut self)
        requires
            old(self).phase == SimPhase::Initializing,
        ensures
            final(self).phase == SimPhase::Running,
            final(self).elapsed_ms == 0,
            !final(self).step_open,
    {
        self.phase = SimPhase::Running;
        self.elapsed_ms = 0;
        self.step_open = false;
    }

    /// Pauses at a control point, recording the open step's result.
    fn reach_control_point<E>(&mut self, gym: &mut AIGymState<E>, phase: SimPhase)
        requires
            old(gym).wf(),
            phase == SimPhase::PausedForControl || phase == SimPhase::RoundOver,
        ensures
            final(gym)@ == at_control_point(old(gym)@, old(self).step_open),
            final(gym).wf(),
            final(self).phase == phase,
            final(self).elapsed_ms == 0,
            !final(self).step_open,
    {
        gym.set_paused(true);
        if self.step_open {
            gym.record_step();
        }
        self.phase = phase;
        self.elapsed_ms = 0;
        self.step_open = false;
    }

    /// One simulation tick while running: marks agents with no health left as
    /// terminated, ends the round when all are down or time is out, and pauses for
    /// control once the pause interval has elapsed.
    pub fn running_tick<E>(
        &mut self,
        gym: &mut AIGymState<E>,
        delta_ms: u64,
        healths: &Vec<u16>,
        seconds_left: u64,
    ) -> (cmd: SimCommand)
        requires
            old(self).phase == SimPhase::Running,
            old(self).consistent(old(gym)@),
            healths@.len() == old(gym)@.settings.num_agents,
        ensures
            final(self).consistent(final(gym)@),
            terminated_kept(old(gym)@, final(gym)@),
            round_is_over(healths@, seconds_left) ==> {
                &&& final(gym)@ == at_control_point(
                    with_terminations(
                        old(gym)@,
                        Seq::new(healths@.len() as nat, |i: int| true),
                    ),
                    old(self).step_open,
                )
                &&& final(self).phase == SimPhase::RoundOver
                &&& cmd is Pause
            },
            !round_is_over(healths@, seconds_left) ==> {
                let v = with_terminations(
                    old(gym)@,
                    terminated_by_health(old(gym)@.is_terminated, healths@),
                );
                if delta_ms >= old(gym)@.settings.pause_interval_ms - old(self).elapsed_ms {
                    &&& final(gym)@ == at_control_point(v, old(self).step_open)
                    &&& final(self).phase == SimPhase::PausedForControl
                    &&& final(self).elapsed_ms == 0
                    &&& cmd is Pause
                } else {
                    &&& final(gym)@ == v
                    &&& final(self).phase == SimPhase::Running
                    &&& final(self).elapsed_ms == old(self).elapsed_ms + delta_ms
                    &&& final(self).step_open == old(self).step_open
                    &&& cmd is Continue
                }
            },
    {
        let n = healths.len();
        let mut down: usize = 0;
        let mut i: usize = 0;
        assert(old(gym)@.is_terminated =~= Seq::new(
            n as nat,
            |j: int|
                if j < 0 {
                    old(gym)@.is_terminated[j] || healths@[j] == 0
                } else {
                    old(gym)@.is_terminated[j]
                },
        ));
        while i < n
            invariant
                n == healths@.len(),
                n == gym@.settings.num_agents,
                gym.wf(),
                i <= n,
                down <= i,
                down == i <==> forall|j: int| 0 <= j < i ==> #[trigger] healths@[j] == 0,
                gym@ == with_terminations(
                    old(gym)@,
                    Seq::new(
                        n as nat,
                        |j: int|
                            if j < i {
                                old(gym)@.is_terminated[j] || healths@[j] == 0
                            } else {
                                old(gym)@.is_terminated[j]
                            },
                    ),
                ),
            decreases n - i,
        {
            if healths[i] == 0 {
                down = down + 1;
            }
            gym.set_terminated(i, healths[i] == 0);
            assert(gym@.is_terminated =~= Seq::new(
                n as nat,
                |j: int|
                    if j < i + 1 {
                        old(gym)@.is_terminated[j] || healths@[j] == 0
                    } else {
                        old(gym)@.is_terminated[j]
                    },
            ));
            i = i + 1;
        }
        assert(gym@.is_terminated =~= terminated_by_health(old(gym)@.is_terminated, healths@));
        if down == n || seconds_left == 0 {
            let mut k: usize = 0;
            assert(gym@.is_terminated =~= Seq::new(
                n as nat,
                |j: int|
                    if j < 0 {
                        true
                    } else {
                        old(gym)@.is_terminated[j] || healths@[j] == 0
                    },
            ));
            while k < n
                invariant
                    n == gym@.settings.num_agents,
                    gym.wf(),
                    k <= n,
                    gym@ == with_terminations(
                        old(gym)@,
                        Seq::new(
                            n as nat,
                            |j: int|
                                if j < k {
                                    true
                                } else {
                                    old(gym)@.is_terminated[j] || healths@[j] == 0
                                },
                        ),
                    ),
                decreases n - k,
            {
                gym.set_terminated(k, true);
                assert(gym@.is_terminated =~= Seq::new(
                    n as nat,
                    |j: int|
                        if j < k + 1 {
                            true
                        } else {
                            old(gym)@.is_terminated[j] || healths@[j] == 0
                        },
                ));
                k = k + 1;
            }
            assert(gym@.is_terminated =~= Seq::new(n as nat, |j: int| true));
            self.reach_control_point(gym, SimPhase::RoundOver);
            return SimCommand::Pause;
        }
        if delta_ms >= gym.settings().pause_interval_ms - self.elapsed_ms {
            self.reach_control_point(gym, SimPhase::PausedForControl);
            SimCommand::Pause
        } else {
            self.elapsed_ms = self.elapsed_ms + delta_ms;
            SimCommand::Continue
        }
    }

    /// One tick at a control point. Submitted actions are consumed first: while paused
    /// for control they are handed to the engine and the simulation resumes; once the
    /// round is over they change nothing and their step ends at once. Otherwise a reset
    /// request starts a new round.
    pub fn paused_tick<E>(&mut self, gym: &mut AIGymState<E>) -> (cmd: SimCommand)
        requires
            old(self).phase == SimPhase::PausedForControl || old(self).phase
                == SimPhase::RoundOver,
            old(self).consistent(old(gym)@),
        ensures
            final(self).consistent(final(gym)@),
            !(cmd is Respawn) ==> terminated_kept(old(gym)@, final(gym)@),
            old(gym)@.pending_action matches Some(p) ==> {
                let v = old(gym)@.after_receive().with_rejected(rejected_of(p));
                if old(self).phase == SimPhase::PausedForControl {
                    &&& final(gym)@ == v.with_paused(false)
                    &&& final(self).phase == SimPhase::Running
                    &&& final(self).step_open
                    &&& final(self).elapsed_ms == old(self).elapsed_ms
                    &&& cmd matches SimCommand::Apply(a) && a@ == actions_of(p)
                } else {
                    &&& final(gym)@ == v.with_step_recorded()
                    &&& *final(self) == *old(self)
                    &&& cmd is Wait
                }
            },
            old(gym)@.pending_action is None && old(gym)@.reset_requested ==> {
                &&& final(gym)@ == old(gym)@.after_reset_receive().after_round_cleared()
                &&& final(self).phase == SimPhase::Initializing
                &&& cmd is Respawn
            },
            old(gym)@.pending_action is None && !old(gym)@.reset_requested ==> {
                &&& final(gym)@ == old(gym)@
                &&& *final(self) == *old(self)
                &&& cmd is Wait
            },
    {
        let received = gym.receive_action();
        match received {
            Some(payloads) => {
                let ghost p = bytes_views(payloads@);
                let n = payloads.len();
                let mut actions: Vec<Option<Actions>> = Vec::new();
                let mut rejected: Vec<bool> = Vec::new();
                let mut i: usize = 0;
                while i < n
                    invariant
                        n == payloads@.len(),
                        p == bytes_views(payloads@),
                        i <= n,
                        actions@ == actions_of(p).subrange(0, i as int),
                        rejected@ == rejected_of(p).subrange(0, i as int),
                    decreases n - i,
                {
                    let r = parse_action(payloads[i].as_slice());
                    match r {
                        Ok(a) => {
                            actions.push(Some(a));
                            rejected.push(false);
                        },
                        Err(_) => {
                            actions.push(None);
                            rejected.push(true);
                        },
                    }
                    assert(actions@ =~= actions_of(p).subrange(0, i + 1));
                    assert(rejected@ =~= rejected_of(p).subrange(0, i + 1));
                    i = i + 1;
                }
                assert(actions@ =~= actions_of(p));
                assert(rejected@ =~= rejected_of(p));
                gym.set_rejected(rejected);
                if self.phase == SimPhase::PausedForControl {
                    gym.set_paused(false);
                    self.phase = SimPhase::Running;
                    self.step_open = true;
                    SimCommand::Apply(actions)
                } else {
                    gym.record_step();
                    SimCommand::Wait
                }
            },
            None => {
                if gym.receive_reset_request() {
                    gym.clear_round();
                    self.phase = SimPhase::Initializing;
                    self.elapsed_ms = 0;
                    self.step_open = false;
                    SimCommand::Respawn
                } else {
                    SimCommand::Wait
                }
            },
        }
    }
}

/// Stores a frame read back from the render target, when frames are captured at all.
/// Returns whether a frame was stored: `false` in headless runs, and where the bytes
/// are too few for the configured size.
pub fn store_capture<E>(gym: &mut AIGymState<E>, raw: Vec<u8>) -> (stored: bool)
    requires
        old(gym).wf(),
    ensures
        final(gym).wf(),
        terminated_kept(old(gym)@, final(gym)@),
        stored <==> old(gym)@.settings.render_to_buffer && raw@.len() >= crate::frame::rgba_len(
            old(gym)@.settings.width,
            old(gym)@.settings.height,
        ),
        stored ==> final(gym)@ == old(gym)@.with_screen(
            crate::frame::FrameView {
                width: old(gym)@.settings.width,
                height: old(gym)@.settings.height,
                pixels: raw@.subrange(
                    0,
                    crate::frame::rgba_len(old(gym)@.settings.width, old(gym)@.settings.height),
                ),
            },
        ),
        !stored ==> final(gym)@ == old(gym)@,
{
    let settings = gym.settings();
    if !settings.render_to_buffer {
        return false;
    }
    match Frame::from_raw(settings.width, settings.height, raw) {
        Some(f) => {
            gym.set_screen(f);
            true
        },
        None => false,
    }
}

/// The effect of agent `shooter` hitting agent `victim`: a hit on oneself or on an agent
/// already down counts for nothing; otherwise the victim loses health and the shooter
/// scores (scores saturate at the largest `i32`).
pub fn register_hit<E>(gym: &mut AIGymState<E>, healths: &mut Vec<u16>, shooter: usize, victim: usize) -> (hit: bool)
    requires
        old(gym).wf(),
        old(healths)@.len() == old(gym)@.settings.num_agents,
        shooter < old(healths)@.len(),
        victim < old(healths)@.len(),
    ensures
        final(gym).wf(),
        terminated_kept(old(gym)@, final(gym)@),
        hit <==> shooter != victim && old(healths)@[victim as int] > 0,
        hit ==> final(healths)@ == old(healths)@.update(
            victim as int,
            if old(healths)@[victim as int] > HIT_DAMAGE {
                (old(healths)@[victim as int] - HIT_DAMAGE) as u16
            } else {
                0u16
            },
        ),
        hit ==> final(gym)@ == old(gym)@.with_score(
            shooter as int,
            if old(gym)@.scores[shooter as int] <= i32::MAX - KILL_REWARD {
                (old(gym)@.scores[shooter as int] + KILL_REWARD) as i32
            } else {
                i32::MAX
            },
        ),
        !hit ==> final(gym)@ == old(gym)@ && final(healths)@ == old(healths)@,
{
    if shooter == victim || healths[victim] == 0 {
        return false;
    }
    let h = healths[victim];
    let left: u16 = if h > HIT_DAMAGE {
        h - HIT_DAMAGE
    } else {
        0
    };
    healths.set(victim, left);
    let s = gym.score(shooter);
    let next: i32 = if s <= i32::MAX - KILL_REWARD {
        s + KILL_REWARD
    } else {
        i32::MAX
    };
    gym.set_reward(shooter, next);
    true
}

} // verus!
