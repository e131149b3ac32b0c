use vstd::prelude::*;

use crate::frame::png_of;
use crate::state::{bytes_views, reward_delta, terminated_kept, AIGymState, GymView, OfferError};

verus! {

/// Marks a submitted step: the round it was submitted in and the number of steps
/// completed in that round before it.
#[derive(Clone, Copy, Debug, PartialEq, Eq, Structural)]
pub struct StepTicket {
    pub episode: u64,
    pub steps: usize,
}

/// What the controller learns from a step, one entry per agent.
pub struct StepResult {
    /// The change of each agent's score over the last step.
    pub rewards: Vec<i64>,
    /// Whether each agent's episode has ended.
    pub is_terminated: Vec<bool>,
    /// Whether each agent's payload was unrecognized, so that nothing moved it.
    pub rejected: Vec<bool>,
}

/// The step submitted with ticket `t` has produced its result, or a reset has since
/// started a new round.
pub open spec fn step_done<E>(v: GymView<E>, t: StepTicket) -> bool {
    v.episode != t.episode || v.rewards.len() > t.steps
}

impl StepResult {
    /// The result read from the record: the last step's rewards and the flags.
    pub open spec fn reads<E>(self, v: GymView<E>) -> bool {
        let n = v.settings.num_agents;
        &&& self.rewards@.len() == n
        &&& forall|i: int| 0 <= i < n ==> #[trigger] self.rewards@[i] == reward_delta(v.rewards, i)
        &&& self.is_terminated@ == v.is_terminated
        &&& self.rejected@ == v.rejected
    }
}

/// Submits one raw action payload per agent. Accepted only while the simulation waits
/// at a control point with no other step pending; the ticket then identifies the step.
pub fn begin_step<E>(gym: &mut AIGymState<E>, payloads: Vec<Vec<u8>>) -> (r: Result<
    StepTicket,
    OfferError,
>)
    requires
        old(gym).wf(),
    ensures
        final(gym).wf(),
        terminated_kept(old(gym)@, final(gym)@),
        r is Ok <==> old(gym)@.accepts(bytes_views(payloads@)),
        r matches Ok(t) ==> {
            &&& final(gym)@ == old(gym)@.with_offer(bytes_views(payloads@))
            &&& t == (StepTicket { episode: old(gym)@.episode, steps: old(gym)@.rewards.len() as usize })
        },
        r matches Err(e) ==> {
            &&& final(gym)@ == old(gym)@
            &&& (e == OfferError::NotPaused <==> !old(gym)@.is_paused)
            &&& (e == OfferError::Busy <==> old(gym)@.is_paused && old(gym)@.pending_action is Some)
            &&& (e == OfferError::AgentCount <==> old(gym)@.is_paused
                && old(gym)@.pending_action is None && payloads@.len()
                != old(gym)@.settings.num_agents)
        },
{
    let t = StepTicket { episode: gym.episode(), steps: gym.step_count() };
    match gym.offer_action(payloads) {
        Ok(()) => Ok(t),
        Err(e) => Err(e),
    }
}

/// Reads the result of the last step out of the record.
pub fn step_result<E>(gym: &AIGymState<E>) -> (r: StepResult)
    requires
        gym.wf(),
    ensures
        r.reads(gym@),
{
    let n = gym.settings().num_agents;
    let mut rewards: Vec<i64> = Vec::new();
    let mut is_terminated: Vec<bool> = Vec::new();
    let mut rejected: Vec<bool> = Vec::new();
    let mut i: usize = 0;
    while i < n
        invariant
            n == gym@.settings.num_agents,
            gym.wf(),
            i <= n,
            rewards@.len() == i,
            forall|j: int| 0 <= j < i ==> rewards@[j] == reward_delta(gym@.rewards, j),
            is_terminated@ == gym@.is_terminated.subrange(0, i as int),
            rejected@ == gym@.rejected.subrange(0, i as int),
        decreases n - i,
    {
        rewards.push(gym.reward_delta(i));
        is_terminated.push(gym.is_terminated(i));
        rejected.push(gym.rejected(i));
        assert(is_terminated@ =~= gym@.is_terminated.subrange(0, i + 1));
        assert(rejected@ =~= gym@.rejected.subrange(0, i + 1));
        i = i + 1;
    }
    assert(is_terminated@ =~= gym@.is_terminated);
    assert(rejected@ =~= gym@.rejected);
    StepResult { rewards, is_terminated, rejected }
}

/// The result of the step with ticket `t`, once it is there; `None` while the
/// simulation has not yet reached the next control point.
pub fn poll_step<E>(gym: &AIGymState<E>, t: StepTicket) -> (r: Option<StepResult>)
    requires
        gym.wf(),
    ensures
        r is Some <==> step_done(gym@, t),
        r matches Some(s) ==> s.reads(gym@),
{
    if gym.episode() != t.episode || gym.step_count() > t.steps {
        Some(step_result(gym))
    } else {
        None
    }
}

/// The last captured frame of the round as PNG bytes; `None` before the round's first
/// capture, or for a frame with no pixels, which PNG cannot hold.
pub fn get_screen<E>(gym: &AIGymState<E>) -> (r: Option<Vec<u8>>)
    ensures
        r matches Some(b) ==> gym@.screen matches Some(f) && b@ == png_of(
            f.width,
            f.height,
            f.pixels,
        ),
        gym@.screen is None ==> r is None,
        gym@.screen matches Some(f) && f.width > 0 && f.height > 0 ==> r is Some,
{
    match gym.screen() {
        Some(f) => f.to_png(),
        None => None,
    }
}

/// Asks for a new round; the simulation starts it at its next control point.
pub fn submit_reset<E>(gym: &mut AIGymState<E>)
    requires
        old(gym).wf(),
    ensures
        final(gym)@ == old(gym)@.with_reset_request(),
        final(gym).wf(),
        terminated_kept(old(gym)@, final(gym)@),
{
    gym.request_reset();
}

} // verus!
