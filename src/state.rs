use vstd::prelude::*;

use crate::frame::{Frame, FrameView};

verus! {

/// Fixed configuration of a gym, chosen at startup.
#[derive(Clone, Copy, Debug, PartialEq, Eq, Structural)]
pub struct AIGymSettings {
    /// Width of the render target, in pixels.
    pub width: u32,
    /// Height of the render target, in pixels.
    pub height: u32,
    /// Number of externally controlled agents.
    pub num_agents: usize,
    /// Simulated time between two forced control points, in milliseconds.
    pub pause_interval_ms: u64,
    /// Whether frames are captured at all (false in headless runs).
    pub render_to_buffer: bool,
}

/// What the shared gym record holds.
pub ghost struct GymView<E> {
    pub settings: AIGymSettings,
    /// The last captured frame of the current round.
    pub screen: Option<FrameView>,
    /// True while the simulation waits at a control point.
    pub is_paused: bool,
    /// Raw action payloads of the submitted step, one per agent, not yet consumed.
    pub pending_action: Option<Seq<Seq<u8>>>,
    /// Current cumulative score of each agent.
    pub scores: Seq<i32>,
    /// One snapshot of the scores per completed step of the round.
    pub rewards: Seq<Seq<i32>>,
    /// For each agent, whether its episode has ended.
    pub is_terminated: Seq<bool>,
    /// For each agent, whether the payload of the last consumed step was unrecognized.
    pub rejected: Seq<bool>,
    pub reset_requested: bool,
    pub reset_acknowledged: bool,
    /// The last snapshot of the environment, for non-visual observers.
    pub env_state: Option<E>,
    /// Number of resets carried out so far (wrapping).
    pub episode: u64,
    /// Number of steps whose actions were accepted.
    pub offered: nat,
    /// Number of steps whose actions were consumed by the simulation.
    pub consumed: nat,
}

/// The reward of step `k` for agent `i`: the change of its score over that step.
pub open spec fn step_reward(h: Seq<Seq<i32>>, k: int, i: int) -> int {
    if k == 0 {
        h[0][i] as int
    } else {
        h[k][i] - h[k - 1][i]
    }
}

/// The reward that a caller sees for agent `i`: that of the last step, 0 before any.
pub open spec fn reward_delta(h: Seq<Seq<i32>>, i: int) -> int {
    if h.len() == 0 {
        0
    } else {
        step_reward(h, h.len() - 1, i)
    }
}

impl<E> GymView<E> {
    pub open spec fn wf(self) -> bool {
        let n = self.settings.num_agents;
        &&& self.scores.len() == n
        &&& self.is_terminated.len() == n
        &&& self.rejected.len() == n
        &&& forall|k: int| 0 <= k < self.rewards.len() ==> (#[trigger] self.rewards[k]).len() == n
        &&& self.pending_action matches Some(p) ==> p.len() == n && self.is_paused
        &&& self.offered == self.consumed + if self.pending_action is Some {
            1nat
        } else {
            0nat
        }
    }

    /// The record at startup, and the part of it that a reset restores.
    pub open spec fn initial(settings: AIGymSettings, episode: u64, offered: nat, env_state: Option<E>) -> GymView<E> {
        GymView {
            settings,
            screen: None,
            is_paused: false,
            pending_action: None,
            scores: Seq::new(settings.num_agents as nat, |i: int| 0i32),
            rewards: Seq::empty(),
            is_terminated: Seq::new(settings.num_agents as nat, |i: int| false),
            rejected: Seq::new(settings.num_agents as nat, |i: int| false),
            reset_requested: false,
            reset_acknowledged: false,
            env_state,
            episode,
            offered,
            consumed: offered,
        }
    }

    pub open spec fn with_score(self, i: int, v: i32) -> GymView<E> {
        GymView { scores: self.scores.update(i, v), ..self }
    }

    /// A flag once set stays set: `false` changes nothing.
    pub open spec fn with_terminated(self, i: int, flag: bool) -> GymView<E> {
        GymView { is_terminated: self.is_terminated.update(i, self.is_terminated[i] || flag), ..self }
    }

    pub open spec fn with_env_state(self, e: E) -> GymView<E> {
        GymView { env_state: Some(e), ..self }
    }

    pub open spec fn with_screen(self, f: FrameView) -> GymView<E> {
        GymView { screen: Some(f), ..self }
    }

    pub open spec fn with_paused(self, flag: bool) -> GymView<E> {
        GymView { is_paused: flag, ..self }
    }

    /// Whether a step's payloads are accepted now.
    pub open spec fn accepts(self, payloads: Seq<Seq<u8>>) -> bool {
        self.is_paused && self.pending_action is None && payloads.len()
            == self.settings.num_agents
    }

    pub open spec fn with_offer(self, payloads: Seq<Seq<u8>>) -> GymView<E> {
        GymView { pending_action: Some(payloads), offered: self.offered + 1, ..self }
    }

    /// The pending payloads are taken out, once.
    pub open spec fn after_receive(self) -> GymView<E> {
        if self.pending_action is Some {
            GymView { pending_action: None, consumed: self.consumed + 1, ..self }
        } else {
            self
        }
    }

    pub open spec fn with_rejected(self, rejected: Seq<bool>) -> GymView<E> {
        GymView { rejected, ..self }
    }

    pub open spec fn with_reset_request(self) -> GymView<E> {
        GymView { reset_requested: true, ..self }
    }

    /// The simulation takes a pending request; the acknowledgement of the previous reset
    /// is withdrawn until the new round is set up.
    pub open spec fn after_reset_receive(self) -> GymView<E> {
        if self.reset_requested {
            GymView { reset_requested: false, reset_acknowledged: false, ..self }
        } else {
            self
        }
    }

    /// The scores are recorded as the result of the step that just ended.
    pub open spec fn with_step_recorded(self) -> GymView<E> {
        GymView { rewards: self.rewards.push(self.scores), ..self }
    }

    /// A new round: scores, rewards, termination and the old round's frame are gone,
    /// and the reset is acknowledged.
    pub open spec fn after_round_cleared(self) -> GymView<E> {
        GymView {
            reset_acknowledged: true,
            reset_requested: self.reset_requested,
            ..GymView::initial(
                self.settings,
                self.episode.wrapping_add(1),
                self.offered,
                self.env_state,
            )
        }
    }
}

/// Termination flags only go from false to true.
pub open spec fn terminated_kept<E>(a: GymView<E>, b: GymView<E>) -> bool {
    &&& b.is_terminated.len() == a.is_terminated.len()
    &&& forall|i: int| 0 <= i < a.is_terminated.len() && #[trigger] a.is_terminated[i] ==> b.is_terminated[i]
}

/// The shared record between the simulation and its external controller.
pub struct AIGymState<E> {
    settings: AIGymSettings,
    screen: Option<Frame>,
    is_paused: bool,
    pending_action: Option<Vec<Vec<u8>>>,
    scores: Vec<i32>,
    rewards: Vec<Vec<i32>>,
    is_terminated: Vec<bool>,
    rejected: Vec<bool>,
    reset_requested: bool,
    reset_acknowledged: bool,
    env_state: Option<E>,
    episode: u64,
    offered: Ghost<nat>,
    consumed: Ghost<nat>,
}

pub open spec fn bytes_views(v: Seq<Vec<u8>>) -> Seq<Seq<u8>> {
    v.map_values(|b: Vec<u8>| b@)
}

pub open spec fn score_views(v: Seq<Vec<i32>>) -> Seq<Seq<i32>> {
    v.map_values(|b: Vec<i32>| b@)
}

impl<E> View for AIGymState<E> {
    type V = GymView<E>;

    closed spec fn view(&self) -> GymView<E> {
        GymView {
            settings: self.settings,
            screen: match self.screen {
                Some(f) => Some(f@),
                None => None,
            },
            is_paused: self.is_paused,
            pending_action: match self.pending_action {
                Some(p) => Some(bytes_views(p@)),
                None => None,
            },
            scores: self.scores@,
            rewards: score_views(self.rewards@),
            is_terminated: self.is_terminated@,
            rejected: self.rejected@,
            reset_requested: self.reset_requested,
            reset_acknowledged: self.reset_acknowledged,
            env_state: self.env_state,
            episode: self.episode,
            offered: self.offered@,
            consumed: self.consumed@,
        }
    }
}

/// Why a step's payloads were not accepted.
#[derive(Clone, Copy, Debug, PartialEq, Eq, Structural)]
pub enum OfferError {
    /// The simulation is not at a control point.
    NotPaused,
    /// Another step's payloads wait to be consumed.
    Busy,
    /// There is not one payload per agent.
    AgentCount,
}

fn filled<T: Copy>(n: usize, x: T) -> (r: Vec<T>)
    ensures
        r@ == Seq::new(n as nat, |i: int| x),
{
    let mut v: Vec<T> = Vec::new();
    let mut i: usize = 0;
    while i < n
        invariant
            i <= n,
            v@ == Seq::new(i as nat, |j: int| x),
        decreases n - i,
    {
        v.push(x);
        i += 1;
        assert(v@ =~= Seq::new(i as nat, |j: int| x));
    }
    v
}

impl<E> AIGymState<E> {
    pub open spec fn wf(&self) -> bool {
        self@.wf()
    }

    pub fn new(settings: AIGymSettings) -> (r: AIGymState<E>)
        ensures
            r@ == GymView::<E>::initial(settings, 0, 0, None),
            r.wf(),
    {
        let r = AIGymState {
            settings,
            screen: None,
            is_paused: false,
            pending_action: None,
            scores: filled(settings.num_agents, 0i32),
            rewards: Vec::new(),
            is_terminated: filled(settings.num_agents, false),
            rejected: filled(settings.num_agents, false),
            reset_requested: false,
            reset_acknowledged: false,
            env_state: None,
            episode: 0,
            offered: Ghost(0),
            consumed: Ghost(0),
        };
        assert(score_views(r.rewards@) =~= Seq::empty());
        r
    }

    pub fn settings(&self) -> (r: AIGymSettings)
        ensures
            r == self@.settings,
    {
        self.settings
    }

    pub fn is_paused(&self) -> (r: bool)
        ensures
            r == self@.is_paused,
    {
        self.is_paused
    }

    pub fn has_pending_action(&self) -> (r: bool)
        ensures
            r == self@.pending_action is Some,
    {
        self.pending_action.is_some()
    }

    pub fn reset_requested(&self) -> (r: bool)
        ensures
            r == self@.reset_requested,
    {
        self.reset_requested
    }

    pub fn reset_acknowledged(&self) -> (r: bool)
        ensures
            r == self@.reset_acknowledged,
    {
        self.reset_acknowledged
    }

    pub fn episode(&self) -> (r: u64)
        ensures
            r == self@.episode,
    {
        self.episode
    }

    /// Number of completed steps in the current round.
    pub fn step_count(&self) -> (r: usize)
        ensures
            r == self@.rewards.len(),
    {
        self.rewards.len()
    }

    pub fn score(&self, i: usize) -> (r: i32)
        requires
            self.wf(),
            i < self@.settings.num_agents,
        ensures
            r == self@.scores[i as int],
    {
        self.scores[i]
    }

    pub fn is_terminated(&self, i: usize) -> (r: bool)
        requires
            self.wf(),
            i < self@.settings.num_agents,
        ensures
            r == self@.is_terminated[i as int],
    {
        self.is_terminated[i]
    }

    pub fn rejected(&self, i: usize) -> (r: bool)
        requires
            self.wf(),
            i < self@.settings.num_agents,
        ensures
            r == self@.rejected[i as int],
    {
        self.rejected[i]
    }

    pub fn env_state(&self) -> (r: &Option<E>)
        ensures
            *r == self@.env_state,
    {
        &self.env_state
    }

    /// Overwrites agent `i`'s cumulative score.
    pub fn set_reward(&mut self, i: usize, value: i32)
        requires
            old(self).wf(),
            i < old(self)@.settings.num_agents,
        ensures
            final(self)@ == old(self)@.with_score(i as int, value),
            final(self).wf(),
    {
        self.scores.set(i, value);
    }

    /// Marks agent `i`'s episode as ended when `flag` holds; an ended episode stays ended.
    pub fn set_terminated(&mut self, i: usize, flag: bool)
        requires
            old(self).wf(),
            i < old(self)@.settings.num_agents,
        ensures
            final(self)@ == old(self)@.with_terminated(i as int, flag),
            final(self).wf(),
            terminated_kept(old(self)@, final(self)@),
    {
        if flag {
            self.is_terminated.set(i, true);
        }
        assert(self.is_terminated@ =~= old(self)@.with_terminated(i as int, flag).is_terminated);
    }

    /// Replaces the environment snapshot.
    pub fn set_env_state(&mut self, e: E)
        requires
            old(self).wf(),
        ensures
            final(self)@ == old(self)@.with_env_state(e),
            final(self).wf(),
    {
        self.env_state = Some(e);
    }

    /// Stores the frame just captured.
    pub fn set_screen(&mut self, f: Frame)
        requires
            old(self).wf(),
        ensures
            final(self)@ == old(self)@.with_screen(f@),
            final(self).wf(),
    {
        self.screen = Some(f);
    }

    /// A copy of the last captured frame of the round, if any.
    pub fn screen(&self) -> (r: Option<Frame>)
        ensures
            r matches Some(f) ==> self@.screen == Some(f@),
            r is None ==> self@.screen is None,
    {
        match &self.screen {
            Some(f) => Some(f.duplicate()),
            None => None,
        }
    }

    pub fn set_paused(&mut self, flag: bool)
        requires
            old(self).wf(),
            !flag ==> old(self)@.pending_action is None,
        ensures
            final(self)@ == old(self)@.with_paused(flag),
            final(self).wf(),
    {
        self.is_paused = flag;
    }

    /// Hands one payload per agent to the simulation, which must be waiting for them.
    pub fn offer_action(&mut self, payloads: Vec<Vec<u8>>) -> (r: Result<(), OfferError>)
        requires
            old(self).wf(),
        ensures
            final(self).wf(),
            r is Ok <==> old(self)@.accepts(bytes_views(payloads@)),
            r is Ok ==> final(self)@ == old(self)@.with_offer(bytes_views(payloads@)),
            r is Err ==> final(self)@ == old(self)@,
            r == Err::<(), OfferError>(OfferError::NotPaused) <==> !old(self)@.is_paused,
            r == Err::<(), OfferError>(OfferError::Busy) <==> old(self)@.is_paused
                && old(self)@.pending_action is Some,
            r == Err::<(), OfferError>(OfferError::AgentCount) <==> old(self)@.is_paused
                && old(self)@.pending_action is None && payloads@.len()
                != old(self)@.settings.num_agents,
    {
        if !self.is_paused {
            return Err(OfferError::NotPaused);
        }
        if self.pending_action.is_some() {
            return Err(OfferError::Busy);
        }
        if payloads.len() != self.settings.num_agents {
            return Err(OfferError::AgentCount);
        }
        self.pending_action = Some(payloads);
        self.offered = Ghost(self.offered@ + 1);
        Ok(())
    }

    /// Takes the pending payloads out of the record: each offer is handed out once.
    pub fn receive_action(&mut self) -> (r: Option<Vec<Vec<u8>>>)
        requires
            old(self).wf(),
        ensures
            final(self)@ == old(self)@.after_receive(),
            final(self).wf(),
            r is Some <==> old(self)@.pending_action is Some,
            r matches Some(p) ==> old(self)@.pending_action == Some(bytes_views(p@)),
    {
        let r = self.pending_action.take();
        if r.is_some() {
            self.consumed = Ghost(self.consumed@ + 1);
        }
        r
    }

    /// Records which agents' payloads were not recognized in the step just consumed.
    pub fn set_rejected(&mut self, rejected: Vec<bool>)
        requires
            old(self).wf(),
            rejected@.len() == old(self)@.settings.num_agents,
        ensures
            final(self)@ == old(self)@.with_rejected(rejected@),
            final(self).wf(),
    {
        self.rejected = rejected;
    }

    pub fn request_reset(&mut self)
        requires
            old(self).wf(),
        ensures
            final(self)@ == old(self)@.with_reset_request(),
            final(self).wf(),
    {
        self.reset_requested = true;
    }

    /// Takes a reset request out of the record, once.
    pub fn receive_reset_request(&mut self) -> (r: bool)
        requires
            old(self).wf(),
        ensures
            r == old(self)@.reset_requested,
            final(self)@ == old(self)@.after_reset_receive(),
            final(self).wf(),
    {
        let r = self.reset_requested;
        if r {
            self.reset_requested = false;
            self.reset_acknowledged = false;
        }
        r
    }

    /// Records the scores as the outcome of the step that just ended.
    pub fn record_step(&mut self)
        requires
            old(self).wf(),
        ensures
            final(self)@ == old(self)@.with_step_recorded(),
            final(self).wf(),
    {
        let snapshot = self.scores.clone();
        assert(snapshot@ =~= self.scores@);
        self.rewards.push(snapshot);
        assert(score_views(self.rewards@) =~= score_views(old(self).rewards@).push(self.scores@));
    }

    /// Starts a new round in place: clears scores, rewards, termination flags and the
    /// old round's frame, and acknowledges the reset.
    pub fn clear_round(&mut self)
        requires
            old(self).wf(),
            old(self)@.pending_action is None,
        ensures
            final(self)@ == old(self)@.after_round_cleared(),
            final(self).wf(),
    {
        let n = self.settings.num_agents;
        self.screen = None;
        self.is_paused = false;
        self.scores = filled(n, 0i32);
        self.rewards = Vec::new();
        self.is_terminated = filled(n, false);
        self.rejected = filled(n, false);
        self.reset_acknowledged = true;
        self.episode = self.episode.wrapping_add(1);
        assert(score_views(self.rewards@) =~= Seq::empty());
    }

    /// The reward of the last step for agent `i`.
    pub fn reward_delta(&self, i: usize) -> (r: i64)
        requires
            self.wf(),
            i < self@.settings.num_agents,
        ensures
            r == reward_delta(self@.rewards, i as int),
    {
        let n = self.rewards.len();
        if n == 0 {
            0
        } else if n == 1 {
            assert(self@.rewards[0] == self.rewards@[0]@);
            self.rewards[0][i] as i64
        } else {
            assert(self@.rewards[n - 1] == self.rewards@[n - 1]@);
            assert(self@.rewards[n - 2] == self.rewards@[n - 2]@);
            let last: &Vec<i32> = &self.rewards[n - 1];
            let prev: &Vec<i32> = &self.rewards[n - 2];
            last[i] as i64 - prev[i] as i64
        }
    }
}

/// The rewards of steps `0..=k` for agent `i`, added up.
pub open spec fn rewards_sum(h: Seq<Seq<i32>>, k: int, i: int) -> int
    decreases k,
{
    if k <= 0 {
        if k == 0 {
            step_reward(h, 0, i)
        } else {
            0
        }
    } else {
        rewards_sum(h, k - 1, i) + step_reward(h, k, i)
    }
}

/// The reward handed out after the `k`-th step of a round (counting from 0) is
/// `rewards[k] - rewards[k - 1]`, or `rewards[0]` for the first; so the rewards of a
/// round's steps add up to the score recorded at the last of them.
pub proof fn lemma_reward_delta(h: Seq<Seq<i32>>, k: int, i: int)
    requires
        0 <= k < h.len(),
        0 <= i,
        forall|j: int| 0 <= j < h.len() ==> i < (#[trigger] h[j]).len(),
    ensures
        h.len() == k + 1 ==> reward_delta(h, i) == step_reward(h, k, i),
        k == 0 ==> step_reward(h, k, i) == h[0][i],
        k > 0 ==> step_reward(h, k, i) == h[k][i] - h[k - 1][i],
        rewards_sum(h, k, i) == h[k][i],
    decreases k,
{
    if k > 0 {
        lemma_reward_delta(h, k - 1, i);
    }
}

/// Each accepted step's payloads reach the simulation exactly once: an offer is
/// accepted only into an empty slot, so nothing is overwritten; taking the payloads
/// out hands over exactly what was offered and empties the slot, so taking again
/// hands over nothing; and at every moment at most one accepted step is unconsumed.
pub proof fn lemma_action_consumed_once<E>(v: GymView<E>, payloads: Seq<Seq<u8>>)
    requires
        v.wf(),
    ensures
        v.consumed <= v.offered <= v.consumed + 1,
        v.accepts(payloads) ==> {
            let w = v.with_offer(payloads);
            &&& v.pending_action is None
            &&& w.wf()
            &&& w.pending_action == Some(payloads)
            &&& w.after_receive().pending_action is None
            &&& w.after_receive().consumed == v.consumed + 1
            &&& w.after_receive().consumed == w.after_receive().offered
            &&& w.after_receive().after_receive() == w.after_receive()
        },
        v.after_receive().wf(),
        v.after_receive().pending_action is None,
        v.after_receive().after_receive() == v.after_receive(),
{
}

/// Asking for a reset twice in a row leaves the same record as asking once, and the
/// round that the simulation then starts has no rewards, no scores and no ended
/// episodes.
pub proof fn lemma_reset_idempotent<E>(v: GymView<E>)
    requires
        v.wf(),
        v.pending_action is None,
    ensures
        v.with_reset_request().with_reset_request() == v.with_reset_request(),
        ({
            let c = v.with_reset_request().after_reset_receive().after_round_cleared();
            &&& c == v.with_reset_request().with_reset_request().after_reset_receive().after_round_cleared()
            &&& c.wf()
            &&& c.rewards.len() == 0
            &&& c.screen is None
            &&& !c.reset_requested
            &&& forall|i: int| 0 <= i < v.settings.num_agents ==> c.scores[i] == 0
            &&& forall|i: int| 0 <= i < v.settings.num_agents ==> !c.is_terminated[i]
        }),
{
    let c = v.with_reset_request().after_reset_receive().after_round_cleared();
    assert(c.scores.len() == v.settings.num_agents);
}

/// A step over which an agent's score does not change earns it nothing: when its score
/// still equals the last recorded snapshot (or is still zero before the round's first
/// step), the reward recorded for the step that ends now is zero.
pub proof fn lemma_unchanged_score_no_reward<E>(v: GymView<E>, i: int)
    requires
        v.wf(),
        0 <= i < v.settings.num_agents,
        v.rewards.len() == 0 ==> v.scores[i] == 0,
        v.rewards.len() > 0 ==> v.rewards.last()[i] == v.scores[i],
    ensures
        reward_delta(v.with_step_recorded().rewards, i) == 0,
{
    let h = v.with_step_recorded().rewards;
    assert(h.last() == v.scores);
    if v.rewards.len() > 0 {
        assert(h[h.len() - 2] == v.rewards.last());
    }
}

/// Once an agent's episode has ended it stays ended: `terminated_kept` holds over any
/// run of transitions that each keep it, that is until the next reset.
pub proof fn lemma_terminated_kept_trans<E>(a: GymView<E>, b: GymView<E>, c: GymView<E>)
    requires
        terminated_kept(a, b),
        terminated_kept(b, c),
    ensures
        terminated_kept(a, c),
{
}

} // verus!
