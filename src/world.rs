use vstd::prelude::*;

use rand::seq::SliceRandom;
use rand::Rng;

use crate::state::AIGymState;

verus! {

/// Health of a freshly spawned agent.
pub const FULL_HEALTH: u16 = 100;

/// Number of heading steps in a full turn: headings are in milliradians.
pub const FULL_TURN_MRAD: u32 = 6284;

/// The arena: grid cells that are free and grid cells that hold a wall.
pub struct GameMap {
    pub empty_space: Vec<(usize, usize)>,
    pub walls: Vec<(usize, usize)>,
}

/// An agent of the arena as observers see it.
pub struct Actor {
    /// The grid cell it stands on.
    pub position: (usize, usize),
    /// Its heading, in milliradians below a full turn.
    pub rotation: u32,
    pub name: String,
    pub health: u16,
}

/// The non-visual observation of a round: the arena and its agents.
pub struct EnvironmentState {
    pub map: GameMap,
    pub actors: Vec<Actor>,
}

fn copy_cells(cells: &Vec<(usize, usize)>) -> (r: Vec<(usize, usize)>)
    ensures
        r@ == cells@,
{
    let mut r: Vec<(usize, usize)> = Vec::new();
    let mut i: usize = 0;
    while i < cells.len()
        invariant
            i <= cells@.len(),
            r@ == cells@.subrange(0, i as int),
        decreases cells@.len() - i,
    {
        r.push(cells[i]);
        i = i + 1;
        assert(r@ =~= cells@.subrange(0, i as int));
    }
    assert(r@ =~= cells@);
    r
}

impl GameMap {
    pub fn duplicate(&self) -> (r: GameMap)
        ensures
            r.empty_space@ == self.empty_space@,
            r.walls@ == self.walls@,
    {
        GameMap { empty_space: copy_cells(&self.empty_space), walls: copy_cells(&self.walls) }
    }
}

impl Actor {
    pub fn duplicate(&self) -> (r: Actor)
        ensures
            r == *self,
    {
        Actor {
            position: self.position,
            rotation: self.rotation,
            name: self.name.clone(),
            health: self.health,
        }
    }
}

/// A freshly spawned agent of the map: on a free cell, facing any way, at full health.
pub open spec fn spawned_on(map: &GameMap, a: Actor) -> bool {
    &&& map.empty_space@.contains(a.position)
    &&& a.rotation < FULL_TURN_MRAD
    &&& a.health == FULL_HEALTH
}

/// Relies on rand's `SliceRandom::choose` for slices with the thread-local generator:
/// `None` exactly for an empty slice, else one of its elements.
#[verifier::external_body]
fn choose_cell(cells: &Vec<(usize, usize)>) -> (r: Option<(usize, usize)>)
    ensures
        r is None <==> cells@.len() == 0,
        r matches Some(c) ==> cells@.contains(c),
{
    cells.as_slice().choose(&mut rand::thread_rng()).copied()
}

/// Relies on rand's `Rng::gen_range` with the thread-local generator: a value of the
/// range `0..n`, which must not be empty.
#[verifier::external_body]
fn random_below(n: u32) -> (r: u32)
    requires
        n > 0,
    ensures
        r < n,
{
    rand::thread_rng().gen_range(0..n)
}

/// Relies on names' `Generator::next` with the default word lists, which always
/// returns a name.
#[verifier::external_body]
fn generate_name() -> (r: Option<String>)
    ensures
        r is Some,
{
    names::Generator::default().next()
}

/// A new agent named `name`, on a free cell of the map chosen at random and with a
/// random heading; `None` when the map has no free cell.
pub fn new_actor(map: &GameMap, name: String) -> (r: Option<Actor>)
    ensures
        r is Some <==> map.empty_space@.len() > 0,
        r matches Some(a) ==> spawned_on(map, a) && a.name == name,
{
    match choose_cell(&map.empty_space) {
        Some(position) => {
            let rotation = random_below(FULL_TURN_MRAD);
            Some(Actor { position, rotation, name, health: FULL_HEALTH })
        },
        None => None,
    }
}

/// Spawns one agent per controlled agent of the gym, each under a generated name, and
/// publishes the arena and the agents as the gym's environment snapshot. `None`, with
/// the gym unchanged, when the map has no free cell.
pub fn spawn_computer_actors(gym: &mut AIGymState<EnvironmentState>, map: &GameMap) -> (r: Option<
    Vec<Actor>,
>)
    requires
        old(gym).wf(),
    ensures
        final(gym).wf(),
        r is Some <==> map.empty_space@.len() > 0,
        r is None ==> final(gym)@ == old(gym)@,
        r matches Some(actors) ==> {
            &&& actors@.len() == old(gym)@.settings.num_agents
            &&& forall|i: int| 0 <= i < actors@.len() ==> spawned_on(map, #[trigger] actors@[i])
            &&& final(gym)@.env_state matches Some(e) && e.actors@ == actors@
                && e.map.empty_space@ == map.empty_space@ && e.map.walls@ == map.walls@
            &&& final(gym)@ == old(gym)@.with_env_state(final(gym)@.env_state.unwrap())
        },
{
    if map.empty_space.len() == 0 {
        return None;
    }
    let n = gym.settings().num_agents;
    let mut actors: Vec<Actor> = Vec::new();
    let mut snapshot: Vec<Actor> = Vec::new();
    let mut i: usize = 0;
    while i < n
        invariant
            i <= n,
            map.empty_space@.len() > 0,
            actors@.len() == i,
            snapshot@ == actors@,
            forall|j: int| 0 <= j < i ==> spawned_on(map, #[trigger] actors@[j]),
        decreases n - i,
    {
        let name = match generate_name() {
            Some(s) => s,
            None => String::new(),
        };
        match new_actor(map, name) {
            Some(a) => {
                snapshot.push(a.duplicate());
                actors.push(a);
            },
            None => {},
        }
        i = i + 1;
    }
    let e = EnvironmentState { map: map.duplicate(), actors: snapshot };
    gym.set_env_state(e);
    Some(actors)
}

fn copy_actors(actors: &Vec<Actor>) -> (r: Vec<Actor>)
    ensures
        r@ == actors@,
{
    let mut r: Vec<Actor> = Vec::new();
    let mut i: usize = 0;
    while i < actors.len()
        invariant
            i <= actors@.len(),
            r@ == actors@.subrange(0, i as int),
        decreases actors@.len() - i,
    {
        r.push(actors[i].duplicate());
        i = i + 1;
        assert(r@ =~= actors@.subrange(0, i as int));
    }
    assert(r@ =~= actors@);
    r
}

/// Publishes the environment snapshot at a control point: the arena and its agents as
/// they stand now replace the previous snapshot wholesale.
pub fn publish_environment(
    gym: &mut AIGymState<EnvironmentState>,
    map: &GameMap,
    actors: &Vec<Actor>,
)
    requires
        old(gym).wf(),
    ensures
        final(gym).wf(),
        final(gym)@.env_state matches Some(e) && e.actors@ == actors@
            && e.map.empty_space@ == map.empty_space@ && e.map.walls@ == map.walls@,
        final(gym)@ == old(gym)@.with_env_state(final(gym)@.env_state.unwrap()),
{
    let e = EnvironmentState { map: map.duplicate(), actors: copy_actors(actors) };
    gym.set_env_state(e);
}

} // verus!
