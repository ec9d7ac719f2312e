use vstd::prelude::*;

verus! {

/// Phase of the bunny-hop game.
#[derive(Clone, Copy, PartialEq, Eq, Debug, Structural)]
pub enum BhopState {
    /// The runner hops over obstacles.
    Playing,
    /// The runner hit an obstacle.
    Dead,
    /// Short pause before a new round.
    Respawning,
}

/// The phase after one tick: while playing, hitting an obstacle crashes the runner;
/// once the pause after a crash is over the game respawns; once the respawn pause is
/// over a new round is played. Nothing else changes the phase.
pub open spec fn next_phase(state: BhopState, hit: bool, pause_over: bool) -> BhopState {
    match state {
        BhopState::Playing => if hit { BhopState::Dead } else { BhopState::Playing },
        BhopState::Dead => if pause_over { BhopState::Respawning } else { BhopState::Dead },
        BhopState::Respawning => if pause_over { BhopState::Playing } else { BhopState::Respawning },
    }
}

/// The phase after one tick, given whether the runner hit an obstacle and whether
/// the current phase's pause has run out.
pub fn bhop_next_state(state: BhopState, hit: bool, pause_over: bool) -> (r: BhopState)
    ensures
        r == next_phase(state, hit, pause_over),
{
    match state {
        BhopState::Playing => if hit { BhopState::Dead } else { BhopState::Playing },
        BhopState::Dead => if pause_over { BhopState::Respawning } else { BhopState::Dead },
        BhopState::Respawning => if pause_over { BhopState::Playing } else { BhopState::Respawning },
    }
}

/// The phases go round in one order only: a crash ends play, the crash pause leads to
/// respawning and the respawn pause back to play; a hit matters only while playing,
/// and a pause only outside play.
pub proof fn lemma_phase_cycle(state: BhopState, hit: bool, pause_over: bool)
    ensures
        next_phase(BhopState::Playing, true, pause_over) == BhopState::Dead,
        next_phase(BhopState::Dead, hit, true) == BhopState::Respawning,
        next_phase(BhopState::Respawning, hit, true) == BhopState::Playing,
        next_phase(BhopState::Playing, false, pause_over) == BhopState::Playing,
        state != BhopState::Playing ==> next_phase(state, hit, false) == state,
        next_phase(state, hit, pause_over) != state ==> next_phase(next_phase(state, hit, pause_over), false, false)
            == next_phase(state, hit, pause_over),
{
}

/// Speed a round starts at, in columns per second, for the speed setting.
pub open spec fn base_speed(speed_opt: u32) -> u32 {
    if speed_opt == 0 {
        150
    } else if speed_opt == 2 {
        400
    } else {
        250
    }
}

/// Fastest the game gets, for the speed setting.
pub open spec fn top_speed(speed_opt: u32) -> u32 {
    if speed_opt == 0 {
        300
    } else if speed_opt == 2 {
        650
    } else {
        450
    }
}

/// Speed a round starts at for the speed setting (0 slow, 2 fast, anything else normal).
pub fn base_bhop_speed(speed_opt: u32) -> (r: u32)
    ensures
        r == base_speed(speed_opt),
{
    match speed_opt {
        0 => 150,
        2 => 400,
        _ => 250,
    }
}

/// Fastest the game gets for the speed setting.
pub fn max_bhop_speed(speed_opt: u32) -> (r: u32)
    ensures
        r == top_speed(speed_opt),
{
    match speed_opt {
        0 => 300,
        2 => 650,
        _ => 450,
    }
}

/// Speed after an obstacle has been cleared: eight faster, capped at the top speed.
pub fn accelerated_speed(speed: u32, speed_opt: u32) -> (r: u32)
    ensures
        r == if speed as int + 8 <= top_speed(speed_opt) { speed as int + 8 } else { top_speed(speed_opt) as int },
{
    let cap = max_bhop_speed(speed_opt);
    if speed <= cap - 8 {
        speed + 8
    } else {
        cap
    }
}

/// Every setting starts no faster than it can get, and speeding up from any speed up
/// to the top stays within the top speed and never slows the game down.
pub proof fn lemma_speed_bounds(speed: u32, speed_opt: u32)
    ensures
        base_speed(speed_opt) < top_speed(speed_opt),
        speed <= top_speed(speed_opt) ==> {
            let next = if speed as int + 8 <= top_speed(speed_opt) { speed as int + 8 } else { top_speed(speed_opt) as int };
            speed <= next <= top_speed(speed_opt)
        },
{
}

/// Score of the current round and best score so far.
#[derive(Clone, Copy, PartialEq, Eq, Debug)]
pub struct Scoreboard {
    pub score: usize,
    pub best: usize,
}

impl Scoreboard {
    /// No round played yet.
    pub fn new() -> (r: Self)
        ensures
            r.score == 0,
            r.best == 0,
    {
        Scoreboard { score: 0, best: 0 }
    }

    /// An obstacle has been cleared: one more point this round.
    pub fn record_pass(&mut self)
        requires
            old(self).score < usize::MAX,
        ensures
            final(self).score == old(self).score + 1,
            final(self).best == old(self).best,
    {
        self.score = self.score + 1;
    }

    /// A new round starts: the round's score counts toward the best, and the score
    /// starts again from zero. The best score never goes down.
    pub fn respawn(&mut self)
        ensures
            final(self).score == 0,
            final(self).best == if old(self).score > old(self).best { old(self).score } else { old(self).best },
            final(self).best >= old(self).best,
            final(self).best >= old(self).score,
    {
        if self.score > self.best {
            self.best = self.score;
        }
        self.score = 0;
    }
}

} // verus!
