//! The character state machine: three signed, unclamped vital stats,
//! an action rule, and a time-decay rule.

use vstd::prelude::*;

verus! {

/// The value every vital stat starts at.
pub const STARTING_STAT: i64 = 5;

/// How much one meal raises nutrition.
pub const EAT_NUTRITION: i64 = 10;

/// Health lost by a tick entered with negative nutrition.
pub const STARVATION_PENALTY: i64 = 1;

/// Health lost by a tick entered with negative oxygen.
pub const SUFFOCATION_PENALTY: i64 = 10;

/// What the player can ask the character to do during one turn.
#[derive(Copy, Clone, PartialEq, Eq, Structural, Debug)]
pub enum CharacterAction {
    Eat,
    Wait,
}

/// The mathematical state of a character: the three vital stats as
/// unbounded integers.
pub struct Stats {
    pub health: int,
    pub nutrition: int,
    pub oxygen: int,
}

/// The stats every character is constructed with.
pub open spec fn initial_stats() -> Stats {
    Stats {
        health: STARTING_STAT as int,
        nutrition: STARTING_STAT as int,
        oxygen: STARTING_STAT as int,
    }
}

/// A character is alive exactly when health is positive; health is the
/// sole liveness determinant.
pub open spec fn alive(s: Stats) -> bool {
    s.health > 0
}

/// Health lost by one tick, judged on the stats as they stand when the
/// tick begins: one point for negative nutrition, ten for negative oxygen.
pub open spec fn tick_penalty(s: Stats) -> int {
    (if s.nutrition < 0 { STARVATION_PENALTY as int } else { 0 })
        + (if s.oxygen < 0 { SUFFOCATION_PENALTY as int } else { 0 })
}

/// One time-step: pay the health penalties owed for the shortages that
/// stood when the tick began, then consume one unit of nutrition. Oxygen
/// is compared but never changed; no rule in this model produces or
/// consumes it.
pub open spec fn tick_effect(s: Stats) -> Stats {
    Stats {
        health: s.health - tick_penalty(s),
        nutrition: s.nutrition - 1,
        oxygen: s.oxygen,
    }
}

/// The effect of one action: eating raises nutrition by `EAT_NUTRITION`,
/// waiting changes nothing, and no action touches health or oxygen.
pub open spec fn action_effect(s: Stats, action: CharacterAction) -> Stats {
    match action {
        CharacterAction::Eat => Stats {
            health: s.health,
            nutrition: s.nutrition + EAT_NUTRITION as int,
            oxygen: s.oxygen,
        },
        CharacterAction::Wait => s,
    }
}

/// One simulated character. The stats are signed and unclamped: health and
/// nutrition may fall arbitrarily far below zero, and nutrition may grow
/// without bound through eating.
#[derive(Copy, Clone, PartialEq, Eq, Structural, Debug)]
pub struct Character {
    pub health: i64,
    pub nutrition: i64,
    pub oxygen: i64,
}

impl View for Character {
    type V = Stats;

    open spec fn view(&self) -> Stats {
        Stats {
            health: self.health as int,
            nutrition: self.nutrition as int,
            oxygen: self.oxygen as int,
        }
    }
}

impl Character {
    /// A fresh character with every stat at `STARTING_STAT`.
    pub fn new() -> (c: Character)
        ensures
            c@ == initial_stats(),
    {
        Character {
            health: STARTING_STAT,
            nutrition: STARTING_STAT,
            oxygen: STARTING_STAT,
        }
    }

    /// Liveness query: alive exactly when health is positive.
    pub fn is_alive(&self) -> (r: bool)
        ensures
            r == alive(self@),
    {
        self.health > 0
    }

    /// Apply one action. Total over its domain: eating only raises
    /// nutrition, waiting does nothing, and neither touches health or
    /// oxygen. The precondition only keeps the raised nutrition within
    /// the machine word.
    pub fn do_action(&mut self, action: CharacterAction)
        requires
            action_effect(old(self)@, action).nutrition <= i64::MAX,
        ensures
            final(self)@ == action_effect(old(self)@, action),
            final(self)@.health == old(self)@.health,
            final(self)@.oxygen == old(self)@.oxygen,
            action is Eat ==> final(self)@.nutrition == old(self)@.nutrition + EAT_NUTRITION,
            action is Wait ==> final(self)@ == old(self)@,
    {
        match action {
            CharacterAction::Eat => {
                self.nutrition = self.nutrition + EAT_NUTRITION;
            }
            CharacterAction::Wait => (),
        }
    }

    /// One time-step, in this fixed order: if nutrition is negative,
    /// health drops by `STARVATION_PENALTY`; if oxygen is negative, health
    /// drops by `SUFFOCATION_PENALTY`; then nutrition drops by one,
    /// unconditionally and regardless of sign. Penalties are thus assessed
    /// against the stats left by the previous tick, one tick after a stat
    /// crosses zero. The preconditions only keep the lowered stats within
    /// the machine word.
    pub fn tick(&mut self)
        requires
            i64::MIN <= tick_effect(old(self)@).health,
            i64::MIN <= tick_effect(old(self)@).nutrition,
        ensures
            final(self)@ == tick_effect(old(self)@),
            final(self)@.nutrition == old(self)@.nutrition - 1,
            final(self)@.oxygen == old(self)@.oxygen,
            old(self)@.nutrition >= 0 && old(self)@.oxygen >= 0
                ==> final(self)@.health == old(self)@.health,
            old(self)@.nutrition < 0 && old(self)@.oxygen >= 0
                ==> final(self)@.health == old(self)@.health - STARVATION_PENALTY,
            old(self)@.nutrition >= 0 && old(self)@.oxygen < 0
                ==> final(self)@.health == old(self)@.health - SUFFOCATION_PENALTY,
            old(self)@.nutrition < 0 && old(self)@.oxygen < 0
                ==> final(self)@.health
                    == old(self)@.health - STARVATION_PENALTY - SUFFOCATION_PENALTY,
    {
        if self.nutrition < 0 {
            self.health = self.health - STARVATION_PENALTY;
        }
        if self.oxygen < 0 {
            self.health = self.health - SUFFOCATION_PENALTY;
        }
        self.nutrition = self.nutrition - 1;
    }
}

/// The world: exactly one character, the player.
#[derive(Copy, Clone, PartialEq, Eq, Structural, Debug)]
pub struct GameWorld {
    pub player: Character,
}

impl GameWorld {
    /// A fresh world holding a fresh player.
    pub fn new() -> (w: GameWorld)
        ensures
            w.player@ == initial_stats(),
    {
        GameWorld { player: Character::new() }
    }

    /// Forward one action to the player.
    pub fn player_do_action(&mut self, action: CharacterAction)
        requires
            action_effect(old(self).player@, action).nutrition <= i64::MAX,
        ensures
            final(self).player@ == action_effect(old(self).player@, action),
    {
        self.player.do_action(action);
    }

    /// The session is over once the player is dead.
    pub fn is_finished(&self) -> (r: bool)
        ensures
            r == !alive(self.player@),
    {
        !(self.player.is_alive())
    }

    /// Advance time by one step for the player.
    pub fn tick(&mut self)
        requires
            i64::MIN <= tick_effect(old(self).player@).health,
            i64::MIN <= tick_effect(old(self).player@).nutrition,
        ensures
            final(self).player@ == tick_effect(old(self).player@),
    {
        self.player.tick();
    }
}

/// Liveness needs no tick to be established: any stats with positive
/// health, the initial ones among them, are alive as they stand.
pub proof fn lemma_positive_health_is_alive(s: Stats)
    requires
        s.health > 0,
    ensures
        alive(s),
{
}

/// Actions never kill and never revive: liveness is exactly the same
/// before and after any action, since no action touches health.
pub proof fn lemma_action_preserves_liveness(s: Stats, action: CharacterAction)
    ensures
        alive(action_effect(s, action)) == alive(s),
{
}

/// Death is terminal: no operation brings a dead character back to life,
/// because actions leave health alone and a tick never raises it.
pub proof fn lemma_dead_stays_dead(s: Stats, action: CharacterAction)
    requires
        !alive(s),
    ensures
        !alive(action_effect(s, action)),
        !alive(tick_effect(s)),
{
}

/// Two consecutive ticks are exactly the sequential composition of the
/// single-tick effect: the second tick's penalties are judged on the state
/// the first tick left behind, so the pair drains two units of nutrition
/// and charges each tick's own penalty in turn, leaving oxygen untouched.
pub proof fn lemma_tick_twice(s: Stats)
    ensures
        tick_effect(tick_effect(s)) == (Stats {
            health: s.health - tick_penalty(s) - tick_penalty(tick_effect(s)),
            nutrition: s.nutrition - 2,
            oxygen: s.oxygen,
        }),
{
}

} // verus!
