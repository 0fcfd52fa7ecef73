//! The control state around the world: the user-facing action set, the
//! single-slot pending action, the quit flag, and the per-turn update rule
//! that a driving loop (console or windowed) executes.

use vstd::prelude::*;
use crate::entities::CharacterAction;
use crate::entities::GameWorld;
use crate::entities::action_effect;
use crate::entities::alive;
use crate::entities::initial_stats;
use crate::entities::tick_effect;

verus! {

/// What the user asked for this turn: either an action to forward to the
/// character, or a request to end the session, which must never reach the
/// character-mutation operation.
#[derive(Copy, Clone, PartialEq, Eq, Structural, Debug)]
pub enum UserAction {
    PlayerDo(CharacterAction),
    QuitGame,
}

/// Why a finished session ended.
#[derive(Copy, Clone, PartialEq, Eq, Structural, Debug)]
pub enum SessionOutcome {
    UserQuit,
    PlayerDied,
}

/// The console protocol's reading of one input line's first character:
/// lowercase `e` eats, `w` waits, `q` quits; anything else is ignored and
/// the loop re-prompts without consuming a turn.
pub open spec fn command_action(c: char) -> Option<UserAction> {
    if c == 'e' {
        Some(UserAction::PlayerDo(CharacterAction::Eat))
    } else if c == 'w' {
        Some(UserAction::PlayerDo(CharacterAction::Wait))
    } else if c == 'q' {
        Some(UserAction::QuitGame)
    } else {
        None
    }
}

/// Interpret the first character of one input line, case-sensitively, as
/// the console protocol prescribes.
pub fn parse_command(c: char) -> (r: Option<UserAction>)
    ensures
        r == command_action(c),
{
    if c == 'e' {
        Some(UserAction::PlayerDo(CharacterAction::Eat))
    } else if c == 'w' {
        Some(UserAction::PlayerDo(CharacterAction::Wait))
    } else if c == 'q' {
        Some(UserAction::QuitGame)
    } else {
        None
    }
}

/// One interactive sitting: the world plus the control state the driving
/// loop needs. At most one action is buffered between the event that set
/// it and the update that consumes it; a new action arriving first
/// silently replaces the old one — nothing is queued.
pub struct Session {
    pub world: GameWorld,
    pub pending_action: Option<UserAction>,
    pub should_quit: bool,
}

/// The machine-width bounds `update` needs: whatever character action is
/// pending must keep nutrition within `i64` when applied, and the tick
/// that follows it must keep health and nutrition within `i64`.
pub open spec fn update_in_bounds(s: Session) -> bool {
    match s.pending_action {
        Some(UserAction::PlayerDo(action)) => {
            let acted = action_effect(s.world.player@, action);
            &&& acted.nutrition <= i64::MAX
            &&& i64::MIN <= tick_effect(acted).health
            &&& i64::MIN <= tick_effect(acted).nutrition
        },
        _ => true,
    }
}

impl Session {
    /// A fresh sitting: a new world, nothing pending, no quit requested.
    pub fn new() -> (s: Session)
        ensures
            s.world.player@ == initial_stats(),
            s.pending_action is None,
            !s.should_quit,
    {
        Session { world: GameWorld::new(), pending_action: None, should_quit: false }
    }

    /// Record the user's input for the next update, replacing whatever
    /// action was still waiting: rapid inputs between updates keep only
    /// the last one. The world and the quit flag are untouched.
    pub fn key_input(&mut self, action: UserAction)
        ensures
            final(self).pending_action == Some(action),
            final(self).world == old(self).world,
            final(self).should_quit == old(self).should_quit,
    {
        self.pending_action = Some(action);
    }

    /// Consume the buffered action, if any. A character action is applied
    /// to the player and then time advances by exactly one tick; a quit
    /// request only raises the quit flag, without ticking and without
    /// touching the world; with nothing pending, nothing changes.
    pub fn update(&mut self)
        requires
            update_in_bounds(*old(self)),
        ensures
            (match old(self).pending_action {
                Some(UserAction::PlayerDo(action)) => {
                    &&& final(self).world.player@
                        == tick_effect(action_effect(old(self).world.player@, action))
                    &&& final(self).pending_action is None
                    &&& final(self).should_quit == old(self).should_quit
                },
                Some(UserAction::QuitGame) => {
                    &&& final(self).world == old(self).world
                    &&& final(self).pending_action == old(self).pending_action
                    &&& final(self).should_quit
                },
                None => *final(self) == *old(self),
            }),
    {
        match self.pending_action {
            Some(UserAction::PlayerDo(player_action)) => {
                self.world.player_do_action(player_action);
                self.pending_action = None;
                self.world.tick();
            }
            Some(UserAction::QuitGame) => {
                self.should_quit = true;
            }
            None => (),
        }
    }

    /// Whether the user has asked to end the session.
    pub fn should_quit(&self) -> (r: bool)
        ensures
            r == self.should_quit,
    {
        self.should_quit
    }

    /// The loop stops when the user has quit or the player has died.
    pub fn is_over(&self) -> (r: bool)
        ensures
            r == (self.should_quit || !alive(self.world.player@)),
    {
        self.should_quit || self.world.is_finished()
    }

    /// Which of the two outcomes a finished session reports: a quit
    /// request is reported as the user quitting, death without one as the
    /// player dying; a sitting that is still running has no outcome yet.
    pub fn outcome(&self) -> (r: Option<SessionOutcome>)
        ensures
            self.should_quit ==> r == Some(SessionOutcome::UserQuit),
            !self.should_quit && !alive(self.world.player@)
                ==> r == Some(SessionOutcome::PlayerDied),
            !self.should_quit && alive(self.world.player@) ==> r is None,
    {
        if self.should_quit {
            Some(SessionOutcome::UserQuit)
        } else if self.world.is_finished() {
            Some(SessionOutcome::PlayerDied)
        } else {
            None
        }
    }
}

} // verus!
