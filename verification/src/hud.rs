//! The HUD's state: whether the game is paused, whether the player is still
//! in the main menu, and the score the score label shows. The labels, the
//! pause overlay and the engine's global pause flag live with the host; each
//! transition here says which of those the host should update.

use vstd::prelude::*;

verus! {

/// What a press of the pause action did, so the host can mirror it: show
/// the overlay and halt the engine, hide them again, or nothing while the
/// main menu is still up.
#[derive(Clone, Copy, Debug, PartialEq, Eq, Structural)]
pub enum PauseOutcome {
    Engaged,
    Released,
    Ignored,
}

/// The HUD's state. The label and overlay nodes live with the host engine;
/// `score` is the value the score label shows.
pub struct UI {
    /// The pause overlay is up and the engine is halted.
    pub paused: bool,
    /// The main menu is still up; pausing is ignored until play starts.
    pub in_menu: bool,
    /// The score the score label shows.
    pub score: i32,
}

impl UI {
    /// A fresh HUD: not paused, in the main menu, score label at zero.
    pub fn new() -> (ui: UI)
        ensures
            !ui.paused,
            ui.in_menu,
            ui.score == 0,
    {
        UI { paused: false, in_menu: true, score: 0 }
    }

    /// Shows a new score on the score label.
    pub fn update_score(&mut self, score: i32)
        ensures
            final(self).score == score,
            final(self).paused == old(self).paused,
            final(self).in_menu == old(self).in_menu,
    {
        self.score = score;
    }

    /// Pauses the game, unless it already is paused or the main menu is
    /// still up. The result says whether it engaged: on `true` the host
    /// shows the pause overlay and halts the engine.
    pub fn pause(&mut self) -> (engaged: bool)
        ensures
            engaged == (!old(self).paused && !old(self).in_menu),
            final(self).paused == (old(self).paused || engaged),
            final(self).in_menu == old(self).in_menu,
            final(self).score == old(self).score,
    {
        if self.paused || self.in_menu {
            return false;
        }

        self.paused = true;
        true
    }

    /// Unpauses the game: the host hides the pause overlay and lets the
    /// engine run again.
    pub fn unpause(&mut self)
        ensures
            !final(self).paused,
            final(self).in_menu == old(self).in_menu,
            final(self).score == old(self).score,
    {
        self.paused = false;
    }

    /// Leaves the main menu and starts the run: the host hides the menu,
    /// shows the score label and lets the engine run.
    pub fn play(&mut self)
        ensures
            !final(self).paused,
            !final(self).in_menu,
            final(self).score == old(self).score,
    {
        self.unpause();
        self.in_menu = false;
    }

    /// A press of the pause action: releases a held pause, engages one
    /// during a run, and does nothing while the main menu is up.
    pub fn handle_pause_pressed(&mut self) -> (outcome: PauseOutcome)
        ensures
            old(self).paused ==> outcome == PauseOutcome::Released && !final(self).paused,
            !old(self).paused && old(self).in_menu ==> outcome == PauseOutcome::Ignored
                && !final(self).paused,
            !old(self).paused && !old(self).in_menu ==> outcome == PauseOutcome::Engaged
                && final(self).paused,
            final(self).in_menu == old(self).in_menu,
            final(self).score == old(self).score,
    {
        if self.paused {
            self.unpause();
            PauseOutcome::Released
        } else {
            let engaged = self.pause();
            if engaged {
                PauseOutcome::Engaged
            } else {
                PauseOutcome::Ignored
            }
        }
    }
}

} // verus!
