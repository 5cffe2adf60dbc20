//! The main scene's game rules: the platform lanes a floor offers, the
//! running score, and the intensity tiers that ramp the difficulty. The
//! engine-side work — instantiating floor and portal scenes, moving nodes,
//! timers — stays with the host; the decisions it acts on are made here.

use crate::player::Player;
use crate::portal::Portal;
use crate::portal::Realm;
use crate::random::random_below;
use vstd::prelude::*;

verus! {

/// How much a threshold crossing adds to the runner's speed, in units per second.
pub const SPEED_INCREASE: u32 = 10;

/// How much a threshold crossing takes off the floor-spawn timer, in milliseconds.
pub const TIME_DECREASE_MILLIS: u32 = 100;

/// One of the three platforms a floor offers; also the name of the matching
/// platform node under a floor.
#[derive(Clone, Copy, Debug, PartialEq, Eq, Structural)]
pub enum PlatformDirection {
    Left,
    Right,
    Center,
}

impl PlatformDirection {
    /// Where a left strafe lands: one lane leftward, clamped at the left edge.
    pub open spec fn shifted_left(self) -> PlatformDirection {
        match self {
            PlatformDirection::Center => PlatformDirection::Left,
            PlatformDirection::Right => PlatformDirection::Center,
            PlatformDirection::Left => PlatformDirection::Left,
        }
    }

    /// Where a right strafe lands: one lane rightward, clamped at the right edge.
    pub open spec fn shifted_right(self) -> PlatformDirection {
        match self {
            PlatformDirection::Center => PlatformDirection::Right,
            PlatformDirection::Left => PlatformDirection::Center,
            PlatformDirection::Right => PlatformDirection::Right,
        }
    }

    /// The node name of the matching platform mesh under a floor.
    pub open spec fn name_spec(self) -> Seq<char> {
        match self {
            PlatformDirection::Left => "Left"@,
            PlatformDirection::Right => "Right"@,
            PlatformDirection::Center => "Center"@,
        }
    }

    /// The node name of the matching platform mesh under a floor.
    pub fn name(&self) -> (s: &'static str)
        ensures
            s@ == self.name_spec(),
    {
        match self {
            PlatformDirection::Left => "Left",
            PlatformDirection::Right => "Right",
            PlatformDirection::Center => "Center",
        }
    }

    /// The lane's visual x offset, in thousandths of a unit. The engine
    /// divides by a thousand and lerps the body toward it.
    pub open spec fn target_x_millis_spec(self) -> int {
        match self {
            PlatformDirection::Center => 0,
            PlatformDirection::Right => 4437,
            PlatformDirection::Left => -4432,
        }
    }

    /// The lane's visual x offset, in thousandths of a unit.
    pub fn target_x_millis(&self) -> (x: i32)
        ensures
            x as int == self.target_x_millis_spec(),
    {
        match self {
            PlatformDirection::Center => 0,
            PlatformDirection::Right => 4437,
            PlatformDirection::Left => -4432,
        }
    }

    /// A uniform draw over the three lanes, as a portal spawn uses to pick
    /// the platform a portal appears on. Nothing is promised of which lane
    /// comes out.
    pub fn sample() -> (d: PlatformDirection) {
        let i = random_below(3);
        match i {
            0 => PlatformDirection::Left,
            1 => PlatformDirection::Center,
            2 => PlatformDirection::Right,
            _ => PlatformDirection::Center,
        }
    }
}

/// The score a strictly increasing counter must reach, with the intensity
/// already at the matching tier, for the game to speed up once more. Out of
/// range, no threshold.
pub open spec fn speed_threshold(i: int) -> int {
    if i == 0 {
        100
    } else if i == 1 {
        200
    } else if i == 2 {
        300
    } else if i == 3 {
        400
    } else if i == 4 {
        500
    } else if i == 5 {
        600
    } else if i == 6 {
        700
    } else if i == 7 {
        850
    } else {
        0
    }
}

/// Whether reaching `score` at intensity tier `intensity` crosses the next
/// speed threshold.
pub open spec fn threshold_fires(score: int, intensity: int) -> bool {
    0 <= intensity < 8 && speed_threshold(intensity) == score
}

/// The thresholds are distinct, so no single score can match two table
/// entries: one score increment raises the intensity at most once.
pub proof fn lemma_threshold_match_unique(score: int, i: int, j: int)
    requires
        0 <= i < 8,
        0 <= j < 8,
        speed_threshold(i) == score,
        speed_threshold(j) == score,
    ensures
        i == j,
{
}

/// The main scene's state: the score, the intensity tier it has earned, the
/// realm the player is running in, and how many floors have been spawned.
/// The scene resources and node handles live with the host engine.
pub struct Main {
    /// Portals passed so far.
    pub score: i32,
    /// How many speed thresholds the score has crossed.
    pub game_intensity: i8,
    /// The realm the player currently runs in.
    pub current_realm: Realm,
    /// How many floors have been spawned since the run began.
    pub floor_count: u32,
}

impl Main {
    /// Whether the counters are in their reachable range: the intensity
    /// names one of the eight thresholds or sits past the last.
    pub open spec fn wf(self) -> bool {
        0 <= self.game_intensity <= 8
    }

    /// A fresh run: no score, base intensity, the overworld, no floors yet.
    pub fn new() -> (m: Main)
        ensures
            m.score == 0,
            m.game_intensity == 0,
            m.current_realm == Realm::Overworld,
            m.floor_count == 0,
            m.wf(),
    {
        Main { score: 0, game_intensity: 0, current_realm: Realm::Overworld, floor_count: 0 }
    }

    /// Records one more floor. The engine instantiates the floor scene and
    /// slides it toward the slot this count gives.
    pub fn spawn_floor(&mut self)
        requires
            old(self).floor_count < u32::MAX,
        ensures
            final(self).floor_count == old(self).floor_count + 1,
            final(self).score == old(self).score,
            final(self).game_intensity == old(self).game_intensity,
            final(self).current_realm == old(self).current_realm,
    {
        self.floor_count = self.floor_count + 1;
    }

    /// The z position the newest floor slides toward: each floor sits
    /// seventy units further out than the one before.
    pub fn target_floor_z(&self) -> (z: i64)
        ensures
            z == -70 * (self.floor_count as int),
    {
        -70i64 * (self.floor_count as i64)
    }

    /// Readies a portal for spawning: picks its realm away from the current
    /// one and draws the lane whose platform the portal appears on. The
    /// engine instantiates the portal scene under that platform's node.
    pub fn spawn_portal(&self, portal: &mut Portal) -> (d: PlatformDirection)
        ensures
            final(portal).portal_realm != self.current_realm,
    {
        let direction = PlatformDirection::sample();
        portal.setup(&self.current_realm);
        direction
    }

    /// Raises the runner's speed by one step. The engine also shortens its
    /// floor-spawn timer by `TIME_DECREASE_MILLIS`.
    pub fn increase_speed(&self, player: &mut Player)
        requires
            old(player).speed <= u32::MAX - SPEED_INCREASE,
        ensures
            final(player).speed == old(player).speed + SPEED_INCREASE,
            final(player).jump_power == old(player).jump_power,
            final(player).gravity == old(player).gravity,
            final(player).dead == old(player).dead,
            final(player).platform_standing == old(player).platform_standing,
    {
        player.speed = player.speed + SPEED_INCREASE;
    }

    /// Counts one more portal passed. When the new score sits exactly on the
    /// threshold the current intensity tier names, the intensity rises one
    /// tier and the runner speeds up; otherwise nothing else changes. The
    /// result says whether that happened, so the engine can shorten its
    /// spawn timer and the score label can be refreshed either way.
    pub fn increase_score(&mut self, player: &mut Player) -> (speed_up: bool)
        requires
            old(self).wf(),
            old(self).score < i32::MAX,
            old(player).speed <= u32::MAX - SPEED_INCREASE,
        ensures
            final(self).wf(),
            final(self).score == old(self).score + 1,
            speed_up == threshold_fires(old(self).score + 1, old(self).game_intensity as int),
            speed_up ==> final(self).game_intensity == old(self).game_intensity + 1,
            !speed_up ==> final(self).game_intensity == old(self).game_intensity,
            final(self).current_realm == old(self).current_realm,
            final(self).floor_count == old(self).floor_count,
            speed_up ==> final(player).speed == old(player).speed + SPEED_INCREASE,
            !speed_up ==> *final(player) == *old(player),
            final(player).jump_power == old(player).jump_power,
            final(player).gravity == old(player).gravity,
            final(player).dead == old(player).dead,
            final(player).platform_standing == old(player).platform_standing,
    {
        self.score = self.score + 1;

        let thresholds: [i32; 8] = [100, 200, 300, 400, 500, 600, 700, 850];
        let mut fired = false;
        let mut i: usize = 0;
        while i < 8
            invariant
                0 <= i <= 8,
                old(self).wf(),
                old(player).speed <= u32::MAX - SPEED_INCREASE,
                forall|k: int| 0 <= k < 8 ==> thresholds@[k] as int == speed_threshold(k),
                self.score == old(self).score + 1,
                self.current_realm == old(self).current_realm,
                self.floor_count == old(self).floor_count,
                fired == (threshold_fires(self.score as int, old(self).game_intensity as int)
                    && old(self).game_intensity < i),
                fired ==> self.game_intensity == old(self).game_intensity + 1,
                !fired ==> self.game_intensity == old(self).game_intensity,
                fired ==> player.speed == old(player).speed + SPEED_INCREASE,
                !fired ==> *player == *old(player),
                player.jump_power == old(player).jump_power,
                player.gravity == old(player).gravity,
                player.dead == old(player).dead,
                player.platform_standing == old(player).platform_standing,
            decreases 8 - i,
        {
            if thresholds[i] == self.score && self.game_intensity == i as i8 {
                proof {
                    // A second match would mean two distinct table entries
                    // hold the same score.
                    if fired {
                        assert(thresholds@[i as int] as int == speed_threshold(i as int));
                        lemma_threshold_match_unique(
                            self.score as int,
                            old(self).game_intensity as int,
                            i as int,
                        );
                        assert(false);
                    }
                }
                self.game_intensity = self.game_intensity + 1;
                self.increase_speed(player);
                fired = true;
            }
            i = i + 1;
        }
        fired
    }
}

} // verus!
