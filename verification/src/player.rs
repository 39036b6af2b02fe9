//! The health model: band classification, the per-tick exposure update and
//! the treatment update for a single player.

use vstd::prelude::*;

verus! {

/// Infection pressure added per unit of human-to-human contact.
pub const HUMAN_INFECTION_RATE: u32 = 3;

/// Infection pressure added per unit of cat-borne contact (unless resistant).
pub const CAT_INFECTION_RATE: u32 = 8;

/// A single simulated actor. `tick` is an advisory counter owned by the
/// driver; `health` drives the band classification; `cat_resistance` is a
/// one-way latch set on the first update whose pre-update band is infected.
#[derive(Debug, Clone, Copy, PartialEq, Eq, Structural)]
pub struct Player {
    pub tick: u32,
    pub health: u32,
    pub cat_resistance: bool,
}

/// External infectious contact for one tick: counts of infected-human and
/// carrier-cat contacts.
#[derive(Debug)]
pub struct ExposureEvent {
    pub human: u32,
    pub cat: u32,
}

/// The ordered health bands, low to high. Derived from `health` on demand,
/// never stored.
#[derive(Debug, Clone, Copy, PartialEq, Eq, Structural)]
pub enum HealthState {
    Immune,
    SuperHealthy,
    Healthy,
    InfectedAsym,
    InfectedSym,
    InfectedSymLate,
    Zombie,
}

/// The band a health value falls in: a total, non-overlapping partition of
/// the non-negative integers, with Zombie as the unbounded top band.
pub open spec fn classify(h: int) -> HealthState {
    if h < 2 {
        HealthState::Immune
    } else if h < 10 {
        HealthState::SuperHealthy
    } else if h < 40 {
        HealthState::Healthy
    } else if h < 70 {
        HealthState::InfectedAsym
    } else if h < 90 {
        HealthState::InfectedSym
    } else if h < 100 {
        HealthState::InfectedSymLate
    } else {
        HealthState::Zombie
    }
}

impl HealthState {
    /// Inclusive start of the band.
    pub open spec fn spec_lower_limit(self) -> u32 {
        match self {
            HealthState::Immune => 0,
            HealthState::SuperHealthy => 2,
            HealthState::Healthy => 10,
            HealthState::InfectedAsym => 40,
            HealthState::InfectedSym => 70,
            HealthState::InfectedSymLate => 90,
            HealthState::Zombie => 100,
        }
    }

    /// Natural per-tick progression rate of the band.
    pub open spec fn spec_progress_rate(self) -> u32 {
        match self {
            HealthState::Immune => 0,
            HealthState::SuperHealthy => 2,
            _ => 1,
        }
    }

    /// Every band above Healthy counts as infected.
    pub open spec fn spec_is_infected(self) -> bool {
        !(self is Immune || self is SuperHealthy || self is Healthy)
    }

    /// Classifies a health value into its band.
    pub fn from(health: u32) -> (s: HealthState)
        ensures
            s == classify(health as int),
    {
        if health < 2 {
            HealthState::Immune
        } else if health < 10 {
            HealthState::SuperHealthy
        } else if health < 40 {
            HealthState::Healthy
        } else if health < 70 {
            HealthState::InfectedAsym
        } else if health < 90 {
            HealthState::InfectedSym
        } else if health < 100 {
            HealthState::InfectedSymLate
        } else {
            HealthState::Zombie
        }
    }

    /// Inclusive start of the band.
    pub fn lower_limit(&self) -> (r: u32)
        ensures
            r == self.spec_lower_limit(),
    {
        match self {
            HealthState::Immune => 0,
            HealthState::SuperHealthy => 2,
            HealthState::Healthy => 10,
            HealthState::InfectedAsym => 40,
            HealthState::InfectedSym => 70,
            HealthState::InfectedSymLate => 90,
            HealthState::Zombie => 100,
        }
    }

    /// Natural per-tick progression rate of the band.
    pub fn progress_rate(&self) -> (r: u32)
        ensures
            r == self.spec_progress_rate(),
    {
        match self {
            HealthState::Immune => 0,
            HealthState::SuperHealthy => 2,
            _ => 1,
        }
    }

    /// Whether the band counts as infected.
    pub fn is_infected(&self) -> (r: bool)
        ensures
            r == self.spec_is_infected(),
    {
        !matches!(
            self,
            HealthState::Immune | HealthState::Healthy | HealthState::SuperHealthy
        )
    }
}

/// Natural per-tick health increase at health `h`, computed against the
/// pre-update band. In SuperHealthy the wrap rule yields the band's rate
/// minus `remainder * quotient` of the provisional sum against the Healthy
/// lower limit, so a SuperHealthy player never jumps past that boundary in
/// one tick; infected bands creep up by their rate; Healthy and Immune are
/// still.
pub open spec fn time_increase_at(h: u32) -> int {
    let s = classify(h as int);
    if s is SuperHealthy {
        let sum = h + s.spec_progress_rate();
        let boundary = HealthState::Healthy.spec_lower_limit() as int;
        s.spec_progress_rate() - (sum % boundary) * (sum / boundary)
    } else if s.spec_is_infected() {
        s.spec_progress_rate() as int
    } else {
        0
    }
}

/// Natural per-tick health decrease at health `h`: only a Healthy player
/// decays, and only while the decayed value would still sit strictly above
/// the Healthy lower limit — natural decay alone never drops a player out of
/// the Healthy band.
pub open spec fn time_decrease_at(h: u32) -> int {
    let s = classify(h as int);
    if s is Healthy {
        let sum = h - s.spec_progress_rate();
        if sum > HealthState::Healthy.spec_lower_limit() {
            s.spec_progress_rate() as int
        } else {
            0
        }
    } else {
        0
    }
}

/// Health gained from one tick's exposure: nothing for Immune or infected
/// players; otherwise human contacts at the human rate plus, unless the cat
/// resistance latch is set, cat contacts at the cat rate.
pub open spec fn exposure_increase_at(h: u32, resist: bool, e: ExposureEvent) -> int {
    let s = classify(h as int);
    if s is Immune || s.spec_is_infected() {
        0
    } else {
        e.human * HUMAN_INFECTION_RATE + if resist {
            0
        } else {
            e.cat * CAT_INFECTION_RATE
        }
    }
}

/// The health value after one exposure update: Zombies are pinned to the
/// Zombie lower limit, Immune players are frozen, and every other band adds
/// the three sub-rules against the pre-update band and health.
pub open spec fn next_health(h: u32, resist: bool, e: ExposureEvent) -> int {
    let s = classify(h as int);
    if s is Zombie {
        HealthState::Zombie.spec_lower_limit() as int
    } else if s is Immune {
        h as int
    } else {
        h + time_increase_at(h) - time_decrease_at(h) + exposure_increase_at(h, resist, e)
    }
}

/// The cat-resistance latch after one exposure update: set as soon as the
/// pre-update band is infected, and never cleared.
pub open spec fn next_resistance(h: u32, resist: bool) -> bool {
    resist || classify(h as int).spec_is_infected()
}

/// The health value after one treatment update: late symptomatic players are
/// cured to the Immune lower limit, symptomatic players to the Healthy lower
/// limit, asymptomatic players lose a flat 35, Healthy players are boosted to
/// the SuperHealthy lower limit, and the remaining bands are untouched.
pub open spec fn treated_health(h: u32) -> int {
    match classify(h as int) {
        HealthState::InfectedSymLate => HealthState::Immune.spec_lower_limit() as int,
        HealthState::InfectedSym => HealthState::Healthy.spec_lower_limit() as int,
        HealthState::InfectedAsym => h - 35,
        HealthState::Healthy => HealthState::SuperHealthy.spec_lower_limit() as int,
        _ => h as int,
    }
}

impl Default for Player {
    /// A fresh player: tick 0, health exactly on the SuperHealthy lower
    /// limit, no cat resistance.
    fn default() -> (p: Player)
        ensures
            p.tick == 0,
            p.health == 2,
            !p.cat_resistance,
    {
        Player { tick: 0, health: 2, cat_resistance: false }
    }
}

impl Player {
    /// Applies one tick's exposure: updates health by the three sub-rules
    /// against the pre-update band, sets the cat-resistance latch if that
    /// band is infected, and pins a Zombie back to the Zombie lower limit.
    pub fn exposure_update(&mut self, exposure: &ExposureEvent)
        requires
            !(classify(old(self).health as int) is Zombie) && !(classify(
                old(self).health as int,
            ) is Immune) ==> old(self).health + time_increase_at(old(self).health)
                + exposure_increase_at(
                old(self).health,
                old(self).cat_resistance,
                *exposure,
            ) <= u32::MAX,
        ensures
            final(self).health as int == next_health(
                old(self).health,
                old(self).cat_resistance,
                *exposure,
            ),
            final(self).cat_resistance == next_resistance(
                old(self).health,
                old(self).cat_resistance,
            ),
            final(self).tick == old(self).tick,
    {
        let state = HealthState::from(self.health);

        // Update health against the pre-update band and health.
        match state {
            HealthState::Zombie | HealthState::Immune => (),
            _ => {
                let increase: u32 = self.time_increase();
                let decrease: u32 = self.time_decrease();
                let exposed: u32 = self.exposure_increase(exposure);
                self.health = self.health + increase + exposed - decrease;
            },
        }

        // One-way resistance latch, judged on the pre-update band.
        if !self.cat_resistance && state.is_infected() {
            self.cat_resistance = true;
        }

        // Pin Zombie as the maximum possible state.
        if state == HealthState::Zombie {
            self.health = HealthState::Zombie.lower_limit();
        }
    }

    /// Applies one treatment: moves health per the current band's treatment
    /// rule; tick and cat resistance are untouched.
    pub fn treatment_update(&mut self)
        ensures
            final(self).health as int == treated_health(old(self).health),
            final(self).cat_resistance == old(self).cat_resistance,
            final(self).tick == old(self).tick,
    {
        self.health = match HealthState::from(self.health) {
            HealthState::InfectedSymLate => HealthState::Immune.lower_limit(),
            HealthState::InfectedSym => HealthState::Healthy.lower_limit(),
            HealthState::InfectedAsym => self.health - 35,
            HealthState::Healthy => HealthState::SuperHealthy.lower_limit(),
            _ => self.health,
        }
    }

    /// Health gained from this tick's exposure, against the current band.
    pub fn exposure_increase(&self, exposure: &ExposureEvent) -> (r: u32)
        requires
            exposure_increase_at(self.health, self.cat_resistance, *exposure) <= u32::MAX,
        ensures
            r as int == exposure_increase_at(self.health, self.cat_resistance, *exposure),
    {
        let state = HealthState::from(self.health);
        if state == HealthState::Immune || state.is_infected() {
            0
        } else {
            exposure.human * HUMAN_INFECTION_RATE + if self.cat_resistance {
                0
            } else {
                exposure.cat * CAT_INFECTION_RATE
            }
        }
    }

    /// Natural per-tick health increase for the current band.
    pub fn time_increase(&self) -> (r: u32)
        ensures
            r as int == time_increase_at(self.health),
    {
        let state = HealthState::from(self.health);
        if state == HealthState::SuperHealthy {
            let sum: u32 = self.health + state.progress_rate();
            let remainder: u32 = sum % HealthState::Healthy.lower_limit();
            let quotient: u32 = sum / HealthState::Healthy.lower_limit();
            proof {
                // The provisional sum sits in 4..=11, so the quotient is 0
                // or 1, and a quotient of 1 leaves a remainder of at most 1.
                assert(remainder * quotient <= 2) by (nonlinear_arith)
                    requires
                        4 <= sum <= 11,
                        remainder == sum % 10,
                        quotient == sum / 10,
                {}
            }
            state.progress_rate() - remainder * quotient
        } else if state.is_infected() {
            state.progress_rate()
        } else {
            0
        }
    }

    /// Natural per-tick health decrease for the current band.
    pub fn time_decrease(&self) -> (r: u32)
        ensures
            r as int == time_decrease_at(self.health),
    {
        let state = HealthState::from(self.health);
        if state == HealthState::Healthy {
            // Preview the decayed value; stay put rather than decay out of
            // the Healthy band.
            let sum: u32 = self.health - state.progress_rate();
            if sum > HealthState::Healthy.lower_limit() {
                state.progress_rate()
            } else {
                0
            }
        } else {
            0
        }
    }
}

impl Default for ExposureEvent {
    /// No exposure at all.
    fn default() -> (e: ExposureEvent)
        ensures
            e.human == 0,
            e.cat == 0,
    {
        ExposureEvent { human: 0, cat: 0 }
    }
}

/// Classification is anchored: every health value sits at or above the lower
/// limit of the band it classifies to.
pub proof fn lemma_classify_bounds(h: u32)
    ensures
        classify(h as int).spec_lower_limit() <= h,
{
}

/// Each band begins exactly at its lower limit: the limit classifies to the
/// band itself, and the value just below it (where one exists) falls in a
/// strictly lower band.
pub proof fn lemma_band_lower_limits(s: HealthState)
    ensures
        classify(s.spec_lower_limit() as int) == s,
        s.spec_lower_limit() > 0 ==> classify(s.spec_lower_limit() as int - 1) != s,
        s.spec_lower_limit() > 0 ==> classify(
            s.spec_lower_limit() as int - 1,
        ).spec_lower_limit() < s.spec_lower_limit(),
{
}

/// Frozen bands: an exposure update leaves an Immune player's health and
/// resistance exactly as they were, whatever the exposure event, and lands a
/// Zombie's health exactly on the Zombie lower limit, even when it started
/// above it. (A Zombie band counts as infected, so a Zombie without cat
/// resistance still gains the latch.)
pub proof fn lemma_frozen_bands(h: u32, resist: bool, e: ExposureEvent)
    ensures
        classify(h as int) is Immune ==> next_health(h, resist, e) == h as int,
        classify(h as int) is Immune ==> next_resistance(h, resist) == resist,
        classify(h as int) is Zombie ==> next_health(h, resist, e)
            == HealthState::Zombie.spec_lower_limit() as int,
        classify(h as int) is Zombie ==> next_resistance(h, resist),
{
}

/// Cat resistance is a one-way latch: an exposure update never clears it,
/// and it turns true exactly on the first update whose pre-update band is
/// infected.
pub proof fn lemma_resistance_latch(h: u32, resist: bool)
    ensures
        resist ==> next_resistance(h, resist),
        !resist ==> (next_resistance(h, resist) <==> classify(h as int).spec_is_infected()),
{
}

} // verus!
