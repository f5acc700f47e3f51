//! Stat channels, the perfect-roll table and the set-bonus table.

use vstd::prelude::*;
use crate::text::str_eq;

verus! {

/// Upper bound on any channel amount that this library accumulates.
pub const CHANNEL_LIMIT: u64 = 1_000_000;

/// Amounts on the six stat channels, in tenths of a percent.
#[derive(Clone, Copy, Debug, PartialEq, Eq, Structural)]
pub struct Channels {
    pub dmg: u64,
    pub spa: u64,
    pub range: u64,
    pub cm: u64,
    pub cf: u64,
    pub dot: u64,
}

impl Channels {
    pub open spec fn of(dmg: u64, spa: u64, range: u64, cm: u64, cf: u64, dot: u64) -> Channels {
        Channels { dmg, spa, range, cm, cf, dot }
    }

    pub open spec fn zero() -> Channels {
        Channels::of(0, 0, 0, 0, 0, 0)
    }

    /// Every channel is at most `n`.
    pub open spec fn bounded(self, n: int) -> bool {
        self.dmg <= n && self.spa <= n && self.range <= n && self.cm <= n && self.cf <= n
            && self.dot <= n
    }

    /// Channel-wise sum.
    pub open spec fn plus(self, o: Channels) -> Channels {
        Channels {
            dmg: (self.dmg + o.dmg) as u64,
            spa: (self.spa + o.spa) as u64,
            range: (self.range + o.range) as u64,
            cm: (self.cm + o.cm) as u64,
            cf: (self.cf + o.cf) as u64,
            dot: (self.dot + o.dot) as u64,
        }
    }

    pub fn new_zero() -> (r: Channels)
        ensures
            r == Channels::zero(),
    {
        Channels { dmg: 0, spa: 0, range: 0, cm: 0, cf: 0, dot: 0 }
    }

    /// Channel-wise sum of two bounded amounts.
    pub fn sum(self, o: Channels) -> (r: Channels)
        requires
            self.bounded(CHANNEL_LIMIT as int),
            o.bounded(CHANNEL_LIMIT as int),
        ensures
            r == self.plus(o),
            r.bounded(2 * CHANNEL_LIMIT),
    {
        Channels {
            dmg: self.dmg + o.dmg,
            spa: self.spa + o.spa,
            range: self.range + o.range,
            cm: self.cm + o.cm,
            cf: self.cf + o.cf,
            dot: self.dot + o.dot,
        }
    }
}

/// The channel that a stat key names, with the amount `v` on it.
pub open spec fn on_channel(key: Seq<char>, v: u64) -> Channels {
    if key == "dmg"@ {
        Channels::of(v, 0, 0, 0, 0, 0)
    } else if key == "spa"@ {
        Channels::of(0, v, 0, 0, 0, 0)
    } else if key == "range"@ {
        Channels::of(0, 0, v, 0, 0, 0)
    } else if key == "cm"@ {
        Channels::of(0, 0, 0, v, 0, 0)
    } else if key == "cf"@ {
        Channels::of(0, 0, 0, 0, v, 0)
    } else if key == "dot"@ {
        Channels::of(0, 0, 0, 0, 0, v)
    } else {
        Channels::zero()
    }
}

/// Value of one perfect sub-stat roll on the channel `key` names; 0 for an unknown key.
pub open spec fn perfect_sub(key: Seq<char>) -> u64 {
    if key == "dmg"@ {
        40
    } else if key == "spa"@ {
        15
    } else if key == "cm"@ {
        45
    } else if key == "cf"@ {
        25
    } else if key == "dot"@ {
        50
    } else if key == "range"@ {
        20
    } else {
        0
    }
}

/// Baseline bonus of an equipment set, before any scaling; zero for an unknown set.
pub open spec fn set_bonus(set: Seq<char>) -> Channels {
    if set == "laughing"@ {
        Channels::of(50, 50, 0, 0, 0, 0)
    } else if set == "ninja"@ {
        Channels::of(50, 0, 0, 0, 0, 0)
    } else if set == "sun_god"@ {
        Channels::of(50, 0, 0, 0, 0, 0)
    } else if set == "ex"@ {
        Channels::of(0, 0, 0, 250, 100, 0)
    } else if set == "shadow_reaper"@ {
        Channels::of(25, 0, 100, 50, 50, 0)
    } else if set == "reaper_set"@ {
        Channels::of(0, 75, 150, 0, 0, 0)
    } else {
        Channels::zero()
    }
}

/// Value of one perfect sub-stat roll, in tenths of a percent.
pub fn get_perfect_sub(key: &str) -> (r: u64)
    ensures
        r == perfect_sub(key@),
        r <= 50,
{
    if str_eq(key, "dmg") {
        40
    } else if str_eq(key, "spa") {
        15
    } else if str_eq(key, "cm") {
        45
    } else if str_eq(key, "cf") {
        25
    } else if str_eq(key, "dot") {
        50
    } else if str_eq(key, "range") {
        20
    } else {
        0
    }
}

/// An equipment set with amounts on its six channels.
#[derive(Clone, Debug)]
pub struct RelicStats {
    pub set: String,
    pub dmg: u64,
    pub spa: u64,
    pub range: u64,
    pub cm: u64,
    pub cf: u64,
    pub dot: u64,
}

impl RelicStats {
    /// The six channel amounts.
    pub open spec fn channels(&self) -> Channels {
        Channels::of(self.dmg, self.spa, self.range, self.cm, self.cf, self.dot)
    }

    /// The set `set_id` with nothing on any channel.
    pub fn new(set_id: &str) -> (r: RelicStats)
        ensures
            r.set@ == set_id@,
            r.channels() == Channels::zero(),
    {
        RelicStats { set: set_id.to_owned(), dmg: 0, spa: 0, range: 0, cm: 0, cf: 0, dot: 0 }
    }

    /// Adds `val` to the channel that `key` names; an unknown key changes nothing.
    pub fn add_to(&mut self, key: &str, val: u64)
        requires
            old(self).channels().bounded(CHANNEL_LIMIT as int),
            val <= CHANNEL_LIMIT,
        ensures
            final(self).set == old(self).set,
            final(self).channels() == old(self).channels().plus(on_channel(key@, val)),
    {
        if str_eq(key, "dmg") {
            self.dmg = self.dmg + val;
        } else if str_eq(key, "spa") {
            self.spa = self.spa + val;
        } else if str_eq(key, "range") {
            self.range = self.range + val;
        } else if str_eq(key, "cm") {
            self.cm = self.cm + val;
        } else if str_eq(key, "cf") {
            self.cf = self.cf + val;
        } else if str_eq(key, "dot") {
            self.dot = self.dot + val;
        }
    }
}

/// The baseline bonus of the set `set_id`.
pub fn get_set_bonus(set_id: &str) -> (r: RelicStats)
    ensures
        r.set@ == set_id@,
        r.channels() == set_bonus(set_id@),
{
    let mut stats = RelicStats::new(set_id);
    if str_eq(set_id, "laughing") {
        stats.dmg = 50;
        stats.spa = 50;
    } else if str_eq(set_id, "ninja") {
        stats.dmg = 50;
    } else if str_eq(set_id, "sun_god") {
        stats.dmg = 50;
    } else if str_eq(set_id, "ex") {
        stats.cf = 100;
        stats.cm = 250;
    } else if str_eq(set_id, "shadow_reaper") {
        stats.dmg = 25;
        stats.range = 100;
        stats.cf = 50;
        stats.cm = 50;
    } else if str_eq(set_id, "reaper_set") {
        stats.spa = 75;
        stats.range = 150;
    }
    stats
}

} // verus!
