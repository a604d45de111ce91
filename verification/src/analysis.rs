//! The verdicts of the drone analysis: threat level, kind of drone and
//! recommendations.
//!
//! The analysis measures a target against fixed thresholds. This module
//! holds the thresholds, in whole units, and what follows from the outcome of
//! each comparison; the comparing itself is done where the measurements are.

use vstd::prelude::*;

verus! {

/// A target nearer than this many kilometres can be a high threat.
pub const HIGH_THREAT_RANGE_KM: u32 = 5;

/// A target faster than this many metres per second can be a high threat.
pub const HIGH_THREAT_SPEED_M_S: u32 = 40;

/// A target nearer than this many kilometres is a medium threat at least.
pub const MEDIUM_THREAT_RANGE_KM: u32 = 10;

/// A target faster than this many metres per second is a medium threat at
/// least.
pub const MEDIUM_THREAT_SPEED_M_S: u32 = 30;

/// A target faster than this many metres per second is taken for a racing
/// drone.
pub const RACING_SPEED_M_S: u32 = 50;

/// A target with an amplitude factor above this many thousandths is taken
/// for a large drone.
pub const LARGE_RCS_PERMILLE: u32 = 800;

/// A proximity risk above this many percent calls for action.
pub const PROXIMITY_ALERT_PERCENT: u32 = 70;

/// A velocity risk above this many percent calls for close monitoring.
pub const VELOCITY_ALERT_PERCENT: u32 = 60;

/// A target nearer than this many kilometres is in close range.
pub const CLOSE_RANGE_KM: u32 = 3;

/// How one target compares with the thresholds. Speed is the absolute value
/// of the radial speed.
#[derive(Clone, Copy, Debug, PartialEq, Eq)]
pub struct Findings {
    /// Range below `HIGH_THREAT_RANGE_KM`.
    pub within_high_threat_range: bool,
    /// Speed above `HIGH_THREAT_SPEED_M_S`.
    pub above_high_threat_speed: bool,
    /// Range below `MEDIUM_THREAT_RANGE_KM`.
    pub within_medium_threat_range: bool,
    /// Speed above `MEDIUM_THREAT_SPEED_M_S`.
    pub above_medium_threat_speed: bool,
    /// Speed above `RACING_SPEED_M_S`.
    pub above_racing_speed: bool,
    /// Amplitude factor above `LARGE_RCS_PERMILLE`.
    pub above_large_rcs: bool,
    /// Proximity risk above `PROXIMITY_ALERT_PERCENT`.
    pub proximity_alert: bool,
    /// Velocity risk above `VELOCITY_ALERT_PERCENT`.
    pub velocity_alert: bool,
    /// Range below `CLOSE_RANGE_KM`.
    pub within_close_range: bool,
}

/// How much of a threat a target is.
#[derive(Clone, Copy, Debug, PartialEq, Eq)]
pub enum ThreatLevel {
    Low,
    Medium,
    High,
}

/// What kind of drone a target is taken for.
#[derive(Clone, Copy, Debug, PartialEq, Eq)]
pub enum DroneType {
    Racing,
    Commercial,
    Consumer,
}

impl ThreatLevel {
    /// The name of the level in a report.
    pub open spec fn name(self) -> Seq<char> {
        match self {
            ThreatLevel::Low => "low"@,
            ThreatLevel::Medium => "medium"@,
            ThreatLevel::High => "high"@,
        }
    }

    /// The name of the level in a report.
    pub fn label(&self) -> (text: &'static str)
        ensures
            text@ == self.name(),
    {
        match self {
            ThreatLevel::Low => "low",
            ThreatLevel::Medium => "medium",
            ThreatLevel::High => "high",
        }
    }
}

impl DroneType {
    /// The name of the kind in a report.
    pub open spec fn name(self) -> Seq<char> {
        match self {
            DroneType::Racing => "Racing/High-Speed"@,
            DroneType::Commercial => "Commercial/Large"@,
            DroneType::Consumer => "Consumer/Small"@,
        }
    }

    /// The name of the kind in a report.
    pub fn label(&self) -> (text: &'static str)
        ensures
            text@ == self.name(),
    {
        match self {
            DroneType::Racing => "Racing/High-Speed",
            DroneType::Commercial => "Commercial/Large",
            DroneType::Consumer => "Consumer/Small",
        }
    }
}

/// Advice for a target whose proximity risk calls for action.
pub open spec fn proximity_advice() -> Seq<char> {
    "High proximity risk - consider immediate action"@
}

/// Advice for a target whose velocity risk calls for close monitoring.
pub open spec fn velocity_advice() -> Seq<char> {
    "High velocity detected - monitor closely"@
}

/// Advice for a target in close range.
pub open spec fn close_range_advice() -> Seq<char> {
    "Drone in close range - alert security personnel"@
}

/// Advice for a target that calls for nothing else.
pub open spec fn routine_advice() -> Seq<char> {
    "Continue monitoring - no immediate action required"@
}

impl Findings {
    /// A target is a high threat where it is both near and fast by the high
    /// thresholds, else a medium threat where it is near or fast by the
    /// medium thresholds, else a low one.
    pub open spec fn threat(self) -> ThreatLevel {
        if self.within_high_threat_range && self.above_high_threat_speed {
            ThreatLevel::High
        } else if self.within_medium_threat_range || self.above_medium_threat_speed {
            ThreatLevel::Medium
        } else {
            ThreatLevel::Low
        }
    }

    /// A target is taken for a racing drone where it is that fast, else for
    /// a large one where its echo is that strong, else for a small one.
    pub open spec fn kind(self) -> DroneType {
        if self.above_racing_speed {
            DroneType::Racing
        } else if self.above_large_rcs {
            DroneType::Commercial
        } else {
            DroneType::Consumer
        }
    }

    /// The advice that applies, in the order proximity, velocity, close
    /// range; the routine advice where none of them does.
    pub open spec fn advice(self) -> Seq<Seq<char>> {
        let proximity = if self.proximity_alert {
            seq![proximity_advice()]
        } else {
            seq![]
        };
        let velocity = if self.velocity_alert {
            seq![velocity_advice()]
        } else {
            seq![]
        };
        let close = if self.within_close_range {
            seq![close_range_advice()]
        } else {
            seq![]
        };
        let picked = proximity + velocity + close;
        if picked.len() == 0 {
            seq![routine_advice()]
        } else {
            picked
        }
    }

    /// How much of a threat the target is.
    pub fn threat_level(&self) -> (level: ThreatLevel)
        ensures
            level == self.threat(),
    {
        if self.within_high_threat_range && self.above_high_threat_speed {
            ThreatLevel::High
        } else if self.within_medium_threat_range || self.above_medium_threat_speed {
            ThreatLevel::Medium
        } else {
            ThreatLevel::Low
        }
    }

    /// What kind of drone the target is taken for.
    pub fn estimated_type(&self) -> (kind: DroneType)
        ensures
            kind == self.kind(),
    {
        if self.above_racing_speed {
            DroneType::Racing
        } else if self.above_large_rcs {
            DroneType::Commercial
        } else {
            DroneType::Consumer
        }
    }

    /// What to do about the target. There is always one piece of advice at
    /// least.
    pub fn recommendations(&self) -> (list: Vec<String>)
        ensures
            list@.map_values(|text: String| text@) == self.advice(),
            list@.len() == self.advice().len(),
            forall|i: int| 0 <= i < list@.len() ==> (#[trigger] list@[i])@ == self.advice()[i],
            1 <= list@.len() <= 3,
    {
        let mut list: Vec<String> = Vec::new();
        if self.proximity_alert {
            list.push(String::from_str("High proximity risk - consider immediate action"));
        }
        if self.velocity_alert {
            list.push(String::from_str("High velocity detected - monitor closely"));
        }
        if self.within_close_range {
            list.push(String::from_str("Drone in close range - alert security personnel"));
        }
        if list.len() == 0 {
            list.push(String::from_str("Continue monitoring - no immediate action required"));
        }
        assert(list@.map_values(|text: String| text@) =~= self.advice());
        list
    }
}

} // verus!
