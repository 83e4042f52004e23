//! Alarm records and the colors that each severity is shown in.

use vstd::prelude::*;
use crate::color::Rgba;

verus! {

/// Severity of an alarm.
#[derive(Clone, Copy, Debug, PartialEq, Eq, Structural)]
pub enum AlarmPriority {
    High,
    Medium,
    Low,
}

/// An alarm condition: its number and the sentence that explains it.
#[derive(Debug, PartialEq, Eq)]
pub struct AlarmCode {
    pub code: u8,
    pub description: String,
}

impl AlarmCode {
    pub fn new(code: u8, description: String) -> (alarm: AlarmCode)
        ensures
            alarm.code == code,
            alarm.description == description,
    {
        AlarmCode { code, description }
    }

    /// The alarm's number.
    pub fn code(&self) -> (code: u8)
        ensures
            code == self.code,
    {
        self.code
    }

    /// The sentence that explains the alarm.
    pub fn description(&self) -> (description: &str)
        ensures
            description@ == self.description@,
    {
        self.description.as_str()
    }
}

/// Background of the badge that shows an alarm's number. The higher the
/// severity, the redder it is.
pub open spec fn code_color(priority: AlarmPriority) -> Rgba {
    match priority {
        AlarmPriority::High => Rgba::solid(255, 32, 32),
        AlarmPriority::Medium => Rgba::solid(255, 138, 0),
        AlarmPriority::Low => Rgba::solid(255, 195, 0),
    }
}

/// Background of the strip that shows an alarm's description: a darker shade
/// of the badge beside it.
pub open spec fn message_color(priority: AlarmPriority) -> Rgba {
    match priority {
        AlarmPriority::High => Rgba::solid(169, 35, 35),
        AlarmPriority::Medium => Rgba::solid(169, 99, 16),
        AlarmPriority::Low => Rgba::solid(174, 133, 0),
    }
}

} // verus!
