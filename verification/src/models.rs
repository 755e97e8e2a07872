//! Plain data records shared with the embedding application.
//!
//! These records carry no behaviour of their own; persistence and device
//! communication around them are owned by the embedding application.

use vstd::prelude::*;

verus! {

#[derive(Clone, Debug, PartialEq, Eq, Hash)]
pub struct DeviceId(pub String);

#[derive(Clone, Debug, PartialEq, Eq, Hash)]
pub struct DiveId(pub String);

#[derive(Clone, Debug, PartialEq, Eq, Hash)]
pub struct SiteId(pub String);

#[derive(Clone, Debug, PartialEq, Eq, Hash)]
pub struct BuddyId(pub String);

#[derive(Clone, Debug, PartialEq, Eq, Hash)]
pub struct EquipmentId(pub String);

#[derive(Clone, Debug, PartialEq, Eq, Hash)]
pub struct SegmentId(pub String);

#[derive(Clone, Debug, PartialEq, Eq, Hash)]
pub struct FormulaId(pub String);

#[derive(Clone, Debug, PartialEq, Eq, Hash)]
pub struct SettingsId(pub String);

/// How times are rendered in the user interface.
#[derive(Clone, Debug)]
pub enum TimeFormat {
    HhMmSs,
    MmSs,
}

/// A dive computer known to the application.
#[derive(Clone, Debug)]
pub struct Device {
    pub id: DeviceId,
    pub model: String,
    pub serial_number: String,
    pub firmware_version: String,
    pub last_sync_unix: Option<i64>,
}

/// A dive buddy.
#[derive(Clone, Debug)]
pub struct Buddy {
    pub id: BuddyId,
    pub display_name: String,
    pub contact: Option<String>,
    pub notes: Option<String>,
}

/// A piece of equipment.
#[derive(Clone, Debug)]
pub struct Equipment {
    pub id: EquipmentId,
    pub name: String,
    pub kind: String,
    pub serial_number: Option<String>,
    pub service_interval_days: Option<i32>,
    pub notes: Option<String>,
}

/// A named time window within a dive.
#[derive(Clone, Debug)]
pub struct Segment {
    pub id: SegmentId,
    pub dive_id: DiveId,
    pub name: String,
    pub start_t_sec: i32,
    pub end_t_sec: i32,
    pub tags: Vec<Tag>,
    pub notes: Option<String>,
}

/// A free-form label.
#[derive(Clone, Debug, PartialEq, Eq, Hash)]
pub struct Tag(pub String);

/// A stored user formula.
#[derive(Clone, Debug)]
pub struct Formula {
    pub id: FormulaId,
    pub name: String,
    pub expression: String,
    pub description: Option<String>,
}

/// Application settings.
#[derive(Clone, Debug)]
pub struct Settings {
    pub id: SettingsId,
    pub time_format: TimeFormat,
}

} // verus!
