//! A chart as its parser hands it over: every entity at a measure and a grid
//! position within it, and at a lane position.
use vstd::prelude::*;

verus! {

/// A measure and a grid position within it.
#[derive(Clone, Copy, Debug, PartialEq, Eq, Structural)]
pub struct TimingPoint {
    /// The index of the measure; the first measure is measure zero.
    pub measure: u32,
    /// The grid position in millionths; it counts from one.
    pub beat_offset: i64,
}

/// A lane position: whole lane units and a part of one.
#[derive(Clone, Copy, Debug, PartialEq, Eq, Structural)]
pub struct XPosition {
    /// Lane units, in millionths.
    pub position: i64,
    /// Parts of a lane unit, in millionths; the lane resolution of the chart
    /// says how many make a lane unit.
    pub offset: i64,
}

/// Where an entity of the chart stands.
#[derive(Clone, Copy, Debug, PartialEq, Eq, Structural)]
pub struct RawTrackPosition {
    pub time: TimingPoint,
    pub x: XPosition,
}

/// A time signature as the chart writes it.
#[derive(Clone, Copy, Debug, PartialEq, Eq, Structural)]
pub struct MeterChange {
    pub num_beats: u32,
    pub note_value: u32,
}

/// The tempo from the measure `at.measure` on.
#[derive(Clone, Copy, Debug)]
pub struct RawBpmChange {
    pub at: TimingPoint,
    /// Beats per minute, in millionths.
    pub bpm: i64,
}

/// The time signature from the measure `at.measure` on.
#[derive(Clone, Copy, Debug)]
pub struct RawMeterChange {
    pub at: TimingPoint,
    pub meter: MeterChange,
}

/// The scroll speed from the measure `at.measure` on.
#[derive(Clone, Copy, Debug)]
pub struct RawSoflan {
    pub at: TimingPoint,
    /// In millionths.
    pub speed_multiplier: i64,
}

/// The changes of tempo, time signature and scroll speed, each list in the
/// order of the chart.
#[derive(Clone, Debug, Default)]
pub struct RawComposition {
    pub bpm_changes: Vec<RawBpmChange>,
    pub meter_changes: Vec<RawMeterChange>,
    pub soflans: Vec<RawSoflan>,
}

/// The kinds of lane that a chart knows.
#[derive(Clone, Copy, Debug, PartialEq, Eq, Structural)]
pub enum RawLaneType {
    WallLeft,
    WallRight,
    Left,
    Center,
    Right,
    Enemy,
    Other,
}

/// A lane as a list of points, sorted by time.
#[derive(Clone, Debug)]
pub struct RawLane {
    pub points: Vec<RawTrackPosition>,
}

/// The lanes of a chart by kind, each list sorted by the time at which the
/// lane starts.
#[derive(Clone, Debug, Default)]
pub struct RawTrack {
    pub walls_left: Vec<RawLane>,
    pub walls_right: Vec<RawLane>,
    pub lanes_left: Vec<RawLane>,
    pub lanes_center: Vec<RawLane>,
    pub lanes_right: Vec<RawLane>,
    pub enemy_lanes: Vec<RawLane>,
}

/// A tap on a lane.
#[derive(Clone, Copy, Debug)]
pub struct RawTap {
    pub lane_type: RawLaneType,
    pub is_critical: bool,
    pub position: RawTrackPosition,
}

/// A bell.
#[derive(Clone, Copy, Debug)]
pub struct RawBell {
    pub position: RawTrackPosition,
}

/// The side to which a flick goes, as the chart writes it.
#[derive(Clone, Copy, Debug, PartialEq, Eq, Structural)]
pub enum RawFlickDirection {
    Left,
    Right,
}

/// A flick to a side.
#[derive(Clone, Copy, Debug)]
pub struct RawFlick {
    pub direction: RawFlickDirection,
    pub position: RawTrackPosition,
}

/// A hold along a path of points on a lane.
#[derive(Clone, Debug)]
pub struct RawHold {
    pub lane_type: RawLaneType,
    pub is_critical: bool,
    pub points: Vec<RawTrackPosition>,
}

/// The notes of a parsed chart by category.
#[derive(Clone, Debug, Default)]
pub struct RawNotes {
    pub taps: Vec<RawTap>,
    pub bells: Vec<RawBell>,
    pub flicks: Vec<RawFlick>,
    pub holds: Vec<RawHold>,
}

/// From where a bullet is shot.
#[derive(Clone, Copy, Debug, PartialEq, Eq, Structural)]
pub enum BulletShooter {
    /// From the far end of the track, straight at the place where it lands.
    EndPosition,
    /// From the enemy.
    Enemy,
    /// From the far end of the track, at its middle.
    Center,
}

/// At what a bullet is shot.
#[derive(Clone, Copy, Debug, PartialEq, Eq, Structural)]
pub enum BulletTarget {
    /// At the place where the player stands when the bullet is shot.
    Player,
    /// At a fixed place.
    FixedField,
}

/// A bullet, with what its palette says of it.
#[derive(Clone, Copy, Debug)]
pub struct RawBullet {
    pub shooter: BulletShooter,
    pub target: BulletTarget,
    /// In millionths.
    pub speed: i64,
    /// Where the bullet lands.
    pub position: RawTrackPosition,
}

/// What the head of a chart file defines; `None` for what it leaves out.
#[derive(Clone, Copy, Debug, Default)]
pub struct RawHeader {
    /// The starting time signature.
    pub meter_definition: Option<MeterChange>,
    /// The starting tempo in beats per minute, in millionths.
    pub bpm_definition: Option<i64>,
    /// The number of grid positions in a measure.
    pub tick_resolution: Option<u32>,
    /// The number of offset units in a lane unit, in millionths.
    pub x_resolution: Option<i64>,
    /// The number of measures.
    pub num_measures: Option<usize>,
}

/// A parsed chart.
#[derive(Clone, Debug, Default)]
pub struct RawChart {
    pub header: RawHeader,
    pub composition: RawComposition,
    pub track: RawTrack,
    pub notes: RawNotes,
    pub bullets: Vec<RawBullet>,
}

} // verus!
