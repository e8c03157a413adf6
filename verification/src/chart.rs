//! The timing-resolved chart: notes and track geometry that carry absolute
//! time and track position.
use vstd::prelude::*;
use crate::timeline::ZPositionCalculator;

verus! {

/// Time in millionths of a second.
#[derive(Clone, Copy, Debug, Default, PartialEq, Eq, Structural)]
pub struct Time(pub i64);

/// A resolved coordinate: playback time, track depth and lateral position.
#[derive(Clone, Copy, Debug, Default, PartialEq, Eq, Structural)]
pub struct TrackPosition {
    pub time: Time,
    pub z: i64,
    pub x: i64,
}

/// The two boundaries of a platform, each sorted by time.
#[derive(Clone, Debug)]
pub struct Platform {
    pub points_left: Vec<TrackPosition>,
    pub points_right: Vec<TrackPosition>,
}

/// Lane kind as a raw code whose meaning depends on the chart format.
#[derive(Clone, Copy, Debug, PartialEq, Eq, Hash, Structural)]
pub struct LaneType(pub u16);

/// A lane as a list of resolved points, sorted by time.
#[derive(Clone, Debug)]
pub struct Lane {
    pub points: Vec<TrackPosition>,
}

/// All lanes of one kind, in chart order.
#[derive(Clone, Debug)]
pub struct LaneGroup {
    pub ty: LaneType,
    pub lanes: Vec<Lane>,
}

/// Track geometry. No lane kind heads more than one group of a track that
/// satisfies `wf`.
#[derive(Clone, Debug, Default)]
pub struct Track {
    pub platforms: Vec<Platform>,
    pub lanes: Vec<LaneGroup>,
}

impl Track {
    /// Each lane kind occurs in at most one group.
    pub open spec fn wf(&self) -> bool {
        forall|i: int, j: int|
            0 <= i < j < self.lanes@.len() ==> self.lanes@[i].ty != self.lanes@[j].ty
    }
}

/// Hit note kind as a raw code whose meaning depends on the chart format.
#[derive(Clone, Copy, Debug, PartialEq, Eq, Structural)]
pub struct HitNoteType(pub u16);

/// A note that is hit at a point of the track.
#[derive(Clone, Debug)]
pub struct HitNote {
    pub ty: HitNoteType,
    pub position: TrackPosition,
}

/// Contact note kind as a raw code whose meaning depends on the chart format.
#[derive(Clone, Copy, Debug, PartialEq, Eq, Structural)]
pub struct ContactNoteType(pub u16);

/// A note that is collected by touching it.
#[derive(Clone, Debug)]
pub struct ContactNote {
    pub ty: ContactNoteType,
    pub position: TrackPosition,
}

/// Evade note kind as a raw code whose meaning depends on the chart format.
#[derive(Clone, Copy, Debug, PartialEq, Eq, Structural)]
pub struct EvadeNoteType(pub u16);

/// Linear translation of a note.
#[derive(Clone, Copy, Debug)]
pub struct NoteMovement {
    /// Where the note starts.
    pub start: TrackPosition,
    /// Where the note arrives.
    pub end: TrackPosition,
    /// When the movement begins.
    pub trigger_time: Time,
    /// How long the movement takes, in millionths of a second.
    pub duration: i64,
}

impl NoteMovement {
    /// A movement never runs backwards in time.
    pub open spec fn wf(&self) -> bool {
        self.duration >= 0
    }

    /// Whether the note stays where it starts.
    pub fn is_static(&self) -> (r: bool)
        ensures
            r == (self.start == self.end),
    {
        self.start == self.end
    }
}

/// A note that moves and is to be evaded.
#[derive(Clone, Copy, Debug)]
pub struct EvadeNote {
    pub ty: EvadeNoteType,
    pub movement: NoteMovement,
}

/// The side to which a flick goes.
#[derive(Clone, Copy, Debug, PartialEq, Eq, Structural)]
pub enum FlickDirection {
    Left,
    Right,
}

/// A note that is flicked to a side.
#[derive(Clone, Debug)]
pub struct FlickNote {
    pub direction: FlickDirection,
    pub position: TrackPosition,
}

/// A note that is held along a path of points, sorted by time.
#[derive(Clone, Debug)]
pub struct HoldNote {
    pub ty: HitNoteType,
    pub points: Vec<TrackPosition>,
}

/// The notes of a chart by category.
#[derive(Clone, Debug, Default)]
pub struct Notes {
    pub hits: Vec<HitNote>,
    pub holds: Vec<HoldNote>,
    pub contacts: Vec<ContactNote>,
    pub evades: Vec<EvadeNote>,
    pub flicks: Vec<FlickNote>,
}

/// The tempo from a time on.
#[derive(Clone, Copy, Debug)]
pub struct BpmChange {
    pub time: Time,
    /// Beats per minute, in millionths.
    pub bpm: i64,
}

/// How many beats a measure has, and which note value is a beat.
#[derive(Clone, Copy, Debug, Default, PartialEq, Eq, Structural)]
pub struct TimeSignature {
    /// Beats in a measure.
    pub num_beats: u32,
    /// The note value that counts as one beat.
    pub note_value: u32,
}

/// The time signature from a time on.
#[derive(Clone, Copy, Debug)]
pub struct TimeSignatureChange {
    pub time: Time,
    pub time_signature: TimeSignature,
}

/// The scroll speed from a time on.
#[derive(Clone, Copy, Debug)]
pub struct Soflan {
    pub time: Time,
    /// In millionths of a second.
    pub duration: i64,
    /// In millionths.
    pub speed_multiplier: i64,
}

/// Tempo, meter and scroll-speed events, each list sorted by time.
#[derive(Clone, Debug, Default)]
pub struct Composition {
    pub bpm_changes: Vec<BpmChange>,
    pub time_signature_changes: Vec<TimeSignatureChange>,
    pub soflans: Vec<Soflan>,
}

/// Track, notes and composition of a chart.
#[derive(Clone, Debug, Default)]
pub struct ChartData {
    pub track: Track,
    pub notes: Notes,
    pub composition: Composition,
}

/// What a chart says of its audio.
#[derive(Clone, Debug, Default)]
pub struct Header {
    /// Path of the audio file.
    pub audio_filename: String,
    /// Offset to the start of the audio, in millionths of a second.
    pub audio_offset: i64,
}

/// Chart metadata that no chart file sets.
#[derive(Clone, Debug, Default)]
pub struct Metadata {
    /// Base speed multiplier, in millionths.
    pub base_speed: i64,
}

/// The timeline with which a chart was resolved.
#[derive(Clone, Debug)]
pub struct ChartUtils {
    pub z_position_calculator: ZPositionCalculator,
}

/// A chart whose every entity carries absolute time and track position.
#[derive(Clone, Debug)]
pub struct Chart {
    pub header: Header,
    pub metadata: Metadata,
    pub data: ChartData,
    pub utils: ChartUtils,
}

} // verus!
