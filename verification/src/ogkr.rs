//! From a parsed chart to the timing-resolved chart.
use vstd::prelude::*;
use vstd::std_specs::convert::FromSpec;
use crate::chart::{
    BpmChange, Chart, ChartData, ChartUtils, Composition, ContactNote, ContactNoteType, EvadeNote,
    EvadeNoteType, FlickDirection, FlickNote, Header, HitNote, HitNoteType, HoldNote, Lane, LaneGroup, LaneType,
    Metadata, NoteMovement, Notes, Platform, Soflan, Time, TimeSignature, TimeSignatureChange,
    Track, TrackPosition,
};
use crate::error::ChartMalformed;
use crate::fixed::{checked_mul_div, in_range, lemma_div_bounds, mul_div, UNIT};
use crate::raw::{
    BulletShooter, BulletTarget, MeterChange, RawBell, RawBpmChange, RawBullet, RawChart,
    RawComposition, RawFlick, RawFlickDirection, RawHeader, RawHold, RawLane, RawLaneType, RawMeterChange, RawSoflan,
    RawTap, RawTrackPosition, TimingPoint, XPosition,
};
use crate::timeline::{
    is_timeline_of, MeasureCompositionData, XPositionCalculator, ZPosition, ZPositionCalculator,
};

verus! {

/// The scale from the lane units of a chart to lateral positions: one
/// twenty-fifth.
pub const OGKR_X_POSITION_MULTIPLIER: i64 = 40_000;

impl From<MeterChange> for TimeSignature {
    fn from(m: MeterChange) -> (r: Self) {
        Self { num_beats: m.num_beats, note_value: m.note_value }
    }
}

impl vstd::std_specs::convert::FromSpecImpl<MeterChange> for TimeSignature {
    open spec fn obeys_from_spec() -> bool {
        true
    }

    open spec fn from_spec(m: MeterChange) -> Self {
        TimeSignature { num_beats: m.num_beats, note_value: m.note_value }
    }
}

impl From<RawLaneType> for LaneType {
    fn from(t: RawLaneType) -> (r: Self) {
        match t {
            RawLaneType::Left => LaneType(1),
            RawLaneType::Center => LaneType(2),
            RawLaneType::Right => LaneType(3),
            RawLaneType::Enemy => LaneType(4),
            _ => LaneType(99),
        }
    }
}

impl vstd::std_specs::convert::FromSpecImpl<RawLaneType> for LaneType {
    open spec fn obeys_from_spec() -> bool {
        true
    }

    open spec fn from_spec(t: RawLaneType) -> Self {
        match t {
            RawLaneType::Left => LaneType(1),
            RawLaneType::Center => LaneType(2),
            RawLaneType::Right => LaneType(3),
            RawLaneType::Enemy => LaneType(4),
            _ => LaneType(99),
        }
    }
}

impl From<RawFlickDirection> for FlickDirection {
    fn from(d: RawFlickDirection) -> (r: Self) {
        match d {
            RawFlickDirection::Left => Self::Left,
            RawFlickDirection::Right => Self::Right,
        }
    }
}

impl vstd::std_specs::convert::FromSpecImpl<RawFlickDirection> for FlickDirection {
    open spec fn obeys_from_spec() -> bool {
        true
    }

    open spec fn from_spec(d: RawFlickDirection) -> Self {
        match d {
            RawFlickDirection::Left => FlickDirection::Left,
            RawFlickDirection::Right => FlickDirection::Right,
        }
    }
}

/// Where the fold of the changes stands after some measures: the composition
/// of the last measure, and for each list of changes the number of changes
/// that were applied.
pub struct FoldState {
    pub current: MeasureCompositionData,
    pub bpm_cursor: int,
    pub meter_cursor: int,
    pub soflan_cursor: int,
}

/// The next tempo change is due at measure `measure_index`: it takes effect
/// at that measure or before it.
pub open spec fn bpm_change_due(c: RawComposition, state: FoldState, measure_index: int) -> bool {
    0 <= state.bpm_cursor < c.bpm_changes@.len() && c.bpm_changes@[state.bpm_cursor].at.measure
        <= measure_index
}

/// The next change of time signature is due at measure `measure_index`.
pub open spec fn meter_change_due(c: RawComposition, state: FoldState, measure_index: int) -> bool {
    0 <= state.meter_cursor < c.meter_changes@.len()
        && c.meter_changes@[state.meter_cursor].at.measure <= measure_index
}

/// The next change of scroll speed is due at measure `measure_index`.
pub open spec fn soflan_due(c: RawComposition, state: FoldState, measure_index: int) -> bool {
    0 <= state.soflan_cursor < c.soflans@.len() && c.soflans@[state.soflan_cursor].at.measure
        <= measure_index
}

/// One measure of the fold: of each list, the next change is applied if it
/// is due, and no more than that one.
pub open spec fn fold_step(c: RawComposition, state: FoldState, measure_index: int) -> FoldState {
    FoldState {
        current: MeasureCompositionData {
            time_signature: if meter_change_due(c, state, measure_index) {
                TimeSignature {
                    num_beats: c.meter_changes@[state.meter_cursor].meter.num_beats,
                    note_value: c.meter_changes@[state.meter_cursor].meter.note_value,
                }
            } else {
                state.current.time_signature
            },
            bpm: if bpm_change_due(c, state, measure_index) {
                c.bpm_changes@[state.bpm_cursor].bpm
            } else {
                state.current.bpm
            },
            speed_multiplier: if soflan_due(c, state, measure_index) {
                c.soflans@[state.soflan_cursor].speed_multiplier
            } else {
                state.current.speed_multiplier
            },
            subdivision: state.current.subdivision,
        },
        bpm_cursor: if bpm_change_due(c, state, measure_index) {
            state.bpm_cursor + 1
        } else {
            state.bpm_cursor
        },
        meter_cursor: if meter_change_due(c, state, measure_index) {
            state.meter_cursor + 1
        } else {
            state.meter_cursor
        },
        soflan_cursor: if soflan_due(c, state, measure_index) {
            state.soflan_cursor + 1
        } else {
            state.soflan_cursor
        },
    }
}

/// The fold after the measures before measure `measures`.
pub open spec fn fold_after(c: RawComposition, start: MeasureCompositionData, measures: int) -> FoldState
    decreases measures,
{
    if measures <= 0 {
        FoldState { current: start, bpm_cursor: 0, meter_cursor: 0, soflan_cursor: 0 }
    } else {
        fold_step(c, fold_after(c, start, measures - 1), measures - 1)
    }
}

/// The composition of each of `num_measures` measures of a chart that
/// starts with the composition `start`.
pub open spec fn measure_compositions(
    c: RawComposition,
    start: MeasureCompositionData,
    num_measures: int,
) -> Seq<MeasureCompositionData> {
    Seq::new(num_measures as nat, |i: int| fold_after(c, start, i + 1).current)
}

/// The fold applies the changes of a list in their order and one at a
/// measure at most: after `measures` measures it has applied no more than
/// `measures` changes of a list, and no more than the list has.
pub proof fn lemma_fold_cursors(c: RawComposition, start: MeasureCompositionData, measures: int)
    requires
        0 <= measures,
    ensures
        0 <= fold_after(c, start, measures).bpm_cursor <= measures,
        fold_after(c, start, measures).bpm_cursor <= c.bpm_changes@.len(),
        0 <= fold_after(c, start, measures).meter_cursor <= measures,
        fold_after(c, start, measures).meter_cursor <= c.meter_changes@.len(),
        0 <= fold_after(c, start, measures).soflan_cursor <= measures,
        fold_after(c, start, measures).soflan_cursor <= c.soflans@.len(),
        fold_after(c, start, measures).current.subdivision == start.subdivision,
    decreases measures,
{
    if measures > 0 {
        lemma_fold_cursors(c, start, measures - 1);
    }
}

/// The tempo changes take effect at measures that rise from each change to
/// the next.
pub open spec fn bpm_changes_rise(c: RawComposition) -> bool {
    forall|i: int, j: int|
        0 <= i < j < c.bpm_changes@.len() ==> (#[trigger] c.bpm_changes@[i]).at.measure < (
        #[trigger] c.bpm_changes@[j]).at.measure
}

/// Where the tempo changes rise, no change waits: after a measure the fold
/// has applied exactly the changes that take effect at that measure or
/// before it, and the tempo of the measure is that of the last of them, or
/// the starting tempo if there is none.
pub proof fn lemma_tempo_of_rising_changes(
    c: RawComposition,
    start: MeasureCompositionData,
    measure: int,
)
    requires
        bpm_changes_rise(c),
        0 <= measure,
    ensures
        ({
            let state = fold_after(c, start, measure + 1);
            &&& 0 <= state.bpm_cursor <= c.bpm_changes@.len()
            &&& forall|i: int|
                0 <= i < state.bpm_cursor ==> (#[trigger] c.bpm_changes@[i]).at.measure <= measure
            &&& forall|i: int|
                state.bpm_cursor <= i < c.bpm_changes@.len() ==> (
                #[trigger] c.bpm_changes@[i]).at.measure > measure
            &&& state.current.bpm == if state.bpm_cursor == 0 {
                start.bpm
            } else {
                c.bpm_changes@[state.bpm_cursor - 1].bpm
            }
        }),
    decreases measure,
{
    lemma_fold_cursors(c, start, measure);
    if measure > 0 {
        lemma_tempo_of_rising_changes(c, start, measure - 1);
    }
}

/// The changes of time signature take effect at measures that rise from
/// each change to the next.
pub open spec fn meter_changes_rise(c: RawComposition) -> bool {
    forall|i: int, j: int|
        0 <= i < j < c.meter_changes@.len() ==> (#[trigger] c.meter_changes@[i]).at.measure < (
        #[trigger] c.meter_changes@[j]).at.measure
}

/// Where the changes of time signature rise, the time signature of a
/// measure is that of the last change that takes effect at the measure or
/// before it, or the starting one if there is none.
pub proof fn lemma_meter_of_rising_changes(
    c: RawComposition,
    start: MeasureCompositionData,
    measure: int,
)
    requires
        meter_changes_rise(c),
        0 <= measure,
    ensures
        ({
            let state = fold_after(c, start, measure + 1);
            &&& 0 <= state.meter_cursor <= c.meter_changes@.len()
            &&& forall|i: int|
                0 <= i < state.meter_cursor ==> (#[trigger] c.meter_changes@[i]).at.measure
                    <= measure
            &&& forall|i: int|
                state.meter_cursor <= i < c.meter_changes@.len() ==> (
                #[trigger] c.meter_changes@[i]).at.measure > measure
            &&& state.current.time_signature == if state.meter_cursor == 0 {
                start.time_signature
            } else {
                TimeSignature {
                    num_beats: c.meter_changes@[state.meter_cursor - 1].meter.num_beats,
                    note_value: c.meter_changes@[state.meter_cursor - 1].meter.note_value,
                }
            }
        }),
    decreases measure,
{
    lemma_fold_cursors(c, start, measure);
    if measure > 0 {
        lemma_meter_of_rising_changes(c, start, measure - 1);
    }
}

/// The changes of scroll speed take effect at measures that rise from each
/// change to the next.
pub open spec fn soflans_rise(c: RawComposition) -> bool {
    forall|i: int, j: int|
        0 <= i < j < c.soflans@.len() ==> (#[trigger] c.soflans@[i]).at.measure < (
        #[trigger] c.soflans@[j]).at.measure
}

/// Where the changes of scroll speed rise, the scroll speed of a measure is
/// that of the last change that takes effect at the measure or before it, or
/// the starting one if there is none.
pub proof fn lemma_scroll_speed_of_rising_changes(
    c: RawComposition,
    start: MeasureCompositionData,
    measure: int,
)
    requires
        soflans_rise(c),
        0 <= measure,
    ensures
        ({
            let state = fold_after(c, start, measure + 1);
            &&& 0 <= state.soflan_cursor <= c.soflans@.len()
            &&& forall|i: int|
                0 <= i < state.soflan_cursor ==> (#[trigger] c.soflans@[i]).at.measure <= measure
            &&& forall|i: int|
                state.soflan_cursor <= i < c.soflans@.len() ==> (
                #[trigger] c.soflans@[i]).at.measure > measure
            &&& state.current.speed_multiplier == if state.soflan_cursor == 0 {
                start.speed_multiplier
            } else {
                c.soflans@[state.soflan_cursor - 1].speed_multiplier
            }
        }),
    decreases measure,
{
    lemma_fold_cursors(c, start, measure);
    if measure > 0 {
        lemma_scroll_speed_of_rising_changes(c, start, measure - 1);
    }
}

/// The kind of a hit note on the given lane; a critical note is of the kind
/// ten above.
pub open spec fn spec_hit_note_type(lane: RawLaneType, is_critical: bool) -> HitNoteType {
    let value: int = match lane {
        RawLaneType::WallLeft => 0,
        RawLaneType::WallRight => 1,
        RawLaneType::Left => 2,
        RawLaneType::Center => 3,
        RawLaneType::Right => 4,
        _ => 99,
    };
    HitNoteType(
        (if is_critical {
            value + 10
        } else {
            value
        }) as u16,
    )
}

/// The header lacks something that the chart cannot be drawn without, or
/// its lane resolution is not positive: what is wrong with it, the first in
/// the order of time signature, tempo, tick resolution, measure count and
/// lane resolution.
pub open spec fn header_error(h: RawHeader) -> Option<ChartMalformed> {
    if h.meter_definition is None {
        Some(ChartMalformed::MissingStartingTimeSignature)
    } else if h.bpm_definition is None {
        Some(ChartMalformed::MissingStartingTempo)
    } else if h.tick_resolution is None {
        Some(ChartMalformed::MissingTickResolution)
    } else if h.num_measures is None || h.num_measures == Some(0usize) {
        Some(ChartMalformed::MissingMeasureCount)
    } else if h.x_resolution is None {
        Some(ChartMalformed::MissingLaneResolution)
    } else if h.x_resolution->0 <= 0 {
        Some(ChartMalformed::InvalidComposition)
    } else {
        None
    }
}

/// The composition with which a chart starts.
pub open spec fn starting_composition(h: RawHeader) -> MeasureCompositionData {
    MeasureCompositionData {
        time_signature: TimeSignature {
            num_beats: h.meter_definition->0.num_beats,
            note_value: h.meter_definition->0.note_value,
        },
        bpm: h.bpm_definition->0,
        speed_multiplier: UNIT,
        subdivision: h.tick_resolution->0,
    }
}

/// Resolves the entities of a parsed chart.
#[derive(Clone, Debug)]
pub struct OgkrChartCreator {
    pub ogkr: RawChart,
    pub z_position_calculator: ZPositionCalculator,
    pub x_position_calculator: XPositionCalculator,
}

impl OgkrChartCreator {
    /// Both calculators are well-formed.
    pub open spec fn wf(&self) -> bool {
        &&& self.z_position_calculator.wf()
        &&& self.x_position_calculator.wf()
    }

    /// Reads the header of the chart and builds its timeline. The timeline
    /// starts at time zero and has the base speed one.
    pub fn new(ogkr: RawChart) -> (r: Result<Self, ChartMalformed>)
        ensures
            header_error(ogkr.header) matches Some(e) ==> r == Err::<Self, ChartMalformed>(e),
            header_error(ogkr.header) is None ==> match r {
                Ok(c) => {
                    &&& c.wf()
                    &&& c.ogkr == ogkr
                    &&& c.x_position_calculator.spec_resolution() == ogkr.header.x_resolution->0
                    &&& is_timeline_of(
                        Ok(c.z_position_calculator),
                        measure_compositions(
                            ogkr.composition,
                            starting_composition(ogkr.header),
                            ogkr.header.num_measures->0 as int,
                        ),
                        0,
                        UNIT as int,
                    )
                },
                Err(e) => is_timeline_of(
                    Err(e),
                    measure_compositions(
                        ogkr.composition,
                        starting_composition(ogkr.header),
                        ogkr.header.num_measures->0 as int,
                    ),
                    0,
                    UNIT as int,
                ),
            },
    {
        let starting_time_signature = match ogkr.header.meter_definition {
            Some(m) => TimeSignature { num_beats: m.num_beats, note_value: m.note_value },
            None => {
                return Err(ChartMalformed::MissingStartingTimeSignature);
            },
        };
        let starting_bpm = match ogkr.header.bpm_definition {
            Some(bpm) => bpm,
            None => {
                return Err(ChartMalformed::MissingStartingTempo);
            },
        };
        let starting_speed_multiplier = UNIT;
        let subdivision = match ogkr.header.tick_resolution {
            Some(resolution) => resolution,
            None => {
                return Err(ChartMalformed::MissingTickResolution);
            },
        };
        let num_measures = match ogkr.header.num_measures {
            Some(n) => n,
            None => {
                return Err(ChartMalformed::MissingMeasureCount);
            },
        };
        if num_measures == 0 {
            return Err(ChartMalformed::MissingMeasureCount);
        }
        let x_resolution = match ogkr.header.x_resolution {
            Some(resolution) => resolution,
            None => {
                return Err(ChartMalformed::MissingLaneResolution);
            },
        };
        let x_position_calculator = match XPositionCalculator::new(x_resolution) {
            Some(c) => c,
            None => {
                return Err(ChartMalformed::InvalidComposition);
            },
        };
        let z_position_calculator = match Self::create_z_position_calculator(
            &ogkr.composition,
            starting_time_signature,
            starting_bpm,
            starting_speed_multiplier,
            subdivision,
            num_measures,
        ) {
            Ok(c) => c,
            Err(e) => {
                return Err(e);
            },
        };
        Ok(Self { ogkr, z_position_calculator, x_position_calculator })
    }

    /// Folds the changes of tempo, time signature and scroll speed over the
    /// measures, and builds the timeline of the compositions that result.
    /// At each measure the next change of each list is applied if it is due;
    /// a second change of the same list that is due waits for the next
    /// measure.
    pub fn create_z_position_calculator(
        composition: &RawComposition,
        starting_time_signature: TimeSignature,
        starting_bpm: i64,
        starting_speed_multiplier: i64,
        subdivision: u32,
        num_measures: usize,
    ) -> (r: Result<ZPositionCalculator, ChartMalformed>)
        ensures
            is_timeline_of(
                r,
                measure_compositions(
                    *composition,
                    MeasureCompositionData {
                        time_signature: starting_time_signature,
                        bpm: starting_bpm,
                        speed_multiplier: starting_speed_multiplier,
                        subdivision,
                    },
                    num_measures as int,
                ),
                0,
                UNIT as int,
            ),
    {
        let ghost start = MeasureCompositionData {
            time_signature: starting_time_signature,
            bpm: starting_bpm,
            speed_multiplier: starting_speed_multiplier,
            subdivision,
        };
        let mut current_bpm_change: usize = 0;
        let mut current_time_signature_change: usize = 0;
        let mut current_soflan: usize = 0;

        let mut measure_compositions_so_far: Vec<MeasureCompositionData> = Vec::new();
        let mut current_measure = MeasureCompositionData {
            time_signature: starting_time_signature,
            bpm: starting_bpm,
            speed_multiplier: starting_speed_multiplier,
            subdivision,
        };

        let mut measure_index: usize = 0;
        while measure_index < num_measures
            invariant
                measure_index <= num_measures,
                current_bpm_change <= composition.bpm_changes@.len(),
                current_time_signature_change <= composition.meter_changes@.len(),
                current_soflan <= composition.soflans@.len(),
                fold_after(*composition, start, measure_index as int) == (FoldState {
                    current: current_measure,
                    bpm_cursor: current_bpm_change as int,
                    meter_cursor: current_time_signature_change as int,
                    soflan_cursor: current_soflan as int,
                }),
                measure_compositions_so_far@.len() == measure_index,
                forall|i: int|
                    0 <= i < measure_index ==> #[trigger] measure_compositions_so_far@[i]
                        == fold_after(*composition, start, i + 1).current,
            decreases num_measures - measure_index,
        {
            if current_bpm_change < composition.bpm_changes.len() {
                let change = composition.bpm_changes[current_bpm_change];
                if measure_index >= change.at.measure as usize {
                    current_measure.bpm = change.bpm;
                    current_bpm_change += 1;
                }
            }
            if current_time_signature_change < composition.meter_changes.len() {
                let change = composition.meter_changes[current_time_signature_change];
                if measure_index >= change.at.measure as usize {
                    current_measure.time_signature = TimeSignature {
                        num_beats: change.meter.num_beats,
                        note_value: change.meter.note_value,
                    };
                    current_time_signature_change += 1;
                }
            }
            if current_soflan < composition.soflans.len() {
                let soflan = composition.soflans[current_soflan];
                if measure_index >= soflan.at.measure as usize {
                    current_measure.speed_multiplier = soflan.speed_multiplier;
                    current_soflan += 1;
                }
            }
            measure_compositions_so_far.push(current_measure);
            measure_index += 1;
        }
        assert(measure_compositions_so_far@ =~= measure_compositions(
            *composition,
            start,
            num_measures as int,
        ));
        ZPositionCalculator::new(measure_compositions_so_far, Time(0), UNIT)
    }

    /// The kind of a hit note on the given lane.
    pub fn hit_note_type(lane: RawLaneType, is_critical: bool) -> (r: HitNoteType)
        ensures
            r == spec_hit_note_type(lane, is_critical),
    {
        let value: u16 = match lane {
            RawLaneType::WallLeft => 0,
            RawLaneType::WallRight => 1,
            RawLaneType::Left => 2,
            RawLaneType::Center => 3,
            RawLaneType::Right => 4,
            _ => 99,
        };
        let value: u16 = if is_critical {
            value + 10
        } else {
            value
        };
        HitNoteType(value)
    }

    /// The kind of every contact note.
    pub fn contact_note_type() -> (r: ContactNoteType)
        ensures
            r == ContactNoteType(0),
    {
        ContactNoteType(0)
    }

    /// The kind of every evade note.
    pub fn evade_note_type() -> (r: EvadeNoteType)
        ensures
            r == EvadeNoteType(0),
    {
        EvadeNoteType(0)
    }
}

/// Whether a step of the resolution succeeded, and if not, why not.
pub open spec fn status_of<T>(r: Result<T, ChartMalformed>) -> Result<(), ChartMalformed> {
    match r {
        Ok(_) => Ok(()),
        Err(e) => Err(e),
    }
}

/// What resolving a list gives: a measure that is out of range is reported
/// before a value that cannot be represented.
pub open spec fn status(in_range: bool, fits: bool) -> Result<(), ChartMalformed> {
    if !in_range {
        Err(ChartMalformed::MeasureOutOfRange)
    } else if !fits {
        Err(ChartMalformed::ValueOutOfRange)
    } else {
        Ok(())
    }
}

/// The first failure of two steps, if there is one.
pub open spec fn and_then(
    first: Result<(), ChartMalformed>,
    second: Result<(), ChartMalformed>,
) -> Result<(), ChartMalformed> {
    if first is Err {
        first
    } else {
        second
    }
}

impl OgkrChartCreator {
    /// The timing point names a measure of the timeline.
    pub open spec fn timing_in_range(&self, t: TimingPoint) -> bool {
        t.measure < self.z_position_calculator@.len()
    }

    /// The lateral position of a lane position, where it can be
    /// represented.
    pub open spec fn spec_x_position(&self, x: XPosition) -> Option<i64> {
        self.x_position_calculator.spec_x_position_at(
            x.position as int,
            x.offset as int,
            OGKR_X_POSITION_MULTIPLIER as int,
        )
    }

    /// Time and depth of a timing point, where they can be represented.
    pub open spec fn spec_z_position(&self, t: TimingPoint) -> Option<ZPosition> {
        self.z_position_calculator.spec_z_position_at(t.measure as int, t.beat_offset as int)
    }

    /// The resolved position, where it can be represented.
    pub open spec fn spec_track_position(&self, p: RawTrackPosition) -> Option<TrackPosition> {
        match (self.spec_z_position(p.time), self.spec_x_position(p.x)) {
            (Some(z), Some(x)) => Some(TrackPosition { time: z.time, z: z.z, x }),
            _ => None,
        }
    }

    /// Every timing point names a measure of the timeline.
    pub open spec fn times_in_range(&self, times: Seq<TimingPoint>) -> bool {
        forall|i: int| 0 <= i < times.len() ==> self.timing_in_range(#[trigger] times[i])
    }

    /// The time of every timing point can be represented.
    pub open spec fn times_fit(&self, times: Seq<TimingPoint>) -> bool {
        forall|i: int| 0 <= i < times.len() ==> self.spec_z_position(#[trigger] times[i]) is Some
    }

    /// The time of each timing point.
    pub open spec fn resolved_times(&self, times: Seq<TimingPoint>) -> Seq<Time> {
        Seq::new(times.len(), |i: int| self.spec_z_position(times[i])->0.time)
    }

    /// Every point stands in a measure of the timeline.
    pub open spec fn points_in_range(&self, points: Seq<RawTrackPosition>) -> bool {
        forall|i: int| 0 <= i < points.len() ==> self.timing_in_range((#[trigger] points[i]).time)
    }

    /// Every point can be represented once it is resolved.
    pub open spec fn points_fit(&self, points: Seq<RawTrackPosition>) -> bool {
        forall|i: int|
            0 <= i < points.len() ==> self.spec_track_position(#[trigger] points[i]) is Some
    }

    /// The resolved position of each point.
    pub open spec fn resolved_points(&self, points: Seq<RawTrackPosition>) -> Seq<TrackPosition> {
        Seq::new(points.len(), |i: int| self.spec_track_position(points[i])->0)
    }

    /// The lateral position of a lane position; `None` where it cannot be
    /// represented.
    pub fn x_position(&self, position: XPosition) -> (r: Option<i64>)
        requires
            self.wf(),
        ensures
            r == self.spec_x_position(position),
    {
        self.x_position_calculator.x_position_at(
            position.position,
            position.offset,
            OGKR_X_POSITION_MULTIPLIER,
        )
    }

    /// Time and depth of a timing point.
    pub fn z_position(&self, time: TimingPoint) -> (r: Result<ZPosition, ChartMalformed>)
        requires
            self.wf(),
        ensures
            status_of(r) == status(
                self.timing_in_range(time),
                self.spec_z_position(time) is Some,
            ),
            r matches Ok(z) ==> self.spec_z_position(time) == Some(z),
    {
        if time.measure as usize >= self.z_position_calculator.len() {
            return Err(ChartMalformed::MeasureOutOfRange);
        }
        match self.z_position_calculator.z_position_at(time.measure as usize, time.beat_offset) {
            Some(z) => Ok(z),
            None => Err(ChartMalformed::ValueOutOfRange),
        }
    }

    /// Resolves a point of the chart.
    pub fn create_track_position(&self, track_position: RawTrackPosition) -> (r: Result<
        TrackPosition,
        ChartMalformed,
    >)
        requires
            self.wf(),
        ensures
            status_of(r) == status(
                self.timing_in_range(track_position.time),
                self.spec_track_position(track_position) is Some,
            ),
            r matches Ok(p) ==> self.spec_track_position(track_position) == Some(p),
    {
        let z_position = match self.z_position(track_position.time) {
            Ok(z) => z,
            Err(e) => {
                return Err(e);
            },
        };
        match self.x_position(track_position.x) {
            Some(x) => Ok(TrackPosition { time: z_position.time, z: z_position.z, x }),
            None => Err(ChartMalformed::ValueOutOfRange),
        }
    }

    /// Whether every point stands in a measure of the timeline.
    pub fn all_points_in_range(&self, points: &[RawTrackPosition]) -> (r: bool)
        ensures
            r == self.points_in_range(points@),
    {
        let n = self.z_position_calculator.len();
        let mut i: usize = 0;
        while i < points.len()
            invariant
                i <= points@.len(),
                n == self.z_position_calculator@.len(),
                forall|j: int| 0 <= j < i ==> self.timing_in_range((#[trigger] points@[j]).time),
            decreases points@.len() - i,
        {
            if points[i].time.measure as usize >= n {
                return false;
            }
            i += 1;
        }
        true
    }

    /// Whether every timing point names a measure of the timeline.
    pub fn all_times_in_range(&self, times: &[TimingPoint]) -> (r: bool)
        ensures
            r == self.times_in_range(times@),
    {
        let n = self.z_position_calculator.len();
        let mut i: usize = 0;
        while i < times.len()
            invariant
                i <= times@.len(),
                n == self.z_position_calculator@.len(),
                forall|j: int| 0 <= j < i ==> self.timing_in_range(#[trigger] times@[j]),
            decreases times@.len() - i,
        {
            if times[i].measure as usize >= n {
                return false;
            }
            i += 1;
        }
        true
    }

    /// The time of each timing point.
    pub fn create_times(&self, times: &[TimingPoint]) -> (r: Result<Vec<Time>, ChartMalformed>)
        requires
            self.wf(),
        ensures
            status_of(r) == status(self.times_in_range(times@), self.times_fit(times@)),
            r matches Ok(v) ==> v@ == self.resolved_times(times@),
    {
        if !self.all_times_in_range(times) {
            return Err(ChartMalformed::MeasureOutOfRange);
        }
        let mut out: Vec<Time> = Vec::new();
        let mut i: usize = 0;
        while i < times.len()
            invariant
                self.wf(),
                self.times_in_range(times@),
                i <= times@.len(),
                out@.len() == i,
                forall|j: int| 0 <= j < i ==> self.spec_z_position(#[trigger] times@[j]) is Some,
                forall|j: int|
                    0 <= j < i ==> #[trigger] out@[j] == self.spec_z_position(times@[j])->0.time,
            decreases times@.len() - i,
        {
            match self.z_position(times[i]) {
                Ok(z) => {
                    out.push(z.time);
                },
                Err(e) => {
                    return Err(e);
                },
            }
            i += 1;
        }
        Ok(out)
    }

    /// Resolves the points of a list.
    pub fn create_track_positions(&self, track_positions: &[RawTrackPosition]) -> (r: Result<
        Vec<TrackPosition>,
        ChartMalformed,
    >)
        requires
            self.wf(),
        ensures
            status_of(r) == status(
                self.points_in_range(track_positions@),
                self.points_fit(track_positions@),
            ),
            r matches Ok(v) ==> v@ == self.resolved_points(track_positions@),
    {
        if !self.all_points_in_range(track_positions) {
            return Err(ChartMalformed::MeasureOutOfRange);
        }
        let mut out: Vec<TrackPosition> = Vec::new();
        let mut i: usize = 0;
        while i < track_positions.len()
            invariant
                self.wf(),
                self.points_in_range(track_positions@),
                i <= track_positions@.len(),
                out@.len() == i,
                forall|j: int|
                    0 <= j < i ==> self.spec_track_position(#[trigger] track_positions@[j]) is Some,
                forall|j: int|
                    0 <= j < i ==> #[trigger] out@[j] == self.spec_track_position(
                        track_positions@[j],
                    )->0,
            decreases track_positions@.len() - i,
        {
            match self.create_track_position(track_positions[i]) {
                Ok(p) => {
                    out.push(p);
                },
                Err(e) => {
                    return Err(e);
                },
            }
            i += 1;
        }
        Ok(out)
    }

    /// Resolves the points of a lane.
    pub fn create_points_from_lane(&self, lane: &RawLane) -> (r: Result<
        Vec<TrackPosition>,
        ChartMalformed,
    >)
        requires
            self.wf(),
        ensures
            status_of(r) == status(
                self.points_in_range(lane.points@),
                self.points_fit(lane.points@),
            ),
            r matches Ok(v) ==> v@ == self.resolved_points(lane.points@),
    {
        self.create_track_positions(lane.points.as_slice())
    }
}

/// The points of all lanes, one lane after the other.
pub open spec fn flat_points(lanes: Seq<RawLane>) -> Seq<RawTrackPosition>
    decreases lanes.len(),
{
    if lanes.len() == 0 {
        Seq::empty()
    } else {
        flat_points(lanes.drop_last()) + lanes.last().points@
    }
}

/// The points of all lanes, one lane after the other.
fn flatten(lanes: &[RawLane]) -> (r: Vec<RawTrackPosition>)
    ensures
        r@ == flat_points(lanes@),
{
    let mut out: Vec<RawTrackPosition> = Vec::new();
    let mut i: usize = 0;
    while i < lanes.len()
        invariant
            i <= lanes@.len(),
            out@ == flat_points(lanes@.take(i as int)),
        decreases lanes@.len() - i,
    {
        let lane = &lanes[i];
        let ghost before = out@;
        let mut j: usize = 0;
        while j < lane.points.len()
            invariant
                j <= lane.points@.len(),
                out@ == before + lane.points@.take(j as int),
            decreases lane.points@.len() - j,
        {
            out.push(lane.points[j]);
            j += 1;
        }
        assert(lanes@.take(i + 1).drop_last() =~= lanes@.take(i as int));
        i += 1;
    }
    assert(lanes@.take(lanes@.len() as int) =~= lanes@);
    out
}

impl OgkrChartCreator {
    /// Every point of every lane stands in a measure of the timeline.
    pub open spec fn lanes_in_range(&self, lanes: Seq<RawLane>) -> bool {
        forall|i: int| 0 <= i < lanes.len() ==> self.points_in_range((#[trigger] lanes[i]).points@)
    }

    /// Every point of every lane can be represented once it is resolved.
    pub open spec fn lanes_fit(&self, lanes: Seq<RawLane>) -> bool {
        forall|i: int| 0 <= i < lanes.len() ==> self.points_fit((#[trigger] lanes[i]).points@)
    }

    /// `out` holds one lane for each of `lanes`, with its points resolved.
    pub open spec fn are_resolved_lanes(&self, lanes: Seq<RawLane>, out: Seq<Lane>) -> bool {
        &&& out.len() == lanes.len()
        &&& forall|i: int|
            0 <= i < out.len() ==> (#[trigger] out[i]).points@ == self.resolved_points(
                lanes[i].points@,
            )
    }

    /// What resolving one lane out of the points of `lanes` gives.
    pub open spec fn single_lane_status(&self, lanes: Seq<RawLane>) -> Result<(), ChartMalformed> {
        status(
            self.points_in_range(flat_points(lanes)),
            self.points_fit(flat_points(lanes)),
        )
    }

    /// What resolving each of `lanes` gives.
    pub open spec fn lanes_status(&self, lanes: Seq<RawLane>) -> Result<(), ChartMalformed> {
        status(self.lanes_in_range(lanes), self.lanes_fit(lanes))
    }

    /// What resolving the track gives: the first failure among the platform's
    /// left and right boundary and the left, centre, right and enemy lanes.
    pub open spec fn track_status(&self) -> Result<(), ChartMalformed> {
        and_then(
            self.single_lane_status(self.ogkr.track.walls_left@),
            and_then(
                self.single_lane_status(self.ogkr.track.walls_right@),
                and_then(
                    self.lanes_status(self.ogkr.track.lanes_left@),
                    and_then(
                        self.lanes_status(self.ogkr.track.lanes_center@),
                        and_then(
                            self.lanes_status(self.ogkr.track.lanes_right@),
                            self.lanes_status(self.ogkr.track.enemy_lanes@),
                        ),
                    ),
                ),
            ),
        )
    }

    /// The platform is that of the chart's walls.
    pub open spec fn is_platform(&self, platform: Platform) -> bool {
        &&& platform.points_left@ == self.resolved_points(flat_points(self.ogkr.track.walls_left@))
        &&& platform.points_right@ == self.resolved_points(
            flat_points(self.ogkr.track.walls_right@),
        )
    }

    /// The track is that of the chart: one platform, and the lanes of the
    /// kinds left, centre, right and enemy in that order.
    pub open spec fn is_track(&self, track: Track) -> bool {
        &&& track.platforms@.len() == 1
        &&& self.is_platform(track.platforms@[0])
        &&& track.lanes@.len() == 4
        &&& track.lanes@[0].ty == LaneType(1)
        &&& self.are_resolved_lanes(self.ogkr.track.lanes_left@, track.lanes@[0].lanes@)
        &&& track.lanes@[1].ty == LaneType(2)
        &&& self.are_resolved_lanes(self.ogkr.track.lanes_center@, track.lanes@[1].lanes@)
        &&& track.lanes@[2].ty == LaneType(3)
        &&& self.are_resolved_lanes(self.ogkr.track.lanes_right@, track.lanes@[2].lanes@)
        &&& track.lanes@[3].ty == LaneType(4)
        &&& self.are_resolved_lanes(self.ogkr.track.enemy_lanes@, track.lanes@[3].lanes@)
    }

    /// One lane out of the points of all of `lanes`, in their order.
    pub fn create_single_lane(&self, lanes: &[RawLane]) -> (r: Result<Lane, ChartMalformed>)
        requires
            self.wf(),
        ensures
            status_of(r) == self.single_lane_status(lanes@),
            r matches Ok(l) ==> l.points@ == self.resolved_points(flat_points(lanes@)),
    {
        let all_points = flatten(lanes);
        match self.create_track_positions(all_points.as_slice()) {
            Ok(points) => Ok(Lane { points }),
            Err(e) => Err(e),
        }
    }

    /// Whether every point of every lane stands in a measure of the
    /// timeline.
    pub fn all_lanes_in_range(&self, lanes: &[RawLane]) -> (r: bool)
        ensures
            r == self.lanes_in_range(lanes@),
    {
        let mut i: usize = 0;
        while i < lanes.len()
            invariant
                i <= lanes@.len(),
                forall|j: int| 0 <= j < i ==> self.points_in_range((#[trigger] lanes@[j]).points@),
            decreases lanes@.len() - i,
        {
            if !self.all_points_in_range(lanes[i].points.as_slice()) {
                return false;
            }
            i += 1;
        }
        true
    }

    /// One lane for each of `lanes`.
    pub fn create_lanes(&self, lanes: &[RawLane]) -> (r: Result<Vec<Lane>, ChartMalformed>)
        requires
            self.wf(),
        ensures
            status_of(r) == self.lanes_status(lanes@),
            r matches Ok(v) ==> self.are_resolved_lanes(lanes@, v@),
    {
        if !self.all_lanes_in_range(lanes) {
            return Err(ChartMalformed::MeasureOutOfRange);
        }
        let mut out: Vec<Lane> = Vec::new();
        let mut i: usize = 0;
        while i < lanes.len()
            invariant
                self.wf(),
                self.lanes_in_range(lanes@),
                i <= lanes@.len(),
                out@.len() == i,
                forall|j: int| 0 <= j < i ==> self.points_fit((#[trigger] lanes@[j]).points@),
                forall|j: int|
                    0 <= j < i ==> (#[trigger] out@[j]).points@ == self.resolved_points(
                        lanes@[j].points@,
                    ),
            decreases lanes@.len() - i,
        {
            match self.create_points_from_lane(&lanes[i]) {
                Ok(points) => {
                    out.push(Lane { points });
                },
                Err(e) => {
                    return Err(e);
                },
            }
            i += 1;
        }
        Ok(out)
    }

    /// The platform between the chart's left and right walls.
    pub fn create_platform(&self) -> (r: Result<Platform, ChartMalformed>)
        requires
            self.wf(),
        ensures
            status_of(r) == and_then(
                self.single_lane_status(self.ogkr.track.walls_left@),
                self.single_lane_status(self.ogkr.track.walls_right@),
            ),
            r matches Ok(p) ==> self.is_platform(p),
    {
        let points_left = match self.create_single_lane(self.ogkr.track.walls_left.as_slice()) {
            Ok(lane) => lane.points,
            Err(e) => {
                return Err(e);
            },
        };
        let points_right = match self.create_single_lane(self.ogkr.track.walls_right.as_slice()) {
            Ok(lane) => lane.points,
            Err(e) => {
                return Err(e);
            },
        };
        Ok(Platform { points_left, points_right })
    }

    /// The track of the chart.
    pub fn create_track(&self) -> (r: Result<Track, ChartMalformed>)
        requires
            self.wf(),
        ensures
            status_of(r) == self.track_status(),
            r matches Ok(t) ==> t.wf() && self.is_track(t),
    {
        let platform = match self.create_platform() {
            Ok(p) => p,
            Err(e) => {
                return Err(e);
            },
        };
        let mut platforms: Vec<Platform> = Vec::new();
        platforms.push(platform);

        let left = match self.create_lanes(self.ogkr.track.lanes_left.as_slice()) {
            Ok(l) => l,
            Err(e) => {
                return Err(e);
            },
        };
        let center = match self.create_lanes(self.ogkr.track.lanes_center.as_slice()) {
            Ok(l) => l,
            Err(e) => {
                return Err(e);
            },
        };
        let right = match self.create_lanes(self.ogkr.track.lanes_right.as_slice()) {
            Ok(l) => l,
            Err(e) => {
                return Err(e);
            },
        };
        let enemy = match self.create_lanes(self.ogkr.track.enemy_lanes.as_slice()) {
            Ok(l) => l,
            Err(e) => {
                return Err(e);
            },
        };
        let mut lanes: Vec<LaneGroup> = Vec::new();
        lanes.push(LaneGroup { ty: LaneType::from(RawLaneType::Left), lanes: left });
        lanes.push(LaneGroup { ty: LaneType::from(RawLaneType::Center), lanes: center });
        lanes.push(LaneGroup { ty: LaneType::from(RawLaneType::Right), lanes: right });
        lanes.push(LaneGroup { ty: LaneType::from(RawLaneType::Enemy), lanes: enemy });

        Ok(Track { platforms, lanes })
    }
}

/// Where each tap stands.
pub open spec fn tap_points(taps: Seq<RawTap>) -> Seq<RawTrackPosition> {
    Seq::new(taps.len(), |i: int| taps[i].position)
}

/// Where each bell stands.
pub open spec fn bell_points(bells: Seq<RawBell>) -> Seq<RawTrackPosition> {
    Seq::new(bells.len(), |i: int| bells[i].position)
}

/// Where each flick stands.
pub open spec fn flick_points(flicks: Seq<RawFlick>) -> Seq<RawTrackPosition> {
    Seq::new(flicks.len(), |i: int| flicks[i].position)
}

/// Where each bullet lands.
pub open spec fn bullet_points(bullets: Seq<RawBullet>) -> Seq<RawTrackPosition> {
    Seq::new(bullets.len(), |i: int| bullets[i].position)
}

/// A bullet that the enemy shoots, or that is shot at the player, is not
/// drawn.
pub open spec fn is_skipped(bullet: RawBullet) -> bool {
    bullet.shooter == BulletShooter::Enemy || bullet.target == BulletTarget::Player
}

/// The bullets that are drawn, in the order of the chart.
pub open spec fn kept_bullets(bullets: Seq<RawBullet>) -> Seq<RawBullet>
    decreases bullets.len(),
{
    if bullets.len() == 0 {
        Seq::empty()
    } else if is_skipped(bullets.last()) {
        kept_bullets(bullets.drop_last())
    } else {
        kept_bullets(bullets.drop_last()).push(bullets.last())
    }
}

/// How much longer the flight of a bullet takes than its speed says: one
/// and a half times.
pub const EVADE_SPEED_FACTOR: i64 = 1_500_000;

/// How long the flight of a bullet takes, in millionths of a second.
pub open spec fn evade_duration(bullet: RawBullet) -> int {
    mul_div(bullet.speed as int, EVADE_SPEED_FACTOR as int, UNIT as int)
}

/// The movement of a bullet that lands at `end`: it starts as far before
/// the end in depth as its flight takes in time, above the place where it
/// lands or, shot at the middle, above the middle of the track, and its
/// movement is triggered the time of its flight before it lands.
pub open spec fn evade_movement(bullet: RawBullet, end: TrackPosition) -> NoteMovement {
    let duration = evade_duration(bullet);
    NoteMovement {
        start: TrackPosition {
            time: Time((end.time.0 + duration) as i64),
            z: (end.z + duration) as i64,
            x: if bullet.shooter == BulletShooter::Center {
                0
            } else {
                end.x
            },
        },
        end,
        trigger_time: Time((end.time.0 - duration) as i64),
        duration: duration as i64,
    }
}

/// The movement of a bullet that lands at `end` can be represented.
pub open spec fn evade_movement_fits(bullet: RawBullet, end: TrackPosition) -> bool {
    let duration = evade_duration(bullet);
    &&& in_range(duration)
    &&& in_range(end.time.0 + duration)
    &&& in_range(end.z + duration)
    &&& in_range(end.time.0 - duration)
}

/// The flight of a bullet whose speed is not negative takes no negative
/// time.
pub proof fn lemma_evade_duration_not_negative(bullet: RawBullet)
    requires
        bullet.speed >= 0,
    ensures
        evade_duration(bullet) >= 0,
{
    let p = bullet.speed * EVADE_SPEED_FACTOR;
    assert(p >= 0) by (nonlinear_arith)
        requires
            p == bullet.speed * EVADE_SPEED_FACTOR,
            bullet.speed >= 0,
            EVADE_SPEED_FACTOR == 1_500_000,
    ;
    lemma_div_bounds(p, UNIT as int);
}

/// The bullets that are drawn.
fn keep_bullets(bullets: &[RawBullet]) -> (r: Vec<RawBullet>)
    ensures
        r@ == kept_bullets(bullets@),
{
    let mut out: Vec<RawBullet> = Vec::new();
    let mut i: usize = 0;
    while i < bullets.len()
        invariant
            i <= bullets@.len(),
            out@ == kept_bullets(bullets@.take(i as int)),
        decreases bullets@.len() - i,
    {
        let bullet = bullets[i];
        assert(bullets@.take(i + 1).drop_last() =~= bullets@.take(i as int));
        let skipped = match bullet.shooter {
            BulletShooter::Enemy => true,
            _ => match bullet.target {
                BulletTarget::Player => true,
                _ => false,
            },
        };
        if !skipped {
            out.push(bullet);
        }
        i += 1;
    }
    assert(bullets@.take(bullets@.len() as int) =~= bullets@);
    out
}

impl OgkrChartCreator {
    /// What resolving the taps gives.
    pub open spec fn hits_status(&self, taps: Seq<RawTap>) -> Result<(), ChartMalformed> {
        status(self.points_in_range(tap_points(taps)), self.points_fit(tap_points(taps)))
    }

    /// `out` holds a hit note for each tap.
    pub open spec fn are_hit_notes(&self, taps: Seq<RawTap>, out: Seq<HitNote>) -> bool {
        &&& out.len() == taps.len()
        &&& forall|i: int|
            0 <= i < out.len() ==> #[trigger] out[i] == (HitNote {
                ty: spec_hit_note_type(taps[i].lane_type, taps[i].is_critical),
                position: self.spec_track_position(taps[i].position)->0,
            })
    }

    /// What resolving the bells gives.
    pub open spec fn contacts_status(&self, bells: Seq<RawBell>) -> Result<(), ChartMalformed> {
        status(self.points_in_range(bell_points(bells)), self.points_fit(bell_points(bells)))
    }

    /// `out` holds a contact note for each bell.
    pub open spec fn are_contact_notes(&self, bells: Seq<RawBell>, out: Seq<ContactNote>) -> bool {
        &&& out.len() == bells.len()
        &&& forall|i: int|
            0 <= i < out.len() ==> #[trigger] out[i] == (ContactNote {
                ty: ContactNoteType(0),
                position: self.spec_track_position(bells[i].position)->0,
            })
    }

    /// What resolving the flicks gives.
    pub open spec fn flicks_status(&self, flicks: Seq<RawFlick>) -> Result<(), ChartMalformed> {
        status(self.points_in_range(flick_points(flicks)), self.points_fit(flick_points(flicks)))
    }

    /// `out` holds a flick note for each flick.
    pub open spec fn are_flick_notes(&self, flicks: Seq<RawFlick>, out: Seq<FlickNote>) -> bool {
        &&& out.len() == flicks.len()
        &&& forall|i: int|
            0 <= i < out.len() ==> #[trigger] out[i] == (FlickNote {
                direction: FlickDirection::from_spec(flicks[i].direction),
                position: self.spec_track_position(flicks[i].position)->0,
            })
    }

    /// Every point of every hold stands in a measure of the timeline.
    pub open spec fn holds_in_range(&self, holds: Seq<RawHold>) -> bool {
        forall|i: int| 0 <= i < holds.len() ==> self.points_in_range((#[trigger] holds[i]).points@)
    }

    /// Every point of every hold can be represented once it is resolved.
    pub open spec fn holds_fit(&self, holds: Seq<RawHold>) -> bool {
        forall|i: int| 0 <= i < holds.len() ==> self.points_fit((#[trigger] holds[i]).points@)
    }

    /// What resolving the holds gives.
    pub open spec fn holds_status(&self, holds: Seq<RawHold>) -> Result<(), ChartMalformed> {
        status(self.holds_in_range(holds), self.holds_fit(holds))
    }

    /// `out` holds a hold note for each hold.
    pub open spec fn are_hold_notes(&self, holds: Seq<RawHold>, out: Seq<HoldNote>) -> bool {
        &&& out.len() == holds.len()
        &&& forall|i: int|
            0 <= i < out.len() ==> {
                &&& (#[trigger] out[i]).ty == spec_hit_note_type(
                    holds[i].lane_type,
                    holds[i].is_critical,
                )
                &&& out[i].points@ == self.resolved_points(holds[i].points@)
            }
    }

    /// No bullet has a negative speed.
    pub open spec fn speeds_valid(bullets: Seq<RawBullet>) -> bool {
        forall|i: int| 0 <= i < bullets.len() ==> (#[trigger] bullets[i]).speed >= 0
    }

    /// The movement of every bullet can be represented.
    pub open spec fn movements_fit(&self, bullets: Seq<RawBullet>) -> bool {
        forall|i: int|
            0 <= i < bullets.len() ==> {
                &&& self.spec_track_position((#[trigger] bullets[i]).position) is Some
                &&& evade_movement_fits(bullets[i], self.spec_track_position(bullets[i].position)->0)
            }
    }

    /// What resolving the bullets gives. A bullet that lands in a measure
    /// out of range is reported first, then a bullet of negative speed, then
    /// a movement that cannot be represented; bullets that are not drawn are
    /// not looked at.
    pub open spec fn evades_status(&self, bullets: Seq<RawBullet>) -> Result<(), ChartMalformed> {
        let kept = kept_bullets(bullets);
        if !self.points_in_range(bullet_points(kept)) {
            Err(ChartMalformed::MeasureOutOfRange)
        } else if !Self::speeds_valid(kept) {
            Err(ChartMalformed::InvalidComposition)
        } else if !self.movements_fit(kept) {
            Err(ChartMalformed::ValueOutOfRange)
        } else {
            Ok(())
        }
    }

    /// `out` holds an evade note for each bullet that is drawn.
    pub open spec fn are_evade_notes(&self, bullets: Seq<RawBullet>, out: Seq<EvadeNote>) -> bool {
        let kept = kept_bullets(bullets);
        &&& out.len() == kept.len()
        &&& forall|i: int|
            0 <= i < out.len() ==> {
                &&& #[trigger] out[i] == (EvadeNote {
                    ty: EvadeNoteType(0),
                    movement: evade_movement(
                        kept[i],
                        self.spec_track_position(kept[i].position)->0,
                    ),
                })
                &&& out[i].movement.wf()
            }
    }

    /// What resolving the notes gives: the first failure among hit, contact,
    /// flick, hold and evade notes.
    pub open spec fn notes_status(&self) -> Result<(), ChartMalformed> {
        and_then(
            self.hits_status(self.ogkr.notes.taps@),
            and_then(
                self.contacts_status(self.ogkr.notes.bells@),
                and_then(
                    self.flicks_status(self.ogkr.notes.flicks@),
                    and_then(
                        self.holds_status(self.ogkr.notes.holds@),
                        self.evades_status(self.ogkr.bullets@),
                    ),
                ),
            ),
        )
    }

    /// The notes are those of the chart.
    pub open spec fn is_notes(&self, notes: Notes) -> bool {
        &&& self.are_hit_notes(self.ogkr.notes.taps@, notes.hits@)
        &&& self.are_contact_notes(self.ogkr.notes.bells@, notes.contacts@)
        &&& self.are_flick_notes(self.ogkr.notes.flicks@, notes.flicks@)
        &&& self.are_hold_notes(self.ogkr.notes.holds@, notes.holds@)
        &&& self.are_evade_notes(self.ogkr.bullets@, notes.evades@)
    }

    /// A hit note for each tap.
    pub fn create_hit_notes(&self, taps: &[RawTap]) -> (r: Result<Vec<HitNote>, ChartMalformed>)
        requires
            self.wf(),
        ensures
            status_of(r) == self.hits_status(taps@),
            r matches Ok(v) ==> self.are_hit_notes(taps@, v@),
    {
        let mut points: Vec<RawTrackPosition> = Vec::new();
        let mut k: usize = 0;
        while k < taps.len()
            invariant
                k <= taps@.len(),
                points@.len() == k,
                forall|j: int| 0 <= j < k ==> #[trigger] points@[j] == taps@[j].position,
            decreases taps@.len() - k,
        {
            points.push(taps[k].position);
            k += 1;
        }
        assert(points@ =~= tap_points(taps@));
        let positions = match self.create_track_positions(points.as_slice()) {
            Ok(p) => p,
            Err(e) => {
                return Err(e);
            },
        };
        let mut out: Vec<HitNote> = Vec::new();
        let mut i: usize = 0;
        while i < taps.len()
            invariant
                i <= taps@.len(),
                out@.len() == i,
                positions@ == self.resolved_points(tap_points(taps@)),
                forall|j: int|
                    0 <= j < i ==> #[trigger] out@[j] == (HitNote {
                        ty: spec_hit_note_type(taps@[j].lane_type, taps@[j].is_critical),
                        position: self.spec_track_position(taps@[j].position)->0,
                    }),
            decreases taps@.len() - i,
        {
            let t = taps[i];
            out.push(
                HitNote { ty: Self::hit_note_type(t.lane_type, t.is_critical), position: positions[i] },
            );
            i += 1;
        }
        Ok(out)
    }

    /// A contact note for each bell.
    pub fn create_contact_notes(&self, bells: &[RawBell]) -> (r: Result<
        Vec<ContactNote>,
        ChartMalformed,
    >)
        requires
            self.wf(),
        ensures
            status_of(r) == self.contacts_status(bells@),
            r matches Ok(v) ==> self.are_contact_notes(bells@, v@),
    {
        let mut points: Vec<RawTrackPosition> = Vec::new();
        let mut k: usize = 0;
        while k < bells.len()
            invariant
                k <= bells@.len(),
                points@.len() == k,
                forall|j: int| 0 <= j < k ==> #[trigger] points@[j] == bells@[j].position,
            decreases bells@.len() - k,
        {
            points.push(bells[k].position);
            k += 1;
        }
        assert(points@ =~= bell_points(bells@));
        let positions = match self.create_track_positions(points.as_slice()) {
            Ok(p) => p,
            Err(e) => {
                return Err(e);
            },
        };
        let mut out: Vec<ContactNote> = Vec::new();
        let mut i: usize = 0;
        while i < bells.len()
            invariant
                i <= bells@.len(),
                out@.len() == i,
                positions@ == self.resolved_points(bell_points(bells@)),
                forall|j: int|
                    0 <= j < i ==> #[trigger] out@[j] == (ContactNote {
                        ty: ContactNoteType(0),
                        position: self.spec_track_position(bells@[j].position)->0,
                    }),
            decreases bells@.len() - i,
        {
            out.push(ContactNote { ty: Self::contact_note_type(), position: positions[i] });
            i += 1;
        }
        Ok(out)
    }

    /// A flick note for each flick.
    pub fn create_flick_notes(&self, flicks: &[RawFlick]) -> (r: Result<
        Vec<FlickNote>,
        ChartMalformed,
    >)
        requires
            self.wf(),
        ensures
            status_of(r) == self.flicks_status(flicks@),
            r matches Ok(v) ==> self.are_flick_notes(flicks@, v@),
    {
        let mut points: Vec<RawTrackPosition> = Vec::new();
        let mut k: usize = 0;
        while k < flicks.len()
            invariant
                k <= flicks@.len(),
                points@.len() == k,
                forall|j: int| 0 <= j < k ==> #[trigger] points@[j] == flicks@[j].position,
            decreases flicks@.len() - k,
        {
            points.push(flicks[k].position);
            k += 1;
        }
        assert(points@ =~= flick_points(flicks@));
        let positions = match self.create_track_positions(points.as_slice()) {
            Ok(p) => p,
            Err(e) => {
                return Err(e);
            },
        };
        let mut out: Vec<FlickNote> = Vec::new();
        let mut i: usize = 0;
        while i < flicks.len()
            invariant
                i <= flicks@.len(),
                out@.len() == i,
                positions@ == self.resolved_points(flick_points(flicks@)),
                forall|j: int|
                    0 <= j < i ==> #[trigger] out@[j] == (FlickNote {
                        direction: FlickDirection::from_spec(flicks@[j].direction),
                        position: self.spec_track_position(flicks@[j].position)->0,
                    }),
            decreases flicks@.len() - i,
        {
            out.push(
                FlickNote {
                    direction: FlickDirection::from(flicks[i].direction),
                    position: positions[i],
                },
            );
            i += 1;
        }
        Ok(out)
    }

    /// Whether every point of every hold stands in a measure of the
    /// timeline.
    pub fn all_holds_in_range(&self, holds: &[RawHold]) -> (r: bool)
        ensures
            r == self.holds_in_range(holds@),
    {
        let mut i: usize = 0;
        while i < holds.len()
            invariant
                i <= holds@.len(),
                forall|j: int| 0 <= j < i ==> self.points_in_range((#[trigger] holds@[j]).points@),
            decreases holds@.len() - i,
        {
            if !self.all_points_in_range(holds[i].points.as_slice()) {
                return false;
            }
            i += 1;
        }
        true
    }

    /// A hold note for each hold.
    pub fn create_hold_notes(&self, hold_notes: &[RawHold]) -> (r: Result<
        Vec<HoldNote>,
        ChartMalformed,
    >)
        requires
            self.wf(),
        ensures
            status_of(r) == self.holds_status(hold_notes@),
            r matches Ok(v) ==> self.are_hold_notes(hold_notes@, v@),
    {
        if !self.all_holds_in_range(hold_notes) {
            return Err(ChartMalformed::MeasureOutOfRange);
        }
        let mut out: Vec<HoldNote> = Vec::new();
        let mut i: usize = 0;
        while i < hold_notes.len()
            invariant
                self.wf(),
                self.holds_in_range(hold_notes@),
                i <= hold_notes@.len(),
                out@.len() == i,
                forall|j: int| 0 <= j < i ==> self.points_fit((#[trigger] hold_notes@[j]).points@),
                forall|j: int|
                    0 <= j < i ==> {
                        &&& (#[trigger] out@[j]).ty == spec_hit_note_type(
                            hold_notes@[j].lane_type,
                            hold_notes@[j].is_critical,
                        )
                        &&& out@[j].points@ == self.resolved_points(hold_notes@[j].points@)
                    },
            decreases hold_notes@.len() - i,
        {
            let h = &hold_notes[i];
            match self.create_track_positions(h.points.as_slice()) {
                Ok(points) => {
                    out.push(
                        HoldNote { ty: Self::hit_note_type(h.lane_type, h.is_critical), points },
                    );
                },
                Err(e) => {
                    return Err(e);
                },
            }
            i += 1;
        }
        Ok(out)
    }

    /// The movement of a bullet that lands at `end`; `None` where it cannot
    /// be represented.
    fn create_movement(bullet: &RawBullet, end_position: TrackPosition) -> (r: Option<
        NoteMovement,
    >)
        ensures
            r is Some <==> evade_movement_fits(*bullet, end_position),
            r matches Some(m) ==> m == evade_movement(*bullet, end_position),
    {
        let duration = match checked_mul_div(bullet.speed, EVADE_SPEED_FACTOR, UNIT) {
            Some(d) => d,
            None => {
                return None;
            },
        };
        // The bullet starts as far away in depth as its flight takes in time.
        let start_time = end_position.time.0.checked_add(duration);
        let start_z = end_position.z.checked_add(duration);
        let trigger_time = end_position.time.0.checked_sub(duration);
        match (start_time, start_z, trigger_time) {
            (Some(start_time), Some(start_z), Some(trigger_time)) => {
                let start_x = match bullet.shooter {
                    BulletShooter::Center => 0,
                    _ => end_position.x,
                };
                Some(
                    NoteMovement {
                        start: TrackPosition { time: Time(start_time), z: start_z, x: start_x },
                        end: end_position,
                        trigger_time: Time(trigger_time),
                        duration,
                    },
                )
            },
            _ => None,
        }
    }

    /// An evade note for each bullet that is drawn.
    pub fn create_evade_notes(&self) -> (r: Result<Vec<EvadeNote>, ChartMalformed>)
        requires
            self.wf(),
        ensures
            status_of(r) == self.evades_status(self.ogkr.bullets@),
            r matches Ok(v) ==> self.are_evade_notes(self.ogkr.bullets@, v@),
    {
        let kept = keep_bullets(self.ogkr.bullets.as_slice());
        let mut points: Vec<RawTrackPosition> = Vec::new();
        let mut k: usize = 0;
        while k < kept.len()
            invariant
                k <= kept@.len(),
                points@.len() == k,
                forall|j: int| 0 <= j < k ==> #[trigger] points@[j] == kept@[j].position,
            decreases kept@.len() - k,
        {
            points.push(kept[k].position);
            k += 1;
        }
        assert(points@ =~= bullet_points(kept@));
        if !self.all_points_in_range(points.as_slice()) {
            return Err(ChartMalformed::MeasureOutOfRange);
        }
        let mut checked: usize = 0;
        while checked < kept.len()
            invariant
                checked <= kept@.len(),
                kept@ == kept_bullets(self.ogkr.bullets@),
                self.points_in_range(bullet_points(kept@)),
                forall|j: int| 0 <= j < checked ==> (#[trigger] kept@[j]).speed >= 0,
            decreases kept@.len() - checked,
        {
            if kept[checked].speed < 0 {
                return Err(ChartMalformed::InvalidComposition);
            }
            checked += 1;
        }
        let mut evade_notes: Vec<EvadeNote> = Vec::new();
        let mut i: usize = 0;
        while i < kept.len()
            invariant
                self.wf(),
                kept@ == kept_bullets(self.ogkr.bullets@),
                self.points_in_range(bullet_points(kept@)),
                Self::speeds_valid(kept@),
                i <= kept@.len(),
                evade_notes@.len() == i,
                forall|j: int|
                    0 <= j < i ==> {
                        &&& self.spec_track_position((#[trigger] kept@[j]).position) is Some
                        &&& evade_movement_fits(
                            kept@[j],
                            self.spec_track_position(kept@[j].position)->0,
                        )
                    },
                forall|j: int|
                    0 <= j < i ==> {
                        &&& #[trigger] evade_notes@[j] == (EvadeNote {
                            ty: EvadeNoteType(0),
                            movement: evade_movement(
                                kept@[j],
                                self.spec_track_position(kept@[j].position)->0,
                            ),
                        })
                        &&& evade_notes@[j].movement.wf()
                    },
            decreases kept@.len() - i,
        {
            let bullet = kept[i];
            assert(self.timing_in_range(bullet_points(kept@)[i as int].time));
            let end_position = match self.create_track_position(bullet.position) {
                Ok(p) => p,
                Err(e) => {
                    return Err(e);
                },
            };
            let movement = match Self::create_movement(&bullet, end_position) {
                Some(m) => m,
                None => {
                    return Err(ChartMalformed::ValueOutOfRange);
                },
            };
            proof {
                lemma_evade_duration_not_negative(bullet);
            }
            evade_notes.push(EvadeNote { ty: Self::evade_note_type(), movement });
            i += 1;
        }
        Ok(evade_notes)
    }

    /// The notes of the chart.
    pub fn create_notes(&self) -> (r: Result<Notes, ChartMalformed>)
        requires
            self.wf(),
        ensures
            status_of(r) == self.notes_status(),
            r matches Ok(n) ==> self.is_notes(n),
    {
        let hits = match self.create_hit_notes(self.ogkr.notes.taps.as_slice()) {
            Ok(v) => v,
            Err(e) => {
                return Err(e);
            },
        };
        let contacts = match self.create_contact_notes(self.ogkr.notes.bells.as_slice()) {
            Ok(v) => v,
            Err(e) => {
                return Err(e);
            },
        };
        let flicks = match self.create_flick_notes(self.ogkr.notes.flicks.as_slice()) {
            Ok(v) => v,
            Err(e) => {
                return Err(e);
            },
        };
        let holds = match self.create_hold_notes(self.ogkr.notes.holds.as_slice()) {
            Ok(v) => v,
            Err(e) => {
                return Err(e);
            },
        };
        let evades = match self.create_evade_notes() {
            Ok(v) => v,
            Err(e) => {
                return Err(e);
            },
        };
        Ok(Notes { hits, holds, contacts, evades, flicks })
    }
}

/// When each tempo change takes effect.
pub open spec fn bpm_change_times(changes: Seq<RawBpmChange>) -> Seq<TimingPoint> {
    Seq::new(changes.len(), |i: int| changes[i].at)
}

/// When each change of time signature takes effect.
pub open spec fn meter_change_times(changes: Seq<RawMeterChange>) -> Seq<TimingPoint> {
    Seq::new(changes.len(), |i: int| changes[i].at)
}

/// When each change of scroll speed takes effect.
pub open spec fn soflan_times(soflans: Seq<RawSoflan>) -> Seq<TimingPoint> {
    Seq::new(soflans.len(), |i: int| soflans[i].at)
}

/// How long a change of scroll speed lasts: one second.
pub const SOFLAN_DURATION: i64 = 1_000_000;

impl OgkrChartCreator {
    /// What resolving timing points gives.
    pub open spec fn times_status(&self, times: Seq<TimingPoint>) -> Result<(), ChartMalformed> {
        status(self.times_in_range(times), self.times_fit(times))
    }

    /// What resolving the composition gives: the first failure among the
    /// changes of tempo, of time signature and of scroll speed.
    pub open spec fn composition_status(&self) -> Result<(), ChartMalformed> {
        and_then(
            self.times_status(bpm_change_times(self.ogkr.composition.bpm_changes@)),
            and_then(
                self.times_status(meter_change_times(self.ogkr.composition.meter_changes@)),
                self.times_status(soflan_times(self.ogkr.composition.soflans@)),
            ),
        )
    }

    /// The composition is that of the chart, each change at the time at
    /// which it takes effect.
    pub open spec fn is_composition(&self, composition: Composition) -> bool {
        let raw = self.ogkr.composition;
        &&& composition.bpm_changes@.len() == raw.bpm_changes@.len()
        &&& forall|i: int|
            0 <= i < composition.bpm_changes@.len() ==> #[trigger] composition.bpm_changes@[i]
                == (BpmChange {
                time: self.spec_z_position(raw.bpm_changes@[i].at)->0.time,
                bpm: raw.bpm_changes@[i].bpm,
            })
        &&& composition.time_signature_changes@.len() == raw.meter_changes@.len()
        &&& forall|i: int|
            0 <= i < composition.time_signature_changes@.len()
                ==> #[trigger] composition.time_signature_changes@[i] == (TimeSignatureChange {
                time: self.spec_z_position(raw.meter_changes@[i].at)->0.time,
                time_signature: TimeSignature {
                    num_beats: raw.meter_changes@[i].meter.num_beats,
                    note_value: raw.meter_changes@[i].meter.note_value,
                },
            })
        &&& composition.soflans@.len() == raw.soflans@.len()
        &&& forall|i: int|
            0 <= i < composition.soflans@.len() ==> #[trigger] composition.soflans@[i] == (Soflan {
                time: self.spec_z_position(raw.soflans@[i].at)->0.time,
                duration: SOFLAN_DURATION,
                speed_multiplier: raw.soflans@[i].speed_multiplier,
            })
    }

    /// What resolving the chart gives: the first failure among track, notes
    /// and composition.
    pub open spec fn chart_status(&self) -> Result<(), ChartMalformed> {
        and_then(self.track_status(), and_then(self.notes_status(), self.composition_status()))
    }

    /// The chart is the resolved form of the parsed chart; it carries the
    /// timeline.
    pub open spec fn is_chart(&self, chart: Chart) -> bool {
        &&& chart.header.audio_filename@ == Seq::<char>::empty()
        &&& chart.header.audio_offset == 0
        &&& chart.metadata.base_speed == 0
        &&& chart.data.track.wf()
        &&& self.is_track(chart.data.track)
        &&& self.is_notes(chart.data.notes)
        &&& self.is_composition(chart.data.composition)
        &&& chart.utils.z_position_calculator == self.z_position_calculator
    }

    /// The changes of the chart, each at the time at which it takes effect.
    pub fn create_composition(&self) -> (r: Result<Composition, ChartMalformed>)
        requires
            self.wf(),
        ensures
            status_of(r) == self.composition_status(),
            r matches Ok(c) ==> self.is_composition(c),
    {
        let composition = &self.ogkr.composition;

        let mut at: Vec<TimingPoint> = Vec::new();
        let mut k: usize = 0;
        while k < composition.bpm_changes.len()
            invariant
                k <= composition.bpm_changes@.len(),
                at@.len() == k,
                forall|j: int| 0 <= j < k ==> #[trigger] at@[j] == composition.bpm_changes@[j].at,
            decreases composition.bpm_changes@.len() - k,
        {
            at.push(composition.bpm_changes[k].at);
            k += 1;
        }
        assert(at@ =~= bpm_change_times(composition.bpm_changes@));
        let times = match self.create_times(at.as_slice()) {
            Ok(t) => t,
            Err(e) => {
                return Err(e);
            },
        };
        let mut bpm_changes: Vec<BpmChange> = Vec::new();
        let mut i: usize = 0;
        while i < composition.bpm_changes.len()
            invariant
                i <= composition.bpm_changes@.len(),
                bpm_changes@.len() == i,
                times@ == self.resolved_times(bpm_change_times(composition.bpm_changes@)),
                forall|j: int|
                    0 <= j < i ==> #[trigger] bpm_changes@[j] == (BpmChange {
                        time: self.spec_z_position(composition.bpm_changes@[j].at)->0.time,
                        bpm: composition.bpm_changes@[j].bpm,
                    }),
            decreases composition.bpm_changes@.len() - i,
        {
            bpm_changes.push(BpmChange { time: times[i], bpm: composition.bpm_changes[i].bpm });
            i += 1;
        }

        let mut at: Vec<TimingPoint> = Vec::new();
        let mut k: usize = 0;
        while k < composition.meter_changes.len()
            invariant
                k <= composition.meter_changes@.len(),
                at@.len() == k,
                forall|j: int| 0 <= j < k ==> #[trigger] at@[j] == composition.meter_changes@[j].at,
            decreases composition.meter_changes@.len() - k,
        {
            at.push(composition.meter_changes[k].at);
            k += 1;
        }
        assert(at@ =~= meter_change_times(composition.meter_changes@));
        let times = match self.create_times(at.as_slice()) {
            Ok(t) => t,
            Err(e) => {
                return Err(e);
            },
        };
        let mut time_signature_changes: Vec<TimeSignatureChange> = Vec::new();
        let mut i: usize = 0;
        while i < composition.meter_changes.len()
            invariant
                i <= composition.meter_changes@.len(),
                time_signature_changes@.len() == i,
                times@ == self.resolved_times(meter_change_times(composition.meter_changes@)),
                forall|j: int|
                    0 <= j < i ==> #[trigger] time_signature_changes@[j] == (TimeSignatureChange {
                        time: self.spec_z_position(composition.meter_changes@[j].at)->0.time,
                        time_signature: TimeSignature {
                            num_beats: composition.meter_changes@[j].meter.num_beats,
                            note_value: composition.meter_changes@[j].meter.note_value,
                        },
                    }),
            decreases composition.meter_changes@.len() - i,
        {
            time_signature_changes.push(
                TimeSignatureChange {
                    time: times[i],
                    time_signature: TimeSignature::from(composition.meter_changes[i].meter),
                },
            );
            i += 1;
        }

        let mut at: Vec<TimingPoint> = Vec::new();
        let mut k: usize = 0;
        while k < composition.soflans.len()
            invariant
                k <= composition.soflans@.len(),
                at@.len() == k,
                forall|j: int| 0 <= j < k ==> #[trigger] at@[j] == composition.soflans@[j].at,
            decreases composition.soflans@.len() - k,
        {
            at.push(composition.soflans[k].at);
            k += 1;
        }
        assert(at@ =~= soflan_times(composition.soflans@));
        let times = match self.create_times(at.as_slice()) {
            Ok(t) => t,
            Err(e) => {
                return Err(e);
            },
        };
        let mut soflans: Vec<Soflan> = Vec::new();
        let mut i: usize = 0;
        while i < composition.soflans.len()
            invariant
                i <= composition.soflans@.len(),
                soflans@.len() == i,
                times@ == self.resolved_times(soflan_times(composition.soflans@)),
                forall|j: int|
                    0 <= j < i ==> #[trigger] soflans@[j] == (Soflan {
                        time: self.spec_z_position(composition.soflans@[j].at)->0.time,
                        duration: SOFLAN_DURATION,
                        speed_multiplier: composition.soflans@[j].speed_multiplier,
                    }),
            decreases composition.soflans@.len() - i,
        {
            soflans.push(
                Soflan {
                    time: times[i],
                    duration: SOFLAN_DURATION,
                    speed_multiplier: composition.soflans[i].speed_multiplier,
                },
            );
            i += 1;
        }

        Ok(Composition { bpm_changes, time_signature_changes, soflans })
    }

    /// The resolved chart: track, notes and composition, with the timeline.
    pub fn create(self) -> (r: Result<Chart, ChartMalformed>)
        requires
            self.wf(),
        ensures
            status_of(r) == self.chart_status(),
            r matches Ok(c) ==> self.is_chart(c),
    {
        let track = match self.create_track() {
            Ok(t) => t,
            Err(e) => {
                return Err(e);
            },
        };
        let notes = match self.create_notes() {
            Ok(n) => n,
            Err(e) => {
                return Err(e);
            },
        };
        let composition = match self.create_composition() {
            Ok(c) => c,
            Err(e) => {
                return Err(e);
            },
        };
        Ok(
            Chart {
                header: Header { audio_filename: String::new(), audio_offset: 0 },
                metadata: Metadata { base_speed: 0 },
                data: ChartData { track, notes, composition },
                utils: ChartUtils { z_position_calculator: self.z_position_calculator },
            },
        )
    }
}

} // verus!
