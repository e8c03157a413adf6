//! The measure timeline: where each measure starts and how long it lasts, in
//! playback time and in track depth, and the positions within a measure.
use vstd::prelude::*;
use vstd::arithmetic::div_mod::lemma_div_is_ordered;
use crate::chart::{Time, TimeSignature};
use crate::error::ChartMalformed;
use crate::fixed::{
    checked_mul_div, checked_offset_mul_div, checked_scaled_mul, floor_div, in_range,
    lemma_div_bounds, lemma_product_bound, mul_div, narrow, narrowed, scaled_mul, UNIT,
};

verus! {

/// The musical data of one measure from which its length follows.
#[derive(Default, Clone, Copy, Debug)]
pub struct MeasureCompositionData {
    pub time_signature: TimeSignature,
    /// Beats per minute, in millionths; a beat is a quarter note.
    pub bpm: i64,
    /// Scroll-speed multiplier, in millionths.
    pub speed_multiplier: i64,
    /// The number of grid positions that the notes of the measure are written
    /// against.
    pub subdivision: u32,
}

impl MeasureCompositionData {
    /// Tempo, beat unit and subdivision are positive.
    pub open spec fn wf(&self) -> bool {
        &&& self.bpm > 0
        &&& self.time_signature.note_value > 0
        &&& self.subdivision > 0
    }

    /// The length of the measure in millionths of a second: its beats, times
    /// sixty seconds over the tempo, times four over the beat unit.
    pub open spec fn time_duration(&self) -> int {
        (self.time_signature.num_beats * 240 * UNIT * UNIT) / (self.bpm
            * self.time_signature.note_value)
    }

    /// The length of the measure in track depth at the base speed
    /// `z_base_speed`.
    pub open spec fn depth_duration(&self, z_base_speed: int) -> int {
        (self.time_signature.num_beats * 240 * UNIT * z_base_speed) / (self.bpm
            * self.time_signature.note_value)
    }

    /// Tempo times beat unit.
    fn denominator(&self) -> (den: i128)
        requires
            self.wf(),
        ensures
            den == self.bpm * self.time_signature.note_value,
            den > 0,
    {
        proof {
            lemma_product_bound(
                self.bpm as int,
                self.time_signature.note_value as int,
                0x8000_0000_0000_0000,
                0x1_0000_0000,
            );
            assert(0x8000_0000_0000_0000int * 0x1_0000_0000int == 0x8000_0000_0000_0000_0000_0000)
                by (nonlinear_arith);
            assert(self.bpm * self.time_signature.note_value > 0) by (nonlinear_arith)
                requires
                    self.bpm > 0,
                    self.time_signature.note_value > 0,
            ;
        }
        self.bpm as i128 * self.time_signature.note_value as i128
    }

    /// Whether tempo, beat unit and subdivision are positive.
    pub fn is_valid(&self) -> (r: bool)
        ensures
            r == self.wf(),
    {
        self.bpm > 0 && self.time_signature.note_value > 0 && self.subdivision > 0
    }

    /// The length of the measure in time, where it fits in an `i64`.
    pub fn checked_time_duration(&self) -> (r: Option<i64>)
        requires
            self.wf(),
        ensures
            r == narrowed(self.time_duration()),
    {
        let beats: i128 = self.time_signature.num_beats as i128;
        let num: i128 = beats * 240_000_000_000_000i128;
        let den: i128 = self.denominator();
        assert(num == self.time_signature.num_beats * 240 * UNIT * UNIT) by (nonlinear_arith)
            requires
                num == self.time_signature.num_beats * 240_000_000_000_000,
                UNIT == 1_000_000,
        ;
        narrow(floor_div(num, den))
    }

    /// The length of the measure in depth, where it fits in an `i64`.
    pub fn checked_depth_duration(&self, z_base_speed: i64) -> (r: Option<i64>)
        requires
            self.wf(),
        ensures
            r == narrowed(self.depth_duration(z_base_speed as int)),
    {
        let beats: i128 = self.time_signature.num_beats as i128;
        let scaled: i128 = beats * 240_000_000i128;
        let den: i128 = self.denominator();
        proof {
            lemma_product_bound(
                scaled as int,
                z_base_speed as int,
                0x2000_0000_0000_0000,
                0x8000_0000_0000_0000,
            );
            assert(0x2000_0000_0000_0000int * 0x8000_0000_0000_0000int
                == 0x1000_0000_0000_0000_0000_0000_0000_0000) by (nonlinear_arith);
        }
        let num: i128 = scaled * (z_base_speed as i128);
        assert(num == self.time_signature.num_beats * 240 * UNIT * z_base_speed)
            by (nonlinear_arith)
            requires
                num == (self.time_signature.num_beats * 240_000_000) * z_base_speed,
                UNIT == 1_000_000,
        ;
        narrow(floor_div(num, den))
    }
}

/// A point in playback time and track depth.
#[derive(Default, Clone, Copy, Debug, PartialEq, Eq, Structural)]
pub struct ZPosition {
    pub time: Time,
    pub z: i64,
}

impl ZPosition {
    pub fn new(time: Time, z: i64) -> (r: Self)
        ensures
            r == (ZPosition { time, z }),
    {
        Self { time, z }
    }
}

/// Where a measure starts and how long it lasts.
#[derive(Default, Clone, Copy, Debug)]
pub struct MeasurePositionData {
    pub offset: ZPosition,
    pub duration: ZPosition,
}

/// One measure of the timeline.
#[derive(Default, Clone, Copy, Debug)]
pub struct MeasureData {
    pub composition: MeasureCompositionData,
    pub position: MeasurePositionData,
}

/// The time at which measure `i` starts: the music offset and the lengths of
/// all measures before it.
pub open spec fn time_offset_at(
    compositions: Seq<MeasureCompositionData>,
    music_offset: int,
    i: int,
) -> int
    decreases i,
{
    if i <= 0 {
        music_offset
    } else {
        time_offset_at(compositions, music_offset, i - 1) + compositions[i - 1].time_duration()
    }
}

/// The depth at which measure `i` starts.
pub open spec fn depth_offset_at(
    compositions: Seq<MeasureCompositionData>,
    music_offset: int,
    z_base_speed: int,
    i: int,
) -> int
    decreases i,
{
    if i <= 0 {
        scaled_mul(music_offset, z_base_speed)
    } else {
        depth_offset_at(compositions, music_offset, z_base_speed, i - 1) + compositions[i
            - 1].depth_duration(z_base_speed)
    }
}

/// Start, length and end of measure `i` can be represented, in time and in
/// depth.
pub open spec fn measure_fits(
    compositions: Seq<MeasureCompositionData>,
    music_offset: int,
    z_base_speed: int,
    i: int,
) -> bool {
    &&& in_range(time_offset_at(compositions, music_offset, i))
    &&& in_range(depth_offset_at(compositions, music_offset, z_base_speed, i))
    &&& in_range(compositions[i].time_duration())
    &&& in_range(compositions[i].depth_duration(z_base_speed))
    &&& in_range(time_offset_at(compositions, music_offset, i + 1))
    &&& in_range(depth_offset_at(compositions, music_offset, z_base_speed, i + 1))
}

/// Every measure of the timeline can be represented.
pub open spec fn timeline_fits(
    compositions: Seq<MeasureCompositionData>,
    music_offset: int,
    z_base_speed: int,
) -> bool {
    forall|i: int|
        0 <= i < compositions.len() ==> #[trigger] measure_fits(
            compositions,
            music_offset,
            z_base_speed,
            i,
        )
}

/// Measure `i` of the timeline over `compositions`.
pub open spec fn measure_at(
    compositions: Seq<MeasureCompositionData>,
    music_offset: int,
    z_base_speed: int,
    i: int,
) -> MeasureData {
    MeasureData {
        composition: compositions[i],
        position: MeasurePositionData {
            offset: ZPosition {
                time: Time(time_offset_at(compositions, music_offset, i) as i64),
                z: depth_offset_at(compositions, music_offset, z_base_speed, i) as i64,
            },
            duration: ZPosition {
                time: Time(compositions[i].time_duration() as i64),
                z: compositions[i].depth_duration(z_base_speed) as i64,
            },
        },
    }
}

/// Every composition of the sequence is well-formed.
pub open spec fn all_valid(compositions: Seq<MeasureCompositionData>) -> bool {
    forall|i: int| 0 <= i < compositions.len() ==> (#[trigger] compositions[i]).wf()
}

/// The time of grid position `tick` of measure `m`. Ticks count from one, so
/// tick one is the start of the measure; both are in millionths.
pub open spec fn time_in_measure(m: MeasureData, tick: int) -> int {
    m.position.offset.time.0 + mul_div(
        tick - UNIT,
        m.position.duration.time.0 as int,
        m.composition.subdivision * UNIT,
    )
}

/// The depth of grid position `tick` of measure `m`.
pub open spec fn depth_in_measure(m: MeasureData, tick: int) -> int {
    m.position.offset.z + mul_div(
        tick - UNIT,
        m.position.duration.z as int,
        m.composition.subdivision * UNIT,
    )
}

/// The position of grid position `tick` of measure `m`, where it can be
/// represented.
pub open spec fn position_in_measure(m: MeasureData, tick: int) -> Option<ZPosition> {
    let t = time_in_measure(m, tick);
    let z = depth_in_measure(m, tick);
    if in_range(t) && in_range(z) {
        Some(ZPosition { time: Time(t as i64), z: z as i64 })
    } else {
        None
    }
}

/// What holds of one measure of a calculator with base speed `z_base_speed`.
pub open spec fn measure_wf(m: MeasureData, z_base_speed: int) -> bool {
    &&& m.composition.wf()
    &&& m.position.duration.time.0 == m.composition.time_duration()
    &&& m.position.duration.z == m.composition.depth_duration(z_base_speed)
    &&& in_range(m.position.offset.time.0 + m.position.duration.time.0)
    &&& in_range(m.position.offset.z + m.position.duration.z)
}

/// Measure `b` starts where measure `a` ends.
pub open spec fn follows(a: MeasureData, b: MeasureData) -> bool {
    &&& b.position.offset.time.0 == a.position.offset.time.0 + a.position.duration.time.0
    &&& b.position.offset.z == a.position.offset.z + a.position.duration.z
}

/// `r` is what building the timeline of `compositions` gives: the timeline,
/// or the reason why there is none. A composition that is not well-formed
/// is reported before a measure that cannot be represented.
pub open spec fn is_timeline_of(
    r: Result<ZPositionCalculator, ChartMalformed>,
    compositions: Seq<MeasureCompositionData>,
    music_offset: int,
    z_base_speed: int,
) -> bool {
    &&& !all_valid(compositions) ==> r == Err::<ZPositionCalculator, ChartMalformed>(
        ChartMalformed::InvalidComposition,
    )
    &&& all_valid(compositions) && !timeline_fits(compositions, music_offset, z_base_speed) ==> r
        == Err::<ZPositionCalculator, ChartMalformed>(ChartMalformed::ValueOutOfRange)
    &&& all_valid(compositions) && timeline_fits(compositions, music_offset, z_base_speed) ==> r is Ok
    &&& r matches Ok(c) ==> {
        &&& c.wf()
        &&& c.spec_z_base_speed() == z_base_speed
        &&& c@.len() == compositions.len()
        &&& forall|i: int|
            0 <= i < c@.len() ==> #[trigger] c@[i] == measure_at(
                compositions,
                music_offset,
                z_base_speed,
                i,
            )
    }
}

/// Converts a measure and a grid position within it to playback time and
/// track depth.
#[derive(Clone, Debug)]
pub struct ZPositionCalculator {
    /// Sorted by offset.
    measures: Vec<MeasureData>,
    /// Depth covered per second, in millionths.
    z_base_speed: i64,
}

impl View for ZPositionCalculator {
    type V = Seq<MeasureData>;

    closed spec fn view(&self) -> Seq<MeasureData> {
        self.measures@
    }
}

impl ZPositionCalculator {
    /// The base speed that the calculator was made with.
    pub closed spec fn spec_z_base_speed(&self) -> int {
        self.z_base_speed as int
    }

    /// Each measure has the length that its composition gives, and starts
    /// where the one before it ends.
    pub open spec fn wf(&self) -> bool {
        &&& forall|i: int|
            0 <= i < self@.len() ==> measure_wf(#[trigger] self@[i], self.spec_z_base_speed())
        &&& forall|i: int| 0 <= i < self@.len() - 1 ==> follows(#[trigger] self@[i], self@[i + 1])
    }

    /// Builds the timeline of `measure_compositions`, the first measure
    /// starting at `music_offset`.
    pub fn new(
        measure_compositions: Vec<MeasureCompositionData>,
        music_offset: Time,
        z_base_speed: i64,
    ) -> (r: Result<Self, ChartMalformed>)
        ensures
            is_timeline_of(r, measure_compositions@, music_offset.0 as int, z_base_speed as int),
    {
        let n = measure_compositions.len();
        let ghost comps = measure_compositions@;
        let ghost mo = music_offset.0 as int;
        let ghost sp = z_base_speed as int;
        let mut k: usize = 0;
        while k < n
            invariant
                n == measure_compositions.len(),
                k <= n,
                forall|i: int| 0 <= i < k ==> (#[trigger] measure_compositions@[i]).wf(),
            decreases n - k,
        {
            if !measure_compositions[k].is_valid() {
                return Err(ChartMalformed::InvalidComposition);
            }
            k += 1;
        }
        assert(all_valid(comps));
        let mut measures: Vec<MeasureData> = Vec::new();
        if n == 0 {
            return Ok(Self { measures, z_base_speed });
        }
        let mut time: i64 = music_offset.0;
        let mut z: i64 = match checked_scaled_mul(music_offset.0, z_base_speed) {
            Some(z) => z,
            None => {
                assert(!measure_fits(comps, mo, sp, 0));
                return Err(ChartMalformed::ValueOutOfRange);
            },
        };
        let mut i: usize = 0;
        while i < n
            invariant
                n == measure_compositions.len(),
                comps == measure_compositions@,
                mo == music_offset.0,
                sp == z_base_speed,
                all_valid(comps),
                i <= n,
                measures@.len() == i,
                time == time_offset_at(comps, mo, i as int),
                z == depth_offset_at(comps, mo, sp, i as int),
                forall|j: int| 0 <= j < i ==> measure_fits(comps, mo, sp, j),
                forall|j: int| 0 <= j < i ==> #[trigger] measures@[j] == measure_at(comps, mo, sp, j),
            decreases n - i,
        {
            let c = measure_compositions[i];
            assert(c.wf());
            let fit = match (c.checked_time_duration(), c.checked_depth_duration(z_base_speed)) {
                (Some(dt), Some(dz)) => match (time.checked_add(dt), z.checked_add(dz)) {
                    (Some(t1), Some(z1)) => Some((dt, dz, t1, z1)),
                    _ => None,
                },
                _ => None,
            };
            match fit {
                Some((dt, dz, t1, z1)) => {
                    measures.push(
                        MeasureData {
                            composition: c,
                            position: MeasurePositionData {
                                offset: ZPosition { time: Time(time), z },
                                duration: ZPosition { time: Time(dt), z: dz },
                            },
                        },
                    );
                    assert(measure_fits(comps, mo, sp, i as int));
                    time = t1;
                    z = z1;
                },
                None => {
                    assert(!measure_fits(comps, mo, sp, i as int));
                    return Err(ChartMalformed::ValueOutOfRange);
                },
            }
            i += 1;
        }
        let r = Self { measures, z_base_speed };
        proof {
            assert forall|j: int| 0 <= j < r@.len() implies measure_wf(
                #[trigger] r@[j],
                r.spec_z_base_speed(),
            ) by {
                assert(measure_fits(comps, mo, sp, j));
                assert(r@[j] == measure_at(comps, mo, sp, j));
            }
            assert forall|j: int| 0 <= j < r@.len() - 1 implies follows(
                #[trigger] r@[j],
                r@[j + 1],
            ) by {
                assert(measure_fits(comps, mo, sp, j));
                assert(measure_fits(comps, mo, sp, j + 1));
                assert(r@[j] == measure_at(comps, mo, sp, j));
                assert(r@[j + 1] == measure_at(comps, mo, sp, j + 1));
            }
        }
        Ok(r)
    }

    /// Measure `measure` of the timeline.
    pub fn measure(&self, measure: usize) -> (r: MeasureData)
        requires
            measure < self@.len(),
        ensures
            r == self@[measure as int],
    {
        self.measures[measure]
    }

    /// The number of measures.
    pub fn len(&self) -> (n: usize)
        ensures
            n == self@.len(),
    {
        self.measures.len()
    }

    /// The position of grid position `subdivision_index` of measure
    /// `measure`, where it can be represented. The index is in millionths and
    /// counts from one.
    pub open spec fn spec_z_position_at(&self, measure: int, subdivision_index: int) -> Option<
        ZPosition,
    > {
        position_in_measure(self@[measure], subdivision_index)
    }

    /// Resolves a measure and a grid position within it. `None` means that
    /// the time or the depth is too large for an `i64`.
    pub fn z_position_at(&self, measure: usize, subdivision_index: i64) -> (r: Option<ZPosition>)
        requires
            self.wf(),
            measure < self@.len(),
        ensures
            r == self.spec_z_position_at(measure as int, subdivision_index as int),
    {
        let m = self.measures[measure];
        assert(measure_wf(self@[measure as int], self.spec_z_base_speed()));
        let a: i128 = subdivision_index as i128 - UNIT as i128;
        let d: i128 = m.composition.subdivision as i128 * UNIT as i128;
        let time = checked_offset_mul_div(
            m.position.offset.time.0,
            a,
            m.position.duration.time.0,
            d,
        );
        let z = checked_offset_mul_div(m.position.offset.z, a, m.position.duration.z, d);
        match (time, z) {
            (Some(time), Some(z)) => Some(ZPosition::new(Time(time), z)),
            _ => None,
        }
    }

    /// Depth covered per second, in millionths.
    pub fn z_base_speed(&self) -> (r: i64)
        ensures
            r == self.spec_z_base_speed(),
    {
        self.z_base_speed
    }
}

/// A measure with a well-formed composition has a length that is not
/// negative, in time and, at a base speed that is not negative, in depth.
pub proof fn lemma_durations_not_negative(c: MeasureCompositionData, z_base_speed: int)
    requires
        c.wf(),
    ensures
        c.time_duration() >= 0,
        z_base_speed >= 0 ==> c.depth_duration(z_base_speed) >= 0,
{
    let den = c.bpm * c.time_signature.note_value;
    assert(den > 0) by (nonlinear_arith)
        requires
            den == c.bpm * c.time_signature.note_value,
            c.bpm > 0,
            c.time_signature.note_value > 0,
    ;
    let num = c.time_signature.num_beats * 240 * UNIT * UNIT;
    assert(num >= 0) by (nonlinear_arith)
        requires
            num == c.time_signature.num_beats * 240 * UNIT * UNIT,
            c.time_signature.num_beats >= 0,
            UNIT == 1_000_000,
    ;
    lemma_div_bounds(num, den);
    if z_base_speed >= 0 {
        let numz = c.time_signature.num_beats * 240 * UNIT * z_base_speed;
        assert(numz >= 0) by (nonlinear_arith)
            requires
                numz == c.time_signature.num_beats * 240 * UNIT * z_base_speed,
                c.time_signature.num_beats >= 0,
                z_base_speed >= 0,
                UNIT == 1_000_000,
        ;
        lemma_div_bounds(numz, den);
    }
}

/// Offsets never decrease: over well-formed compositions each measure starts
/// no earlier than the one before it, and, at a base speed that is not
/// negative, no nearer in depth.
pub proof fn lemma_offsets_monotonic(
    compositions: Seq<MeasureCompositionData>,
    music_offset: int,
    z_base_speed: int,
    i: int,
)
    requires
        all_valid(compositions),
        0 <= i < compositions.len(),
    ensures
        time_offset_at(compositions, music_offset, i + 1) >= time_offset_at(
            compositions,
            music_offset,
            i,
        ),
        z_base_speed >= 0 ==> depth_offset_at(compositions, music_offset, z_base_speed, i + 1)
            >= depth_offset_at(compositions, music_offset, z_base_speed, i),
{
    assert(compositions[i].wf());
    lemma_durations_not_negative(compositions[i], z_base_speed);
}

/// Offsets never decrease along the measures of a calculator.
pub proof fn lemma_calculator_offsets_monotonic(c: ZPositionCalculator, i: int)
    requires
        c.wf(),
        0 <= i < c@.len() - 1,
    ensures
        c@[i + 1].position.offset.time.0 >= c@[i].position.offset.time.0,
        c.spec_z_base_speed() >= 0 ==> c@[i + 1].position.offset.z >= c@[i].position.offset.z,
{
    assert(measure_wf(c@[i], c.spec_z_base_speed()));
    assert(follows(c@[i], c@[i + 1]));
    lemma_durations_not_negative(c@[i].composition, c.spec_z_base_speed());
}

/// Tick one is the start of the measure.
pub proof fn lemma_first_tick_is_measure_start(m: MeasureData)
    requires
        m.composition.wf(),
    ensures
        time_in_measure(m, UNIT as int) == m.position.offset.time.0,
        depth_in_measure(m, UNIT as int) == m.position.offset.z,
        position_in_measure(m, UNIT as int) == Some(m.position.offset),
{
    let d = m.composition.subdivision * UNIT;
    assert(0 * (m.position.duration.time.0 as int) == 0);
    assert(0 * (m.position.duration.z as int) == 0);
    assert(0int / d == 0) by (nonlinear_arith)
        requires
            d > 0,
    ;
}

/// One tick past the last grid position is the end of the measure: the start
/// plus the length.
pub proof fn lemma_last_tick_is_measure_end(m: MeasureData)
    requires
        m.composition.wf(),
    ensures
        time_in_measure(m, (m.composition.subdivision + 1) * UNIT) == m.position.offset.time.0
            + m.position.duration.time.0,
        depth_in_measure(m, (m.composition.subdivision + 1) * UNIT) == m.position.offset.z
            + m.position.duration.z,
{
    let d = m.composition.subdivision * UNIT;
    let tick = (m.composition.subdivision + 1) * UNIT;
    assert(tick - UNIT == d) by (nonlinear_arith)
        requires
            tick == (m.composition.subdivision + 1) * UNIT,
            d == m.composition.subdivision * UNIT,
    ;
    let t = m.position.duration.time.0 as int;
    let z = m.position.duration.z as int;
    assert(d > 0);
    assert((d * t) / d == t) by (nonlinear_arith)
        requires
            d > 0,
    ;
    assert((d * z) / d == z) by (nonlinear_arith)
        requires
            d > 0,
    ;
}

/// In a calculator, tick one of a measure resolves to the measure's offset,
/// and one tick past the last grid position of a measure resolves to the
/// offset of the measure that follows.
pub proof fn lemma_subdivision_boundary(c: ZPositionCalculator, measure: int)
    requires
        c.wf(),
        0 <= measure < c@.len(),
    ensures
        c.spec_z_position_at(measure, UNIT as int) == Some(c@[measure].position.offset),
        c.spec_z_position_at(measure, (c@[measure].composition.subdivision + 1) * UNIT) == Some(
            ZPosition {
                time: Time(
                    (c@[measure].position.offset.time.0 + c@[measure].position.duration.time.0) as i64,
                ),
                z: (c@[measure].position.offset.z + c@[measure].position.duration.z) as i64,
            },
        ),
        measure + 1 < c@.len() ==> c.spec_z_position_at(
            measure,
            (c@[measure].composition.subdivision + 1) * UNIT,
        ) == Some(c@[measure + 1].position.offset),
{
    let m = c@[measure];
    assert(measure_wf(m, c.spec_z_base_speed()));
    lemma_first_tick_is_measure_start(m);
    lemma_last_tick_is_measure_end(m);
    if measure + 1 < c@.len() {
        assert(follows(c@[measure], c@[measure + 1]));
    }
}

/// A measure of a calculator starts no earlier than any measure before it,
/// and, at a base speed that is not negative, no nearer in depth.
pub proof fn lemma_calculator_offsets_ordered(c: ZPositionCalculator, first: int, second: int)
    requires
        c.wf(),
        0 <= first <= second < c@.len(),
    ensures
        c@[first].position.offset.time.0 <= c@[second].position.offset.time.0,
        c.spec_z_base_speed() >= 0 ==> c@[first].position.offset.z <= c@[second].position.offset.z,
    decreases second - first,
{
    if first < second {
        lemma_calculator_offsets_ordered(c, first, second - 1);
        lemma_calculator_offsets_monotonic(c, second - 1);
    }
}

/// Within a measure whose length is not negative, a position from the first
/// tick to one past the last lies between the start and the end of the
/// measure, and positions rise with the tick.
pub proof fn lemma_offset_within_measure(earlier: int, later: int, duration: int, subdivision: int)
    requires
        UNIT <= earlier <= later <= (subdivision + 1) * UNIT,
        duration >= 0,
        subdivision > 0,
    ensures
        0 <= mul_div(earlier - UNIT, duration, subdivision * UNIT) <= mul_div(
            later - UNIT,
            duration,
            subdivision * UNIT,
        ) <= duration,
{
    let d = subdivision * UNIT;
    let a = earlier - UNIT;
    let b = later - UNIT;
    assert((subdivision + 1) * UNIT == d + UNIT) by (nonlinear_arith)
        requires
            d == subdivision * UNIT,
    ;
    assert(0 <= a * duration <= b * duration <= d * duration) by (nonlinear_arith)
        requires
            0 <= a <= b <= d,
            duration >= 0,
    ;
    assert(0int / d == 0 && (d * duration) / d == duration) by (nonlinear_arith)
        requires
            d > 0,
    ;
    lemma_div_is_ordered(0, a * duration, d);
    lemma_div_is_ordered(a * duration, b * duration, d);
    lemma_div_is_ordered(b * duration, d * duration, d);
}

/// Resolution keeps the order of the chart: of two positions, each from the
/// first tick of its measure to one past the last, the one in the earlier
/// measure, or at the earlier tick of the same measure, resolves to no later
/// a time, and at a base speed that is not negative to no greater a depth.
pub proof fn lemma_resolution_is_monotonic(
    c: ZPositionCalculator,
    first_measure: int,
    first_tick: int,
    second_measure: int,
    second_tick: int,
)
    requires
        c.wf(),
        0 <= first_measure <= second_measure < c@.len(),
        UNIT <= first_tick <= (c@[first_measure].composition.subdivision + 1) * UNIT,
        UNIT <= second_tick <= (c@[second_measure].composition.subdivision + 1) * UNIT,
        first_measure == second_measure ==> first_tick <= second_tick,
    ensures
        time_in_measure(c@[first_measure], first_tick) <= time_in_measure(
            c@[second_measure],
            second_tick,
        ),
        c.spec_z_base_speed() >= 0 ==> depth_in_measure(c@[first_measure], first_tick)
            <= depth_in_measure(c@[second_measure], second_tick),
{
    let a = c@[first_measure];
    let b = c@[second_measure];
    let speed = c.spec_z_base_speed();
    assert(measure_wf(a, speed));
    assert(measure_wf(b, speed));
    lemma_durations_not_negative(a.composition, speed);
    lemma_durations_not_negative(b.composition, speed);
    if first_measure == second_measure {
        lemma_offset_within_measure(
            first_tick,
            second_tick,
            a.position.duration.time.0 as int,
            a.composition.subdivision as int,
        );
        if speed >= 0 {
            lemma_offset_within_measure(
                first_tick,
                second_tick,
                a.position.duration.z as int,
                a.composition.subdivision as int,
            );
        }
    } else {
        assert(follows(c@[first_measure], c@[first_measure + 1]));
        lemma_calculator_offsets_ordered(c, first_measure + 1, second_measure);
        lemma_offset_within_measure(
            first_tick,
            first_tick,
            a.position.duration.time.0 as int,
            a.composition.subdivision as int,
        );
        lemma_offset_within_measure(
            second_tick,
            second_tick,
            b.position.duration.time.0 as int,
            b.composition.subdivision as int,
        );
        if speed >= 0 {
            lemma_offset_within_measure(
                first_tick,
                first_tick,
                a.position.duration.z as int,
                a.composition.subdivision as int,
            );
            lemma_offset_within_measure(
                second_tick,
                second_tick,
                b.position.duration.z as int,
                b.composition.subdivision as int,
            );
        }
    }
}

/// Resolution reads nothing but the measures: two calculators with the same
/// measures resolve every measure and tick to the same position.
pub proof fn lemma_resolution_is_a_function_of_the_measures(
    a: ZPositionCalculator,
    b: ZPositionCalculator,
    measure: int,
    subdivision_index: int,
)
    requires
        a@ == b@,
    ensures
        a.spec_z_position_at(measure, subdivision_index) == b.spec_z_position_at(
            measure,
            subdivision_index,
        ),
{
}

/// The lateral coordinate of a lane position: `abs_position` lane units and
/// `offset_position` parts of a lane unit, of which `resolution` make one,
/// scaled by `multiplier`. All are in millionths; both quotients are rounded
/// towards negative infinity.
pub open spec fn lateral_position(
    abs_position: int,
    offset_position: int,
    resolution: int,
    multiplier: int,
) -> int {
    scaled_mul(abs_position + mul_div(offset_position, UNIT as int, resolution), multiplier)
}

/// Converts a lane coordinate of a chart to a lateral position.
#[derive(Clone, Copy, Debug)]
pub struct XPositionCalculator {
    resolution: i64,
}

impl XPositionCalculator {
    /// The number of offset units in a lane unit, in millionths.
    pub closed spec fn spec_resolution(&self) -> int {
        self.resolution as int
    }

    /// The resolution is positive.
    pub open spec fn wf(&self) -> bool {
        self.spec_resolution() > 0
    }

    /// A calculator with `resolution` offset units to the lane unit; `None`
    /// where the resolution is not positive.
    pub fn new(resolution: i64) -> (r: Option<Self>)
        ensures
            resolution <= 0 ==> r is None,
            resolution > 0 ==> r is Some && r->0.wf() && r->0.spec_resolution() == resolution,
    {
        if resolution > 0 {
            Some(Self { resolution })
        } else {
            None
        }
    }

    /// The lateral position, where it can be represented.
    pub open spec fn spec_x_position_at(
        &self,
        abs_position: int,
        offset_position: int,
        multiplier: int,
    ) -> Option<i64> {
        let part = mul_div(offset_position, UNIT as int, self.spec_resolution());
        if in_range(part) && in_range(abs_position + part) {
            narrowed(lateral_position(abs_position, offset_position, self.spec_resolution(), multiplier))
        } else {
            None
        }
    }

    /// Resolves a lane coordinate. `None` means that the position, or a step
    /// on the way to it, is too large for an `i64`.
    pub fn x_position_at(&self, abs_position: i64, offset_position: i64, multiplier: i64) -> (r:
        Option<i64>)
        requires
            self.wf(),
        ensures
            r == self.spec_x_position_at(
                abs_position as int,
                offset_position as int,
                multiplier as int,
            ),
    {
        match checked_mul_div(offset_position, UNIT, self.resolution) {
            Some(part) => match abs_position.checked_add(part) {
                Some(lanes) => checked_scaled_mul(lanes, multiplier),
                None => None,
            },
            None => None,
        }
    }
}

} // verus!
