//! Why a chart cannot be loaded.
use vstd::prelude::*;

verus! {

/// A chart that cannot be rendered. Loading stops at the first of these.
#[derive(Clone, Copy, Debug, PartialEq, Eq, Structural)]
pub enum ChartMalformed {
    /// The header names no starting tempo.
    MissingStartingTempo,
    /// The header names no starting time signature.
    MissingStartingTimeSignature,
    /// The header names no tick resolution.
    MissingTickResolution,
    /// The header names no lane resolution.
    MissingLaneResolution,
    /// The measure count is absent or zero.
    MissingMeasureCount,
    /// A tempo, a beat unit, a resolution or a subdivision is not positive, or
    /// a duration is negative.
    InvalidComposition,
    /// A timing point names a measure beyond the measure count.
    MeasureOutOfRange,
    /// The track has no platform.
    MissingPlatform,
    /// A strip boundary has fewer than two points.
    DegenerateStrip,
    /// A time, a position or an index is too large to be represented.
    ValueOutOfRange,
}

} // verus!
