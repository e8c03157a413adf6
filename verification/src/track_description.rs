//! The scene of a track: one object instance for each note, and the meshes of
//! platforms, hold notes and lanes.
use vstd::prelude::*;
use crate::chart::{
    Chart, ChartData, ContactNote, EvadeNote, FlickNote, HitNote, HitNoteType, HoldNote,
    LaneGroup, LaneType, Platform, TrackPosition,
};
use crate::error::ChartMalformed;
use crate::fixed::{checked_scaled_mul, halved, in_range, scaled_mul};
use crate::geometry::{
    lemma_strip_counts, strip_indices, strip_pairs, strip_vertex, strip_vertices, Mesh, Plane,
    Point2, Point3, MAX_SIDE_POINTS,
};
use crate::mosv::{
    lemma_holds_after_add, lemma_merged_prefix_len, merged_indices, merged_object_indices,
    merged_vertices, translated_all, MergedObjects, MAX_VERTICES,
};

verus! {

/// Red, green, blue and alpha, each in millionths.
#[derive(Clone, Copy, Debug, Default, PartialEq, Eq, Structural)]
pub struct Color {
    pub r: i64,
    pub g: i64,
    pub b: i64,
    pub a: i64,
}

/// The colour of every kind that the colour tables do not list: white.
pub open spec fn fallback_color() -> Color {
    Color { r: 1_000_000, g: 1_000_000, b: 1_000_000, a: 1_000_000 }
}

/// What a hit note, or a hold note, is hit on.
#[derive(Clone, Copy, Debug, PartialEq, Eq, Structural)]
pub enum HitNoteKind {
    WallLeft,
    WallRight,
    Left,
    Center,
    Right,
    /// A code that stands for no kind that is known.
    Unknown(u16),
}

/// The kind that a code stands for. A code and the code ten above it, that
/// of its critical form, stand for the same kind.
pub open spec fn kind_of_hit_type(hit_type: HitNoteType) -> HitNoteKind {
    if hit_type.0 == 0 || hit_type.0 == 10 {
        HitNoteKind::WallLeft
    } else if hit_type.0 == 1 || hit_type.0 == 11 {
        HitNoteKind::WallRight
    } else if hit_type.0 == 2 || hit_type.0 == 12 {
        HitNoteKind::Left
    } else if hit_type.0 == 3 || hit_type.0 == 13 {
        HitNoteKind::Center
    } else if hit_type.0 == 4 || hit_type.0 == 14 {
        HitNoteKind::Right
    } else {
        HitNoteKind::Unknown(hit_type.0)
    }
}

/// Whether the code stands for a kind of hit note that is known.
pub open spec fn hit_type_is_known(hit_type: HitNoteType) -> bool {
    !(kind_of_hit_type(hit_type) is Unknown)
}

/// The colour of each kind of hit note; white for a kind that is not known.
pub open spec fn color_of_hit_kind(kind: HitNoteKind) -> Color {
    match kind {
        HitNoteKind::WallLeft => Color { r: 1_000_000, g: 0, b: 1_000_000, a: 1_000_000 },
        HitNoteKind::WallRight => Color { r: 500_000, g: 0, b: 500_000, a: 1_000_000 },
        HitNoteKind::Left => Color { r: 1_000_000, g: 0, b: 0, a: 1_000_000 },
        HitNoteKind::Center => Color { r: 0, g: 1_000_000, b: 0, a: 1_000_000 },
        HitNoteKind::Right => Color { r: 0, g: 0, b: 1_000_000, a: 1_000_000 },
        HitNoteKind::Unknown(_) => fallback_color(),
    }
}

/// The colour of a hit note.
pub open spec fn base_color_hit(hit_type: HitNoteType) -> Color {
    color_of_hit_kind(kind_of_hit_type(hit_type))
}

/// The kind that the code of a hit note stands for.
pub fn hit_note_kind(hit_type: HitNoteType) -> (kind: HitNoteKind)
    ensures
        kind == kind_of_hit_type(hit_type),
{
    match hit_type.0 {
        0 | 10 => HitNoteKind::WallLeft,
        1 | 11 => HitNoteKind::WallRight,
        2 | 12 => HitNoteKind::Left,
        3 | 13 => HitNoteKind::Center,
        4 | 14 => HitNoteKind::Right,
        code => HitNoteKind::Unknown(code),
    }
}

/// Whether the code stands for a kind of hit note that is known. A note of
/// a kind that is not known is drawn in the fallback colour.
pub fn is_known_hit_type(hit_type: HitNoteType) -> (r: bool)
    ensures
        r == hit_type_is_known(hit_type),
{
    match hit_note_kind(hit_type) {
        HitNoteKind::Unknown(_) => false,
        _ => true,
    }
}

/// The colour of a hit note of the given kind.
pub fn get_base_color_hit(hit_type: HitNoteType) -> (c: Color)
    ensures
        c == base_color_hit(hit_type),
        !hit_type_is_known(hit_type) ==> c == fallback_color(),
{
    match hit_note_kind(hit_type) {
        HitNoteKind::WallLeft => Color { r: 1_000_000, g: 0, b: 1_000_000, a: 1_000_000 },
        HitNoteKind::WallRight => Color { r: 500_000, g: 0, b: 500_000, a: 1_000_000 },
        HitNoteKind::Left => Color { r: 1_000_000, g: 0, b: 0, a: 1_000_000 },
        HitNoteKind::Center => Color { r: 0, g: 1_000_000, b: 0, a: 1_000_000 },
        HitNoteKind::Right => Color { r: 0, g: 0, b: 1_000_000, a: 1_000_000 },
        HitNoteKind::Unknown(_) => Color {
            r: 1_000_000,
            g: 1_000_000,
            b: 1_000_000,
            a: 1_000_000,
        },
    }
}

/// The lanes that have a colour of their own.
#[derive(Clone, Copy, Debug, PartialEq, Eq, Structural)]
pub enum LaneKind {
    Left,
    Center,
    Right,
    /// A code that stands for no lane with a colour of its own.
    Unknown(u16),
}

/// The kind that a code stands for. A code and the code eleven above it
/// stand for the same kind.
pub open spec fn kind_of_lane_type(lane_type: LaneType) -> LaneKind {
    if lane_type.0 == 1 || lane_type.0 == 12 {
        LaneKind::Left
    } else if lane_type.0 == 2 || lane_type.0 == 13 {
        LaneKind::Center
    } else if lane_type.0 == 3 || lane_type.0 == 14 {
        LaneKind::Right
    } else {
        LaneKind::Unknown(lane_type.0)
    }
}

/// Whether the code stands for a lane with a colour of its own.
pub open spec fn lane_type_is_known(lane_type: LaneType) -> bool {
    !(kind_of_lane_type(lane_type) is Unknown)
}

/// The colour of each kind of lane: red, green and blue for left, centre and
/// right; white for a kind that is not known.
pub open spec fn color_of_lane_kind(kind: LaneKind) -> Color {
    match kind {
        LaneKind::Left => Color { r: 1_000_000, g: 0, b: 0, a: 1_000_000 },
        LaneKind::Center => Color { r: 0, g: 1_000_000, b: 0, a: 1_000_000 },
        LaneKind::Right => Color { r: 0, g: 0, b: 1_000_000, a: 1_000_000 },
        LaneKind::Unknown(_) => fallback_color(),
    }
}

/// The colour of a lane.
pub open spec fn base_color_lane(lane_type: LaneType) -> Color {
    color_of_lane_kind(kind_of_lane_type(lane_type))
}

/// The kind that the code of a lane stands for.
pub fn lane_kind(lane_type: LaneType) -> (kind: LaneKind)
    ensures
        kind == kind_of_lane_type(lane_type),
{
    match lane_type.0 {
        1 | 12 => LaneKind::Left,
        2 | 13 => LaneKind::Center,
        3 | 14 => LaneKind::Right,
        code => LaneKind::Unknown(code),
    }
}

/// Whether the code stands for a lane with a colour of its own.
pub fn is_known_lane_type(lane_type: LaneType) -> (r: bool)
    ensures
        r == lane_type_is_known(lane_type),
{
    match lane_kind(lane_type) {
        LaneKind::Unknown(_) => false,
        _ => true,
    }
}

/// The colour of a lane of the given kind.
pub fn get_base_color_lane(lane_type: LaneType) -> (c: Color)
    ensures
        c == base_color_lane(lane_type),
        !lane_type_is_known(lane_type) ==> c == fallback_color(),
{
    match lane_kind(lane_type) {
        LaneKind::Left => Color { r: 1_000_000, g: 0, b: 0, a: 1_000_000 },
        LaneKind::Center => Color { r: 0, g: 1_000_000, b: 0, a: 1_000_000 },
        LaneKind::Right => Color { r: 0, g: 0, b: 1_000_000, a: 1_000_000 },
        LaneKind::Unknown(_) => Color { r: 1_000_000, g: 1_000_000, b: 1_000_000, a: 1_000_000 },
    }
}

/// The colour of every contact note.
pub open spec fn contact_color() -> Color {
    Color { r: 1_000_000, g: 1_000_000, b: 0, a: 1_000_000 }
}

/// The colour of every flick note.
pub open spec fn flick_color() -> Color {
    Color { r: 800_000, g: 800_000, b: 100_000, a: 1_000_000 }
}

/// The colour of every evade note.
pub open spec fn evade_color() -> Color {
    Color { r: 600_000, g: 200_000, b: 900_000, a: 1_000_000 }
}

/// How the track is laid out for drawing.
#[derive(Clone, Copy, Debug)]
pub struct TrackSettings {
    /// Depth that the runner covers per unit of chart depth, in millionths.
    pub runner_speed: i64,
}

/// One drawn object: where it stands, its colour, and whether it scrolls
/// with the runner.
#[derive(Clone, Copy, Debug, PartialEq, Eq, Structural)]
pub struct ObjectInstance {
    pub z_position: i64,
    pub x_position: i64,
    pub base_color: Color,
    pub apply_runner_transform: bool,
}

impl ObjectInstance {
    pub fn from_chart_hit(note: &HitNote, apply_runner_transform: bool) -> (r: Self)
        ensures
            r == (ObjectInstance {
                z_position: note.position.z,
                x_position: note.position.x,
                base_color: base_color_hit(note.ty),
                apply_runner_transform,
            }),
    {
        Self {
            z_position: note.position.z,
            x_position: note.position.x,
            base_color: get_base_color_hit(note.ty),
            apply_runner_transform,
        }
    }

    pub fn from_chart_contact(note: &ContactNote, apply_runner_transform: bool) -> (r: Self)
        ensures
            r == (ObjectInstance {
                z_position: note.position.z,
                x_position: note.position.x,
                base_color: contact_color(),
                apply_runner_transform,
            }),
    {
        Self {
            z_position: note.position.z,
            x_position: note.position.x,
            base_color: Color { r: 1_000_000, g: 1_000_000, b: 0, a: 1_000_000 },
            apply_runner_transform,
        }
    }

    pub fn from_chart_flick(note: &FlickNote, apply_runner_transform: bool) -> (r: Self)
        ensures
            r == (ObjectInstance {
                z_position: note.position.z,
                x_position: note.position.x,
                base_color: flick_color(),
                apply_runner_transform,
            }),
    {
        Self {
            z_position: note.position.z,
            x_position: note.position.x,
            base_color: Color { r: 800_000, g: 800_000, b: 100_000, a: 1_000_000 },
            apply_runner_transform,
        }
    }

    /// The object of a mesh that holds its own coordinates: it stands at the
    /// origin and scrolls with the runner.
    pub fn at_origin(base_color: Color) -> (r: Self)
        ensures
            r == (ObjectInstance {
                z_position: 0,
                x_position: 0,
                base_color,
                apply_runner_transform: true,
            }),
    {
        Self { z_position: 0, x_position: 0, base_color, apply_runner_transform: true }
    }
}

/// An evade note as drawn: it moves from `start_position` to `end_position`,
/// both given as lateral position and depth.
#[derive(Clone, Copy, Debug, PartialEq, Eq, Structural)]
pub struct EvadeObjectInstance {
    /// Lateral position in `x`, depth in `y`.
    pub start_position: Point2,
    /// Lateral position in `x`, depth in `y`.
    pub end_position: Point2,
    pub base_color: Color,
    /// When the movement starts, in millionths of a second.
    pub trigger_time: i64,
    /// How long the movement takes, in millionths of a second.
    pub duration: i64,
}

impl EvadeObjectInstance {
    /// The movement does not run backwards in time.
    pub open spec fn wf(&self) -> bool {
        self.duration >= 0
    }

    pub fn from_chart_evade(note: &EvadeNote) -> (r: Self)
        ensures
            r == (EvadeObjectInstance {
                start_position: Point2 { x: note.movement.start.x, y: note.movement.start.z },
                end_position: Point2 { x: note.movement.end.x, y: note.movement.end.z },
                base_color: evade_color(),
                trigger_time: note.movement.trigger_time.0,
                duration: note.movement.duration,
            }),
    {
        Self {
            start_position: Point2 { x: note.movement.start.x, y: note.movement.start.z },
            end_position: Point2 { x: note.movement.end.x, y: note.movement.end.z },
            base_color: Color { r: 600_000, g: 200_000, b: 900_000, a: 1_000_000 },
            trigger_time: note.movement.trigger_time.0,
            duration: note.movement.duration,
        }
    }
}

/// How wide a hit note is, and a hold note with it.
pub const HIT_X_LENGTH: i64 = 250_000;

/// How deep a hit note is.
pub const HIT_Z_LENGTH: i64 = 100_000;

/// How wide the line of a lane is.
pub const LANE_WIDTH: i64 = 40_000;

/// How far below the ground plane hold notes and lanes are drawn.
pub const GROUND_OFFSET: i64 = -5_000;

/// The lane kind of which no line is drawn.
pub const ENEMY_LANE: u16 = 4;

/// Chart depth `z` as track depth at the runner speed `speed`.
pub open spec fn run_depth(speed: int, z: int) -> int {
    scaled_mul(z, speed)
}

/// The point of the chart moved sideways by `dx` and laid on the ground
/// plane at the runner speed `speed`.
pub open spec fn ground_vertex(speed: int, p: TrackPosition, dx: int) -> Point3 {
    Point3 { x: (p.x + dx) as i64, y: 0, z: run_depth(speed, p.z as int) as i64 }
}

/// `ground_vertex` can be represented.
pub open spec fn ground_vertex_fits(speed: int, p: TrackPosition, dx: int) -> bool {
    in_range(p.x + dx) && in_range(run_depth(speed, p.z as int))
}

/// The points of a boundary, each moved sideways by `dx` and laid on the
/// ground plane.
pub open spec fn ground_side(speed: int, points: Seq<TrackPosition>, dx: int) -> Seq<Point3> {
    Seq::new(points.len(), |i: int| ground_vertex(speed, points[i], dx))
}

/// Every point of `ground_side` can be represented.
pub open spec fn ground_side_fits(speed: int, points: Seq<TrackPosition>, dx: int) -> bool {
    forall|i: int| 0 <= i < points.len() ==> ground_vertex_fits(speed, #[trigger] points[i], dx)
}

/// The note at the depth that the runner speed gives it.
pub open spec fn at_runner_speed(speed: int, n: ObjectInstance) -> ObjectInstance {
    ObjectInstance {
        z_position: run_depth(speed, n.z_position as int) as i64,
        x_position: n.x_position,
        base_color: n.base_color,
        apply_runner_transform: n.apply_runner_transform,
    }
}

/// The evade note with both ends at the depth that the runner speed gives
/// them.
pub open spec fn evade_at_runner_speed(speed: int, n: EvadeObjectInstance) -> EvadeObjectInstance {
    EvadeObjectInstance {
        start_position: Point2 {
            x: n.start_position.x,
            y: run_depth(speed, n.start_position.y as int) as i64,
        },
        end_position: Point2 {
            x: n.end_position.x,
            y: run_depth(speed, n.end_position.y as int) as i64,
        },
        base_color: n.base_color,
        trigger_time: n.trigger_time,
        duration: n.duration,
    }
}

/// Both ends of the evade note can be represented at the runner speed.
pub open spec fn evade_fits(speed: int, n: EvadeObjectInstance) -> bool {
    in_range(run_depth(speed, n.start_position.y as int)) && in_range(
        run_depth(speed, n.end_position.y as int),
    )
}

/// Half of `width`, rounded towards negative infinity.
pub open spec fn half(width: int) -> int {
    width / 2
}

/// The two boundaries of the strip of width `width` along `points` can be
/// represented, and are short enough to be triangulated.
pub open spec fn strip_fits(speed: int, points: Seq<TrackPosition>, width: int) -> bool {
    &&& points.len() <= MAX_SIDE_POINTS
    &&& ground_side_fits(speed, points, -half(width))
    &&& ground_side_fits(speed, points, half(width))
}

/// The vertices of the strip of width `width` along `points`.
pub open spec fn strip_mesh_vertices(speed: int, points: Seq<TrackPosition>, width: int) -> Seq<
    Point3,
> {
    strip_vertices(
        ground_side(speed, points, -half(width)),
        ground_side(speed, points, half(width)),
    )
}

/// The hold notes of a track as one group of objects.
pub type HoldNotesDescription = MergedObjects;

/// The lanes of a track as one group of objects.
pub type LanesDescription = MergedObjects;

/// Builds the scene of a chart at a runner speed.
#[derive(Clone, Copy, Debug)]
pub struct TrackDescriptionCreator {
    pub settings: TrackSettings,
}

impl TrackDescriptionCreator {
    pub fn new(settings: TrackSettings) -> (r: Self)
        ensures
            r.settings == settings,
    {
        Self { settings }
    }

    /// The runner speed, in millionths.
    pub open spec fn speed(&self) -> int {
        self.settings.runner_speed as int
    }

    /// Scales the depth of every note by the runner speed.
    pub fn apply_runner_speed(&self, notes: Vec<ObjectInstance>) -> (r: Result<
        Vec<ObjectInstance>,
        ChartMalformed,
    >)
        ensures
            r is Ok <==> forall|i: int|
                0 <= i < notes@.len() ==> in_range(
                    run_depth(self.speed(), (#[trigger] notes@[i]).z_position as int),
                ),
            r matches Ok(v) ==> v@.len() == notes@.len() && forall|i: int|
                0 <= i < v@.len() ==> #[trigger] v@[i] == at_runner_speed(self.speed(), notes@[i]),
            r matches Err(e) ==> e == ChartMalformed::ValueOutOfRange,
    {
        let n = notes.len();
        let mut out: Vec<ObjectInstance> = Vec::new();
        let mut i: usize = 0;
        while i < n
            invariant
                n == notes@.len(),
                i <= n,
                out@.len() == i,
                forall|j: int|
                    0 <= j < i ==> in_range(
                        run_depth(self.speed(), (#[trigger] notes@[j]).z_position as int),
                    ),
                forall|j: int|
                    0 <= j < i ==> #[trigger] out@[j] == at_runner_speed(self.speed(), notes@[j]),
            decreases n - i,
        {
            let note = notes[i];
            match checked_scaled_mul(note.z_position, self.settings.runner_speed) {
                Some(z) => {
                    out.push(
                        ObjectInstance {
                            z_position: z,
                            x_position: note.x_position,
                            base_color: note.base_color,
                            apply_runner_transform: note.apply_runner_transform,
                        },
                    );
                },
                None => {
                    return Err(ChartMalformed::ValueOutOfRange);
                },
            }
            i += 1;
        }
        Ok(out)
    }

    /// Scales the depth of both ends of every evade note by the runner speed.
    pub fn apply_runner_speed_on_evade_notes(&self, notes: Vec<EvadeObjectInstance>) -> (r: Result<
        Vec<EvadeObjectInstance>,
        ChartMalformed,
    >)
        ensures
            r is Ok <==> forall|i: int|
                0 <= i < notes@.len() ==> evade_fits(self.speed(), #[trigger] notes@[i]),
            r matches Ok(v) ==> v@.len() == notes@.len() && forall|i: int|
                0 <= i < v@.len() ==> #[trigger] v@[i] == evade_at_runner_speed(
                    self.speed(),
                    notes@[i],
                ),
            r matches Err(e) ==> e == ChartMalformed::ValueOutOfRange,
    {
        let n = notes.len();
        let mut out: Vec<EvadeObjectInstance> = Vec::new();
        let mut i: usize = 0;
        while i < n
            invariant
                n == notes@.len(),
                i <= n,
                out@.len() == i,
                forall|j: int| 0 <= j < i ==> evade_fits(self.speed(), #[trigger] notes@[j]),
                forall|j: int|
                    0 <= j < i ==> #[trigger] out@[j] == evade_at_runner_speed(
                        self.speed(),
                        notes@[j],
                    ),
            decreases n - i,
        {
            let note = notes[i];
            // The depth of a point of the track plane is its second coordinate.
            match (
                checked_scaled_mul(note.start_position.y, self.settings.runner_speed),
                checked_scaled_mul(note.end_position.y, self.settings.runner_speed),
            ) {
                (Some(start_z), Some(end_z)) => {
                    out.push(
                        EvadeObjectInstance {
                            start_position: Point2 { x: note.start_position.x, y: start_z },
                            end_position: Point2 { x: note.end_position.x, y: end_z },
                            base_color: note.base_color,
                            trigger_time: note.trigger_time,
                            duration: note.duration,
                        },
                    );
                },
                _ => {
                    return Err(ChartMalformed::ValueOutOfRange);
                },
            }
            i += 1;
        }
        Ok(out)
    }

    /// Lays the points of a boundary on the ground plane, each moved
    /// sideways by `dx`.
    pub fn ground_vertices(&self, track_positions: &[TrackPosition], dx: i64) -> (r: Result<
        Vec<Point3>,
        ChartMalformed,
    >)
        ensures
            r is Ok <==> ground_side_fits(self.speed(), track_positions@, dx as int),
            r matches Ok(v) ==> v@ == ground_side(self.speed(), track_positions@, dx as int),
            r matches Err(e) ==> e == ChartMalformed::ValueOutOfRange,
    {
        let n = track_positions.len();
        let mut out: Vec<Point3> = Vec::new();
        let mut i: usize = 0;
        while i < n
            invariant
                n == track_positions@.len(),
                i <= n,
                out@.len() == i,
                forall|j: int|
                    0 <= j < i ==> ground_vertex_fits(
                        self.speed(),
                        #[trigger] track_positions@[j],
                        dx as int,
                    ),
                forall|j: int|
                    0 <= j < i ==> #[trigger] out@[j] == ground_vertex(
                        self.speed(),
                        track_positions@[j],
                        dx as int,
                    ),
            decreases n - i,
        {
            let p = track_positions[i];
            match (p.x.checked_add(dx), checked_scaled_mul(p.z, self.settings.runner_speed)) {
                (Some(x), Some(z)) => {
                    out.push(Point3 { x, y: 0, z });
                },
                _ => {
                    return Err(ChartMalformed::ValueOutOfRange);
                },
            }
            i += 1;
        }
        Ok(out)
    }

    /// Lays the points of a boundary on the ground plane.
    pub fn track_position_to_xz_vertices(&self, track_positions: &[TrackPosition]) -> (r: Result<
        Vec<Point3>,
        ChartMalformed,
    >)
        ensures
            r is Ok <==> ground_side_fits(self.speed(), track_positions@, 0),
            r matches Ok(v) ==> v@ == ground_side(self.speed(), track_positions@, 0),
            r matches Err(e) ==> e == ChartMalformed::ValueOutOfRange,
    {
        self.ground_vertices(track_positions, 0)
    }

    /// The mesh of a platform: the strip between its two boundaries.
    pub fn create_platform_mesh(&self, platform: &Platform) -> (r: Result<Mesh, ChartMalformed>)
        ensures
            platform.points_left@.len() < 2 || platform.points_right@.len() < 2 ==> r == Err::<
                Mesh,
                ChartMalformed,
            >(ChartMalformed::DegenerateStrip),
            platform.points_left@.len() >= 2 && platform.points_right@.len() >= 2 && !(
            platform.points_left@.len() <= MAX_SIDE_POINTS && platform.points_right@.len()
                <= MAX_SIDE_POINTS && ground_side_fits(self.speed(), platform.points_left@, 0)
                && ground_side_fits(self.speed(), platform.points_right@, 0)) ==> r == Err::<
                Mesh,
                ChartMalformed,
            >(ChartMalformed::ValueOutOfRange),
            2 <= platform.points_left@.len() <= MAX_SIDE_POINTS && 2 <= platform.points_right@.len()
                <= MAX_SIDE_POINTS && ground_side_fits(self.speed(), platform.points_left@, 0)
                && ground_side_fits(self.speed(), platform.points_right@, 0) ==> r is Ok,
            r matches Ok(m) ==> {
                &&& m.wf()
                &&& m.vertices@ == strip_vertices(
                    ground_side(self.speed(), platform.points_left@, 0),
                    ground_side(self.speed(), platform.points_right@, 0),
                )
                &&& m.indices@ == strip_indices(
                    strip_pairs(
                        platform.points_left@.len() as int,
                        platform.points_right@.len() as int,
                    ),
                )
            },
    {
        if platform.points_left.len() < 2 || platform.points_right.len() < 2 {
            return Err(ChartMalformed::DegenerateStrip);
        }
        if platform.points_left.len() > MAX_SIDE_POINTS || platform.points_right.len()
            > MAX_SIDE_POINTS {
            return Err(ChartMalformed::ValueOutOfRange);
        }
        let walls_left_vertices = match self.track_position_to_xz_vertices(
            platform.points_left.as_slice(),
        ) {
            Ok(v) => v,
            Err(e) => {
                return Err(e);
            },
        };
        let walls_right_vertices = match self.track_position_to_xz_vertices(
            platform.points_right.as_slice(),
        ) {
            Ok(v) => v,
            Err(e) => {
                return Err(e);
            },
        };
        proof {
            lemma_strip_counts(walls_left_vertices@, walls_right_vertices@);
        }
        Ok(Plane::triangulate_from_two_sides(walls_left_vertices, walls_right_vertices).to_mesh())
    }

    /// The mesh of the strip of width `width` along `points`.
    pub fn create_plane_mesh_from_points(&self, points: &[TrackPosition], width: i64) -> (r: Result<
        Mesh,
        ChartMalformed,
    >)
        ensures
            points@.len() < 2 ==> r == Err::<Mesh, ChartMalformed>(ChartMalformed::DegenerateStrip),
            points@.len() >= 2 && !strip_fits(self.speed(), points@, width as int) ==> r == Err::<
                Mesh,
                ChartMalformed,
            >(ChartMalformed::ValueOutOfRange),
            points@.len() >= 2 && strip_fits(self.speed(), points@, width as int) ==> r is Ok,
            r matches Ok(m) ==> {
                &&& m.wf()
                &&& m.vertices@ == strip_mesh_vertices(self.speed(), points@, width as int)
                &&& m.vertices@.len() == 2 * points@.len()
                &&& m.indices@ == strip_indices(points@.len() as int)
            },
    {
        if points.len() < 2 {
            return Err(ChartMalformed::DegenerateStrip);
        }
        if points.len() > MAX_SIDE_POINTS {
            return Err(ChartMalformed::ValueOutOfRange);
        }
        let reach: i64 = halved(width);
        let left_points = match self.ground_vertices(points, -reach) {
            Ok(v) => v,
            Err(e) => {
                return Err(e);
            },
        };
        let right_points = match self.ground_vertices(points, reach) {
            Ok(v) => v,
            Err(e) => {
                return Err(e);
            },
        };
        proof {
            lemma_strip_counts(left_points@, right_points@);
        }
        Ok(Plane::triangulate_from_two_sides(left_points, right_points).to_mesh())
    }
}

/// A strip that is merged into a group of objects: the points that it runs
/// along, and the object that it is drawn as.
pub struct Strip {
    pub points: Seq<TrackPosition>,
    pub object: ObjectInstance,
}

/// The vertices of each strip's mesh.
pub open spec fn strip_vertex_parts(speed: int, strips: Seq<Strip>, width: int) -> Seq<
    Seq<Point3>,
> {
    Seq::new(strips.len(), |i: int| strip_mesh_vertices(speed, strips[i].points, width))
}

/// The indices of each strip's mesh.
pub open spec fn strip_index_parts(strips: Seq<Strip>) -> Seq<Seq<u16>> {
    Seq::new(strips.len(), |i: int| strip_indices(strips[i].points.len() as int))
}

/// The object of each strip.
pub open spec fn strip_objects(strips: Seq<Strip>) -> Seq<ObjectInstance> {
    Seq::new(strips.len(), |i: int| strips[i].object)
}

/// Every strip runs along two points or more.
pub open spec fn strips_valid(strips: Seq<Strip>) -> bool {
    forall|i: int| 0 <= i < strips.len() ==> (#[trigger] strips[i]).points.len() >= 2
}

/// Every strip can be represented, and their vertices together are no more
/// than `MAX_VERTICES`.
pub open spec fn strips_fit(speed: int, strips: Seq<Strip>, width: int) -> bool {
    &&& forall|i: int|
        0 <= i < strips.len() ==> strip_fits(speed, (#[trigger] strips[i]).points, width)
    &&& merged_vertices(strip_vertex_parts(speed, strips, width)).len() <= MAX_VERTICES
}

/// The offset by which hold notes and lanes are lowered.
pub open spec fn ground_offset() -> Point3 {
    Point3 { x: 0, y: GROUND_OFFSET, z: 0 }
}

/// The group holds the strips' objects and their meshes, merged in the
/// order of the strips and lowered by `GROUND_OFFSET`.
pub open spec fn describes(d: MergedObjects, speed: int, strips: Seq<Strip>, width: int) -> bool {
    &&& d.objects@ == strip_objects(strips)
    &&& d.mesh.vertices@ == translated_all(
        merged_vertices(strip_vertex_parts(speed, strips, width)),
        ground_offset(),
    )
    &&& d.mesh.indices@ == merged_indices(
        strip_vertex_parts(speed, strips, width),
        strip_index_parts(strips),
    )
    &&& d.objects_indices@ == merged_object_indices(strip_vertex_parts(speed, strips, width))
}

/// The object that a strip is drawn as.
pub open spec fn strip_object(base_color: Color) -> ObjectInstance {
    ObjectInstance { z_position: 0, x_position: 0, base_color, apply_runner_transform: true }
}

/// One strip for each hold note, in the colour of its kind.
pub open spec fn hold_strips(hold_notes: Seq<HoldNote>) -> Seq<Strip> {
    Seq::new(
        hold_notes.len(),
        |i: int|
            Strip {
                points: hold_notes[i].points@,
                object: strip_object(base_color_hit(hold_notes[i].ty)),
            },
    )
}

/// One strip for each lane of the group, in the colour of the group's kind;
/// none for the lanes of the enemy.
pub open spec fn group_strips(group: LaneGroup) -> Seq<Strip> {
    if group.ty.0 == ENEMY_LANE {
        Seq::empty()
    } else {
        Seq::new(
            group.lanes@.len(),
            |j: int|
                Strip {
                    points: group.lanes@[j].points@,
                    object: strip_object(base_color_lane(group.ty)),
                },
        )
    }
}

/// The strips of all groups, in the order of the groups.
pub open spec fn lane_strips(groups: Seq<LaneGroup>) -> Seq<Strip>
    decreases groups.len(),
{
    if groups.len() == 0 {
        Seq::empty()
    } else {
        lane_strips(groups.drop_last()) + group_strips(groups.last())
    }
}

/// Where the strips of group `i` stand among the strips of all groups.
pub proof fn lemma_lane_strips_at(groups: Seq<LaneGroup>, i: int)
    requires
        0 <= i < groups.len(),
    ensures
        lane_strips(groups.take(i + 1)) == lane_strips(groups.take(i)) + group_strips(groups[i]),
        lane_strips(groups.take(i + 1)).len() <= lane_strips(groups).len(),
        forall|j: int|
            0 <= j < group_strips(groups[i]).len() ==> lane_strips(groups)[lane_strips(
                groups.take(i),
            ).len() + j] == #[trigger] group_strips(groups[i])[j],
    decreases groups.len(),
{
    if i == groups.len() - 1 {
        assert(groups.take(i + 1) =~= groups);
    } else {
        lemma_lane_strips_at(groups.drop_last(), i);
        assert(groups.drop_last().take(i) =~= groups.take(i));
        assert(groups.drop_last().take(i + 1) =~= groups.take(i + 1));
    }
}

/// Every vertex of a strip's mesh lies on the ground plane.
pub proof fn lemma_strip_on_ground(speed: int, points: Seq<TrackPosition>, width: int)
    requires
        points.len() >= 1,
    ensures
        forall|k: int|
            0 <= k < strip_mesh_vertices(speed, points, width).len() ==> (
            #[trigger] strip_mesh_vertices(speed, points, width)[k]).y == 0,
{
    let a = ground_side(speed, points, -half(width));
    let b = ground_side(speed, points, half(width));
    assert forall|k: int| 0 <= k < strip_vertices(a, b).len() implies (#[trigger] strip_vertices(
        a,
        b,
    )[k]).y == 0 by {
    }
}

impl TrackDescriptionCreator {
    /// Merges the strip at position `at` of `strips` into the group that
    /// holds the strips before it.
    fn add_strip(
        &self,
        merged: &mut MergedObjects,
        points: &[TrackPosition],
        width: i64,
        object: ObjectInstance,
        Ghost(strips): Ghost<Seq<Strip>>,
        Ghost(at): Ghost<int>,
    ) -> (r: Result<(), ChartMalformed>)
        requires
            0 <= at < strips.len(),
            strips[at] == (Strip { points: points@, object }),
            points@.len() >= 2,
            old(merged).wf(),
            old(merged).holds(
                strip_vertex_parts(self.speed(), strips, width as int).take(at),
                strip_index_parts(strips).take(at),
                strip_objects(strips).take(at),
            ),
            forall|k: int| 0 <= k < old(merged).mesh.vertices@.len() ==> (
            #[trigger] old(merged).mesh.vertices@[k]).y == 0,
        ensures
            r is Ok ==> {
                &&& final(merged).wf()
                &&& final(merged).holds(
                    strip_vertex_parts(self.speed(), strips, width as int).take(at + 1),
                    strip_index_parts(strips).take(at + 1),
                    strip_objects(strips).take(at + 1),
                )
                &&& strip_fits(self.speed(), strips[at].points, width as int)
                &&& forall|k: int| 0 <= k < final(merged).mesh.vertices@.len() ==> (
                #[trigger] final(merged).mesh.vertices@[k]).y == 0
            },
            r is Err ==> r == Err::<(), ChartMalformed>(ChartMalformed::ValueOutOfRange)
                && !strips_fit(self.speed(), strips, width as int),
    {
        let ghost vparts = strip_vertex_parts(self.speed(), strips, width as int);
        let ghost iparts = strip_index_parts(strips);
        let ghost objects = strip_objects(strips);
        let ghost before = *merged;
        let mesh = match self.create_plane_mesh_from_points(points, width) {
            Ok(mesh) => mesh,
            Err(e) => {
                return Err(e);
            },
        };
        proof {
            lemma_strip_on_ground(self.speed(), points@, width as int);
        }
        match merged.add_object(mesh, object) {
            Ok(()) => {
                proof {
                    lemma_holds_after_add(
                        before,
                        *merged,
                        vparts.take(at),
                        iparts.take(at),
                        objects.take(at),
                        mesh.vertices@,
                        mesh.indices@,
                        object,
                    );
                    assert(vparts.take(at + 1) =~= vparts.take(at).push(vparts[at]));
                    assert(iparts.take(at + 1) =~= iparts.take(at).push(iparts[at]));
                    assert(objects.take(at + 1) =~= objects.take(at).push(objects[at]));
                }
                Ok(())
            },
            Err(e) => {
                proof {
                    lemma_merged_prefix_len(vparts, at + 1);
                    assert(vparts.take(at + 1).drop_last() =~= vparts.take(at));
                }
                Err(e)
            },
        }
    }

    /// The mesh of a hold note: a strip as wide as a hit note.
    pub fn create_hold_note_mesh(&self, hold_note: &HoldNote) -> (r: Result<Mesh, ChartMalformed>)
        ensures
            hold_note.points@.len() < 2 ==> r == Err::<Mesh, ChartMalformed>(
                ChartMalformed::DegenerateStrip,
            ),
            hold_note.points@.len() >= 2 && !strip_fits(
                self.speed(),
                hold_note.points@,
                HIT_X_LENGTH as int,
            ) ==> r == Err::<Mesh, ChartMalformed>(ChartMalformed::ValueOutOfRange),
            hold_note.points@.len() >= 2 && strip_fits(
                self.speed(),
                hold_note.points@,
                HIT_X_LENGTH as int,
            ) ==> r is Ok,
            r matches Ok(m) ==> {
                &&& m.wf()
                &&& m.vertices@ == strip_mesh_vertices(
                    self.speed(),
                    hold_note.points@,
                    HIT_X_LENGTH as int,
                )
                &&& m.indices@ == strip_indices(hold_note.points@.len() as int)
            },
    {
        self.create_plane_mesh_from_points(hold_note.points.as_slice(), HIT_X_LENGTH)
    }

    /// Merges the strips of all hold notes into one group of objects, one
    /// object for each note in the colour of its kind.
    pub fn create_hold_notes(&self, hold_notes: &[HoldNote]) -> (r: Result<
        HoldNotesDescription,
        ChartMalformed,
    >)
        ensures
            !strips_valid(hold_strips(hold_notes@)) ==> r == Err::<
                HoldNotesDescription,
                ChartMalformed,
            >(ChartMalformed::DegenerateStrip),
            strips_valid(hold_strips(hold_notes@)) && !strips_fit(
                self.speed(),
                hold_strips(hold_notes@),
                HIT_X_LENGTH as int,
            ) ==> r == Err::<HoldNotesDescription, ChartMalformed>(ChartMalformed::ValueOutOfRange),
            strips_valid(hold_strips(hold_notes@)) && strips_fit(
                self.speed(),
                hold_strips(hold_notes@),
                HIT_X_LENGTH as int,
            ) ==> r is Ok,
            r matches Ok(d) ==> d.wf() && describes(
                d,
                self.speed(),
                hold_strips(hold_notes@),
                HIT_X_LENGTH as int,
            ),
    {
        if !Self::hold_notes_valid(hold_notes) {
            return Err(ChartMalformed::DegenerateStrip);
        }
        let n = hold_notes.len();
        let ghost strips = hold_strips(hold_notes@);
        let ghost vparts = strip_vertex_parts(self.speed(), strips, HIT_X_LENGTH as int);
        let ghost iparts = strip_index_parts(strips);
        let ghost objects = strip_objects(strips);
        let mut merged = MergedObjects::new();
        assert(objects.take(0) =~= Seq::empty());
        let mut i: usize = 0;
        while i < n
            invariant
                n == hold_notes@.len(),
                i <= n,
                strips == hold_strips(hold_notes@),
                strips_valid(strips),
                vparts == strip_vertex_parts(self.speed(), strips, HIT_X_LENGTH as int),
                iparts == strip_index_parts(strips),
                objects == strip_objects(strips),
                merged.wf(),
                merged.holds(vparts.take(i as int), iparts.take(i as int), objects.take(i as int)),
                forall|k: int|
                    0 <= k < i ==> strip_fits(
                        self.speed(),
                        (#[trigger] strips[k]).points,
                        HIT_X_LENGTH as int,
                    ),
                forall|k: int| 0 <= k < merged.mesh.vertices@.len() ==> (
                #[trigger] merged.mesh.vertices@[k]).y == 0,
            decreases n - i,
        {
            let note = &hold_notes[i];
            assert(strips[i as int].points.len() >= 2);
            let object = ObjectInstance::at_origin(get_base_color_hit(note.ty));
            match self.add_strip(
                &mut merged,
                note.points.as_slice(),
                HIT_X_LENGTH,
                object,
                Ghost(strips),
                Ghost(i as int),
            ) {
                Ok(()) => {},
                Err(e) => {
                    return Err(e);
                },
            }
            i += 1;
        }
        assert(vparts.take(n as int) =~= vparts);
        assert(iparts.take(n as int) =~= iparts);
        assert(objects.take(n as int) =~= objects);
        match merged.transform(&Point3 { x: 0, y: GROUND_OFFSET, z: 0 }) {
            Some(d) => Ok(d),
            None => Err(ChartMalformed::ValueOutOfRange),
        }
    }

    /// Merges the strips of all lanes but the enemy's into one group of
    /// objects, one object for each lane in the colour of its kind; the
    /// groups are taken in their order, and the lanes of a group in theirs.
    pub fn create_lanes(&self, lanes: &[LaneGroup]) -> (r: Result<
        LanesDescription,
        ChartMalformed,
    >)
        ensures
            !strips_valid(lane_strips(lanes@)) ==> r == Err::<LanesDescription, ChartMalformed>(
                ChartMalformed::DegenerateStrip,
            ),
            strips_valid(lane_strips(lanes@)) && !strips_fit(
                self.speed(),
                lane_strips(lanes@),
                LANE_WIDTH as int,
            ) ==> r == Err::<LanesDescription, ChartMalformed>(ChartMalformed::ValueOutOfRange),
            strips_valid(lane_strips(lanes@)) && strips_fit(
                self.speed(),
                lane_strips(lanes@),
                LANE_WIDTH as int,
            ) ==> r is Ok,
            r matches Ok(d) ==> d.wf() && describes(
                d,
                self.speed(),
                lane_strips(lanes@),
                LANE_WIDTH as int,
            ),
    {
        if !Self::lanes_valid(lanes) {
            return Err(ChartMalformed::DegenerateStrip);
        }
        let n = lanes.len();
        let ghost strips = lane_strips(lanes@);
        let ghost vparts = strip_vertex_parts(self.speed(), strips, LANE_WIDTH as int);
        let ghost iparts = strip_index_parts(strips);
        let ghost objects = strip_objects(strips);
        let mut merged = MergedObjects::new();
        assert(objects.take(0) =~= Seq::empty());
        let ghost mut at: int = 0;
        let mut i: usize = 0;
        while i < n
            invariant
                n == lanes@.len(),
                i <= n,
                strips == lane_strips(lanes@),
                strips_valid(strips),
                vparts == strip_vertex_parts(self.speed(), strips, LANE_WIDTH as int),
                iparts == strip_index_parts(strips),
                objects == strip_objects(strips),
                at == lane_strips(lanes@.take(i as int)).len(),
                at <= strips.len(),
                merged.wf(),
                merged.holds(vparts.take(at), iparts.take(at), objects.take(at)),
                forall|k: int|
                    0 <= k < at ==> strip_fits(
                        self.speed(),
                        (#[trigger] strips[k]).points,
                        LANE_WIDTH as int,
                    ),
                forall|k: int| 0 <= k < merged.mesh.vertices@.len() ==> (
                #[trigger] merged.mesh.vertices@[k]).y == 0,
            decreases n - i,
        {
            let group = &lanes[i];
            proof {
                lemma_lane_strips_at(lanes@, i as int);
            }
            let ghost base = at;
            if group.ty.0 != ENEMY_LANE {
                let object = ObjectInstance::at_origin(get_base_color_lane(group.ty));
                let m = group.lanes.len();
                let mut l: usize = 0;
                while l < m
                    invariant
                        m == group.lanes@.len(),
                        l <= m,
                        group.ty.0 != ENEMY_LANE,
                        object == strip_object(base_color_lane(group.ty)),
                        strips_valid(strips),
                        vparts == strip_vertex_parts(self.speed(), strips, LANE_WIDTH as int),
                        iparts == strip_index_parts(strips),
                        objects == strip_objects(strips),
                        strips == lane_strips(lanes@),
                        0 <= base,
                        base + m <= strips.len(),
                        at == base + l,
                        forall|j: int|
                            0 <= j < m ==> strips[base + j] == #[trigger] group_strips(*group)[j],
                        merged.wf(),
                        merged.holds(vparts.take(at), iparts.take(at), objects.take(at)),
                        forall|k: int|
                            0 <= k < at ==> strip_fits(
                                self.speed(),
                                (#[trigger] strips[k]).points,
                                LANE_WIDTH as int,
                            ),
                        forall|k: int| 0 <= k < merged.mesh.vertices@.len() ==> (
                        #[trigger] merged.mesh.vertices@[k]).y == 0,
                    decreases m - l,
                {
                    let lane = &group.lanes[l];
                    assert(strips[base + l] == group_strips(*group)[l as int]);
                    match self.add_strip(
                        &mut merged,
                        lane.points.as_slice(),
                        LANE_WIDTH,
                        object,
                        Ghost(strips),
                        Ghost(at),
                    ) {
                        Ok(()) => {},
                        Err(e) => {
                            return Err(e);
                        },
                    }
                    l += 1;
                    proof {
                        at = at + 1;
                    }
                }
            }
            i += 1;
        }
        assert(lanes@.take(n as int) =~= lanes@);
        assert(vparts.take(at) =~= vparts);
        assert(iparts.take(at) =~= iparts);
        assert(objects.take(at) =~= objects);
        match merged.transform(&Point3 { x: 0, y: GROUND_OFFSET, z: 0 }) {
            Some(d) => Ok(d),
            None => Err(ChartMalformed::ValueOutOfRange),
        }
    }
}

/// The object that a hit note is drawn as, before the runner speed.
pub open spec fn hit_object(note: HitNote) -> ObjectInstance {
    ObjectInstance {
        z_position: note.position.z,
        x_position: note.position.x,
        base_color: base_color_hit(note.ty),
        apply_runner_transform: true,
    }
}

/// The object that a contact note is drawn as, before the runner speed.
pub open spec fn contact_object(note: ContactNote) -> ObjectInstance {
    ObjectInstance {
        z_position: note.position.z,
        x_position: note.position.x,
        base_color: contact_color(),
        apply_runner_transform: true,
    }
}

/// The object that a flick note is drawn as, before the runner speed.
pub open spec fn flick_object(note: FlickNote) -> ObjectInstance {
    ObjectInstance {
        z_position: note.position.z,
        x_position: note.position.x,
        base_color: flick_color(),
        apply_runner_transform: true,
    }
}

/// The object that an evade note is drawn as, before the runner speed.
pub open spec fn evade_object(note: EvadeNote) -> EvadeObjectInstance {
    EvadeObjectInstance {
        start_position: Point2 { x: note.movement.start.x, y: note.movement.start.z },
        end_position: Point2 { x: note.movement.end.x, y: note.movement.end.z },
        base_color: evade_color(),
        trigger_time: note.movement.trigger_time.0,
        duration: note.movement.duration,
    }
}

/// The one object that the platform is drawn as: black, at the origin.
pub open spec fn platform_object() -> ObjectInstance {
    strip_object(Color { r: 0, g: 0, b: 0, a: 1_000_000 })
}

/// The scene of a track, at the depths that the runner speed gives.
#[derive(Clone, Debug)]
pub struct TrackDescription {
    pub notes_hit: Vec<ObjectInstance>,
    pub notes_contact: Vec<ObjectInstance>,
    pub notes_flick: Vec<ObjectInstance>,
    pub notes_evade: Vec<EvadeObjectInstance>,
    pub settings: TrackSettings,
    pub platform_instances: Vec<ObjectInstance>,
    pub platform_mesh: Mesh,
    pub hold_notes: HoldNotesDescription,
    pub lanes: LanesDescription,
}

/// Both boundaries of the first platform, every hold note and every lane
/// that is drawn have two points or more.
pub open spec fn scene_valid(chart: ChartData) -> bool {
    &&& chart.track.platforms@[0].points_left@.len() >= 2
    &&& chart.track.platforms@[0].points_right@.len() >= 2
    &&& strips_valid(hold_strips(chart.notes.holds@))
    &&& strips_valid(lane_strips(chart.track.lanes@))
}

/// Every depth of the scene can be represented at the runner speed, and
/// every mesh is small enough for 16-bit indices.
pub open spec fn scene_fits(speed: int, chart: ChartData) -> bool {
    &&& forall|i: int|
        0 <= i < chart.notes.hits@.len() ==> in_range(
            run_depth(speed, (#[trigger] chart.notes.hits@[i]).position.z as int),
        )
    &&& forall|i: int|
        0 <= i < chart.notes.contacts@.len() ==> in_range(
            run_depth(speed, (#[trigger] chart.notes.contacts@[i]).position.z as int),
        )
    &&& forall|i: int|
        0 <= i < chart.notes.flicks@.len() ==> in_range(
            run_depth(speed, (#[trigger] chart.notes.flicks@[i]).position.z as int),
        )
    &&& forall|i: int|
        0 <= i < chart.notes.evades@.len() ==> evade_fits(
            speed,
            evade_object(#[trigger] chart.notes.evades@[i]),
        )
    &&& chart.track.platforms@[0].points_left@.len() <= MAX_SIDE_POINTS
    &&& chart.track.platforms@[0].points_right@.len() <= MAX_SIDE_POINTS
    &&& ground_side_fits(speed, chart.track.platforms@[0].points_left@, 0)
    &&& ground_side_fits(speed, chart.track.platforms@[0].points_right@, 0)
    &&& strips_fit(speed, hold_strips(chart.notes.holds@), HIT_X_LENGTH as int)
    &&& strips_fit(speed, lane_strips(chart.track.lanes@), LANE_WIDTH as int)
}

impl TrackDescription {
    /// Every index of the platform's mesh names a vertex, and both groups of
    /// merged objects are well-formed.
    pub open spec fn wf(&self) -> bool {
        &&& self.platform_mesh.wf()
        &&& self.platform_mesh.vertices@.len() <= MAX_VERTICES
        &&& self.hold_notes.wf()
        &&& self.lanes.wf()
    }

    /// The scene is that of `chart` at the runner speed of `settings`.
    pub open spec fn describes(&self, chart: ChartData, settings: TrackSettings) -> bool {
        let speed = settings.runner_speed as int;
        &&& self.settings == settings
        &&& self.notes_hit@.len() == chart.notes.hits@.len()
        &&& forall|i: int|
            0 <= i < self.notes_hit@.len() ==> #[trigger] self.notes_hit@[i] == at_runner_speed(
                speed,
                hit_object(chart.notes.hits@[i]),
            )
        &&& self.notes_contact@.len() == chart.notes.contacts@.len()
        &&& forall|i: int|
            0 <= i < self.notes_contact@.len() ==> #[trigger] self.notes_contact@[i]
                == at_runner_speed(speed, contact_object(chart.notes.contacts@[i]))
        &&& self.notes_flick@.len() == chart.notes.flicks@.len()
        &&& forall|i: int|
            0 <= i < self.notes_flick@.len() ==> #[trigger] self.notes_flick@[i] == at_runner_speed(
                speed,
                flick_object(chart.notes.flicks@[i]),
            )
        &&& self.notes_evade@.len() == chart.notes.evades@.len()
        &&& forall|i: int|
            0 <= i < self.notes_evade@.len() ==> #[trigger] self.notes_evade@[i]
                == evade_at_runner_speed(speed, evade_object(chart.notes.evades@[i]))
        &&& self.platform_instances@ == seq![platform_object()]
        &&& self.platform_mesh.vertices@ == strip_vertices(
            ground_side(speed, chart.track.platforms@[0].points_left@, 0),
            ground_side(speed, chart.track.platforms@[0].points_right@, 0),
        )
        &&& self.platform_mesh.indices@ == strip_indices(
            strip_pairs(
                chart.track.platforms@[0].points_left@.len() as int,
                chart.track.platforms@[0].points_right@.len() as int,
            ),
        )
        &&& describes(self.hold_notes, speed, hold_strips(chart.notes.holds@), HIT_X_LENGTH as int)
        &&& describes(self.lanes, speed, lane_strips(chart.track.lanes@), LANE_WIDTH as int)
    }

    /// The scene of a chart.
    pub fn from_chart(chart: &Chart, settings: TrackSettings) -> (r: Result<Self, ChartMalformed>)
        ensures
            chart.data.track.platforms@.len() == 0 ==> r == Err::<Self, ChartMalformed>(
                ChartMalformed::MissingPlatform,
            ),
            chart.data.track.platforms@.len() > 0 && !scene_valid(chart.data) ==> r == Err::<
                Self,
                ChartMalformed,
            >(ChartMalformed::DegenerateStrip),
            chart.data.track.platforms@.len() > 0 && scene_valid(chart.data) && !scene_fits(
                settings.runner_speed as int,
                chart.data,
            ) ==> r == Err::<Self, ChartMalformed>(ChartMalformed::ValueOutOfRange),
            chart.data.track.platforms@.len() > 0 && scene_valid(chart.data) && scene_fits(
                settings.runner_speed as int,
                chart.data,
            ) ==> r is Ok,
            r matches Ok(d) ==> d.wf() && d.describes(chart.data, settings),
    {
        TrackDescriptionCreator::new(settings).create(&chart.data)
    }
}

impl TrackDescriptionCreator {
    /// One object for each hit note.
    fn hit_objects(hits: &[HitNote]) -> (r: Vec<ObjectInstance>)
        ensures
            r@.len() == hits@.len(),
            forall|i: int| 0 <= i < r@.len() ==> #[trigger] r@[i] == hit_object(hits@[i]),
    {
        let mut out: Vec<ObjectInstance> = Vec::new();
        let mut i: usize = 0;
        while i < hits.len()
            invariant
                i <= hits@.len(),
                out@.len() == i,
                forall|j: int| 0 <= j < i ==> #[trigger] out@[j] == hit_object(hits@[j]),
            decreases hits@.len() - i,
        {
            out.push(ObjectInstance::from_chart_hit(&hits[i], true));
            i += 1;
        }
        out
    }

    /// One object for each contact note.
    fn contact_objects(contacts: &[ContactNote]) -> (r: Vec<ObjectInstance>)
        ensures
            r@.len() == contacts@.len(),
            forall|i: int| 0 <= i < r@.len() ==> #[trigger] r@[i] == contact_object(contacts@[i]),
    {
        let mut out: Vec<ObjectInstance> = Vec::new();
        let mut i: usize = 0;
        while i < contacts.len()
            invariant
                i <= contacts@.len(),
                out@.len() == i,
                forall|j: int| 0 <= j < i ==> #[trigger] out@[j] == contact_object(contacts@[j]),
            decreases contacts@.len() - i,
        {
            out.push(ObjectInstance::from_chart_contact(&contacts[i], true));
            i += 1;
        }
        out
    }

    /// One object for each flick note.
    fn flick_objects(flicks: &[FlickNote]) -> (r: Vec<ObjectInstance>)
        ensures
            r@.len() == flicks@.len(),
            forall|i: int| 0 <= i < r@.len() ==> #[trigger] r@[i] == flick_object(flicks@[i]),
    {
        let mut out: Vec<ObjectInstance> = Vec::new();
        let mut i: usize = 0;
        while i < flicks.len()
            invariant
                i <= flicks@.len(),
                out@.len() == i,
                forall|j: int| 0 <= j < i ==> #[trigger] out@[j] == flick_object(flicks@[j]),
            decreases flicks@.len() - i,
        {
            out.push(ObjectInstance::from_chart_flick(&flicks[i], true));
            i += 1;
        }
        out
    }

    /// One object for each evade note.
    fn evade_objects(evades: &[EvadeNote]) -> (r: Vec<EvadeObjectInstance>)
        ensures
            r@.len() == evades@.len(),
            forall|i: int| 0 <= i < r@.len() ==> #[trigger] r@[i] == evade_object(evades@[i]),
    {
        let mut out: Vec<EvadeObjectInstance> = Vec::new();
        let mut i: usize = 0;
        while i < evades.len()
            invariant
                i <= evades@.len(),
                out@.len() == i,
                forall|j: int| 0 <= j < i ==> #[trigger] out@[j] == evade_object(evades@[j]),
            decreases evades@.len() - i,
        {
            out.push(EvadeObjectInstance::from_chart_evade(&evades[i]));
            i += 1;
        }
        out
    }

    /// Whether every hold note runs along two points or more.
    pub fn hold_notes_valid(hold_notes: &[HoldNote]) -> (r: bool)
        ensures
            r == strips_valid(hold_strips(hold_notes@)),
    {
        let ghost strips = hold_strips(hold_notes@);
        let mut i: usize = 0;
        while i < hold_notes.len()
            invariant
                i <= hold_notes@.len(),
                strips == hold_strips(hold_notes@),
                forall|j: int| 0 <= j < i ==> (#[trigger] strips[j]).points.len() >= 2,
            decreases hold_notes@.len() - i,
        {
            if hold_notes[i].points.len() < 2 {
                assert(strips[i as int].points.len() < 2);
                return false;
            }
            i += 1;
        }
        true
    }

    /// Whether every lane that is drawn runs along two points or more.
    pub fn lanes_valid(lanes: &[LaneGroup]) -> (r: bool)
        ensures
            r == strips_valid(lane_strips(lanes@)),
    {
        let n = lanes.len();
        let ghost strips = lane_strips(lanes@);
        let mut g: usize = 0;
        while g < n
            invariant
                n == lanes@.len(),
                g <= n,
                strips == lane_strips(lanes@),
                lane_strips(lanes@.take(g as int)).len() <= strips.len(),
                forall|k: int|
                    0 <= k < lane_strips(lanes@.take(g as int)).len() ==> (
                    #[trigger] strips[k]).points.len() >= 2,
            decreases n - g,
        {
            let group = &lanes[g];
            proof {
                lemma_lane_strips_at(lanes@, g as int);
            }
            let ghost base = lane_strips(lanes@.take(g as int)).len() as int;
            if group.ty.0 != ENEMY_LANE {
                let m = group.lanes.len();
                let mut l: usize = 0;
                while l < m
                    invariant
                        m == group.lanes@.len(),
                        l <= m,
                        group.ty.0 != ENEMY_LANE,
                        strips == lane_strips(lanes@),
                        0 <= base,
                        base + m <= strips.len(),
                        forall|j: int|
                            0 <= j < m ==> strips[base + j] == #[trigger] group_strips(*group)[j],
                        forall|k: int| 0 <= k < base + l ==> (#[trigger] strips[k]).points.len() >= 2,
                    decreases m - l,
                {
                    if group.lanes[l].points.len() < 2 {
                        assert(strips[base + l] == group_strips(*group)[l as int]);
                        return false;
                    }
                    assert(strips[base + l] == group_strips(*group)[l as int]);
                    l += 1;
                }
            }
            g += 1;
        }
        assert(lanes@.take(n as int) =~= lanes@);
        true
    }

    /// The scene of a chart: an object for each note at the depth that the
    /// runner speed gives it, the mesh of the first platform, and the merged
    /// meshes of hold notes and lanes.
    pub fn create(self, chart: &ChartData) -> (r: Result<TrackDescription, ChartMalformed>)
        ensures
            chart.track.platforms@.len() == 0 ==> r == Err::<TrackDescription, ChartMalformed>(
                ChartMalformed::MissingPlatform,
            ),
            chart.track.platforms@.len() > 0 && !scene_valid(*chart) ==> r == Err::<
                TrackDescription,
                ChartMalformed,
            >(ChartMalformed::DegenerateStrip),
            chart.track.platforms@.len() > 0 && scene_valid(*chart) && !scene_fits(
                self.speed(),
                *chart,
            ) ==> r == Err::<TrackDescription, ChartMalformed>(ChartMalformed::ValueOutOfRange),
            chart.track.platforms@.len() > 0 && scene_valid(*chart) && scene_fits(
                self.speed(),
                *chart,
            ) ==> r is Ok,
            r matches Ok(d) ==> d.wf() && d.describes(*chart, self.settings),
    {
        if chart.track.platforms.len() == 0 {
            return Err(ChartMalformed::MissingPlatform);
        }
        let platform = &chart.track.platforms[0];
        if platform.points_left.len() < 2 || platform.points_right.len() < 2
            || !Self::hold_notes_valid(chart.notes.holds.as_slice()) || !Self::lanes_valid(
            chart.track.lanes.as_slice(),
        ) {
            return Err(ChartMalformed::DegenerateStrip);
        }
        let notes_hit = Self::hit_objects(chart.notes.hits.as_slice());
        let notes_contact = Self::contact_objects(chart.notes.contacts.as_slice());
        let notes_flick = Self::flick_objects(chart.notes.flicks.as_slice());
        let notes_evade = Self::evade_objects(chart.notes.evades.as_slice());
        let ghost hit_objects = notes_hit@;
        let ghost contact_objects = notes_contact@;
        let ghost flick_objects = notes_flick@;
        let ghost evade_objects = notes_evade@;

        let notes_hit = match self.apply_runner_speed(notes_hit) {
            Ok(v) => v,
            Err(e) => {
                return Err(e);
            },
        };
        let notes_contact = match self.apply_runner_speed(notes_contact) {
            Ok(v) => v,
            Err(e) => {
                return Err(e);
            },
        };
        let notes_flick = match self.apply_runner_speed(notes_flick) {
            Ok(v) => v,
            Err(e) => {
                return Err(e);
            },
        };
        let notes_evade = match self.apply_runner_speed_on_evade_notes(notes_evade) {
            Ok(v) => v,
            Err(e) => {
                return Err(e);
            },
        };
        let platform_mesh = match self.create_platform_mesh(platform) {
            Ok(m) => m,
            Err(e) => {
                return Err(e);
            },
        };
        let hold_notes = match self.create_hold_notes(chart.notes.holds.as_slice()) {
            Ok(d) => d,
            Err(e) => {
                return Err(e);
            },
        };
        let lanes = match self.create_lanes(chart.track.lanes.as_slice()) {
            Ok(d) => d,
            Err(e) => {
                return Err(e);
            },
        };
        let mut platform_instances: Vec<ObjectInstance> = Vec::new();
        platform_instances.push(
            ObjectInstance::at_origin(Color { r: 0, g: 0, b: 0, a: 1_000_000 }),
        );
        proof {
            assert forall|i: int| 0 <= i < chart.notes.hits@.len() implies in_range(
                run_depth(self.speed(), (#[trigger] chart.notes.hits@[i]).position.z as int),
            ) by {
                assert(hit_objects[i] == hit_object(chart.notes.hits@[i]));
            }
            assert forall|i: int| 0 <= i < chart.notes.contacts@.len() implies in_range(
                run_depth(self.speed(), (#[trigger] chart.notes.contacts@[i]).position.z as int),
            ) by {
                assert(contact_objects[i] == contact_object(chart.notes.contacts@[i]));
            }
            assert forall|i: int| 0 <= i < chart.notes.flicks@.len() implies in_range(
                run_depth(self.speed(), (#[trigger] chart.notes.flicks@[i]).position.z as int),
            ) by {
                assert(flick_objects[i] == flick_object(chart.notes.flicks@[i]));
            }
            assert forall|i: int| 0 <= i < chart.notes.evades@.len() implies evade_fits(
                self.speed(),
                evade_object(#[trigger] chart.notes.evades@[i]),
            ) by {
                assert(evade_objects[i] == evade_object(chart.notes.evades@[i]));
            }
            lemma_strip_counts(
                ground_side(self.speed(), platform.points_left@, 0),
                ground_side(self.speed(), platform.points_right@, 0),
            );
        }
        Ok(
            TrackDescription {
                notes_hit,
                notes_contact,
                notes_flick,
                notes_evade,
                settings: self.settings,
                platform_instances,
                platform_mesh,
                hold_notes,
                lanes,
            },
        )
    }
}

} // verus!
