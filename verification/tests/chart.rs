use eclale::chart::{
    BpmChange, ContactNoteType, EvadeNoteType, FlickDirection, HitNoteType, LaneType, Soflan, Time,
    TimeSignature, TimeSignatureChange, TrackPosition,
};
use eclale::error::ChartMalformed;
use eclale::fixed::UNIT;
use eclale::ogkr::{OgkrChartCreator, OGKR_X_POSITION_MULTIPLIER};
use eclale::raw::{
    BulletShooter, BulletTarget, MeterChange, RawBell, RawBpmChange, RawBullet, RawChart,
    RawComposition, RawFlick, RawFlickDirection, RawHeader, RawHold, RawLane, RawLaneType,
    RawMeterChange, RawSoflan, RawTap, RawTrackPosition, TimingPoint, XPosition,
};
use eclale::timeline::ZPosition;
use eclale::track_description::{TrackDescription, TrackSettings};
use eclale::track_renderer::{RenderDescriptionCreator, RenderMeshes};
use eclale::geometry::{Mesh, Point3};

fn header() -> RawHeader {
    RawHeader {
        meter_definition: Some(MeterChange { num_beats: 4, note_value: 4 }),
        bpm_definition: Some(120 * UNIT),
        tick_resolution: Some(4),
        x_resolution: Some(24 * UNIT),
        num_measures: Some(4),
    }
}

fn tick(measure: u32, tick: i64) -> TimingPoint {
    TimingPoint { measure, beat_offset: tick * UNIT }
}

fn point(measure: u32, beat: i64, lane: i64) -> RawTrackPosition {
    RawTrackPosition { time: tick(measure, beat), x: XPosition { position: lane * UNIT, offset: 12 * UNIT } }
}

fn resolved(seconds: i64, lane: i64) -> TrackPosition {
    // Half a lane unit to the right of the lane, at a twenty-fifth of a lane unit.
    TrackPosition { time: Time(seconds), z: seconds, x: (2 * lane + 1) * 20_000 }
}

fn raw_chart() -> RawChart {
    let mut chart = RawChart::default();
    chart.header = header();
    chart.track.walls_left = vec![
        RawLane { points: vec![point(0, 1, -5), point(1, 1, -5)] },
        RawLane { points: vec![point(2, 1, -6)] },
    ];
    chart.track.walls_right = vec![RawLane { points: vec![point(0, 1, 5), point(3, 1, 5)] }];
    chart.track.lanes_left = vec![RawLane { points: vec![point(0, 1, -2), point(1, 1, -2)] }];
    chart.track.lanes_center = vec![
        RawLane { points: vec![point(0, 1, 0), point(1, 1, 0)] },
        RawLane { points: vec![point(2, 1, 0), point(3, 1, 0), point(3, 3, 0)] },
    ];
    chart.track.enemy_lanes = vec![RawLane { points: vec![point(0, 1, 7)] }];
    chart.notes.taps = vec![
        RawTap { lane_type: RawLaneType::Left, is_critical: false, position: point(0, 3, -2) },
        RawTap { lane_type: RawLaneType::WallRight, is_critical: true, position: point(1, 2, 4) },
    ];
    chart.notes.bells = vec![RawBell { position: point(2, 1, 1) }];
    chart.notes.flicks = vec![RawFlick { direction: RawFlickDirection::Right, position: point(2, 2, 2) }];
    chart.notes.holds = vec![RawHold {
        lane_type: RawLaneType::Center,
        is_critical: false,
        points: vec![point(1, 1, 0), point(1, 3, 0), point(2, 1, 1)],
    }];
    chart.bullets = vec![
        RawBullet { shooter: BulletShooter::Enemy, target: BulletTarget::FixedField, speed: UNIT, position: point(99, 1, 0) },
        RawBullet { shooter: BulletShooter::EndPosition, target: BulletTarget::FixedField, speed: 2 * UNIT, position: point(3, 1, 3) },
        RawBullet { shooter: BulletShooter::Center, target: BulletTarget::Player, speed: -UNIT, position: point(3, 1, 3) },
        RawBullet { shooter: BulletShooter::Center, target: BulletTarget::FixedField, speed: 1, position: point(2, 1, -3) },
    ];
    chart.composition = RawComposition {
        bpm_changes: vec![RawBpmChange { at: tick(2, 1), bpm: 60 * UNIT }],
        meter_changes: vec![RawMeterChange { at: tick(3, 1), meter: MeterChange { num_beats: 3, note_value: 4 } }],
        soflans: vec![RawSoflan { at: tick(1, 3), speed_multiplier: 2 * UNIT }],
    };
    chart
}

#[test]
fn a_header_that_lacks_a_field_is_refused() {
    let refused = |h: RawHeader| {
        let mut chart = raw_chart();
        chart.header = h;
        OgkrChartCreator::new(chart).err()
    };
    assert_eq!(refused(RawHeader { meter_definition: None, bpm_definition: None, ..header() }), Some(ChartMalformed::MissingStartingTimeSignature));
    assert_eq!(refused(RawHeader { bpm_definition: None, tick_resolution: None, ..header() }), Some(ChartMalformed::MissingStartingTempo));
    assert_eq!(refused(RawHeader { tick_resolution: None, num_measures: None, ..header() }), Some(ChartMalformed::MissingTickResolution));
    assert_eq!(refused(RawHeader { num_measures: None, x_resolution: None, ..header() }), Some(ChartMalformed::MissingMeasureCount));
    assert_eq!(refused(RawHeader { num_measures: Some(0), ..header() }), Some(ChartMalformed::MissingMeasureCount));
    assert_eq!(refused(RawHeader { x_resolution: None, ..header() }), Some(ChartMalformed::MissingLaneResolution));
    assert_eq!(refused(RawHeader { x_resolution: Some(0), ..header() }), Some(ChartMalformed::InvalidComposition));
    assert_eq!(refused(RawHeader { bpm_definition: Some(0), ..header() }), Some(ChartMalformed::InvalidComposition));
    assert_eq!(refused(RawHeader { tick_resolution: Some(0), ..header() }), Some(ChartMalformed::InvalidComposition));
    assert_eq!(refused(RawHeader { meter_definition: Some(MeterChange { num_beats: 4, note_value: 0 }), ..header() }), Some(ChartMalformed::InvalidComposition));
    assert_eq!(refused(RawHeader { meter_definition: Some(MeterChange { num_beats: u32::MAX, note_value: 1 }), bpm_definition: Some(1), ..header() }), Some(ChartMalformed::ValueOutOfRange));
    assert_eq!(refused(RawHeader::default()), Some(ChartMalformed::MissingStartingTimeSignature));
}

#[test]
fn changes_take_effect_at_their_measure() {
    let creator = OgkrChartCreator::new(raw_chart()).unwrap();
    let z = &creator.z_position_calculator;
    assert_eq!(z.len(), 4);
    let bpm: Vec<i64> = (0..4).map(|m| z.measure(m).composition.bpm).collect();
    assert_eq!(bpm, vec![120 * UNIT, 120 * UNIT, 60 * UNIT, 60 * UNIT]);
    let beats: Vec<u32> = (0..4).map(|m| z.measure(m).composition.time_signature.num_beats).collect();
    assert_eq!(beats, vec![4, 4, 4, 3]);
    let speed: Vec<i64> = (0..4).map(|m| z.measure(m).composition.speed_multiplier).collect();
    assert_eq!(speed, vec![UNIT, 2 * UNIT, 2 * UNIT, 2 * UNIT]);
    let offsets: Vec<i64> = (0..4).map(|m| z.measure(m).position.offset.time.0).collect();
    assert_eq!(offsets, vec![0, 2 * UNIT, 4 * UNIT, 8 * UNIT]);
    assert_eq!(z.measure(3).position.duration, ZPosition { time: Time(3 * UNIT), z: 3 * UNIT });
    assert_eq!(z.z_base_speed(), UNIT);
    assert!((0..4).all(|m| z.measure(m).composition.subdivision == 4));
}

#[test]
fn a_second_change_of_a_kind_waits_for_the_next_measure() {
    let composition = RawComposition {
        bpm_changes: vec![
            RawBpmChange { at: tick(0, 1), bpm: 100 * UNIT },
            RawBpmChange { at: tick(0, 3), bpm: 200 * UNIT },
            RawBpmChange { at: tick(1, 1), bpm: 300 * UNIT },
            RawBpmChange { at: tick(9, 1), bpm: 400 * UNIT },
        ],
        meter_changes: vec![RawMeterChange { at: tick(0, 1), meter: MeterChange { num_beats: 3, note_value: 8 } }],
        soflans: Vec::new(),
    };
    let z = OgkrChartCreator::create_z_position_calculator(
        &composition,
        TimeSignature { num_beats: 4, note_value: 4 },
        50 * UNIT,
        UNIT,
        8,
        5,
    )
    .unwrap();
    let bpm: Vec<i64> = (0..5).map(|m| z.measure(m).composition.bpm).collect();
    assert_eq!(bpm, vec![100 * UNIT, 200 * UNIT, 300 * UNIT, 300 * UNIT, 300 * UNIT]);
    assert!((0..5).all(|m| z.measure(m).composition.time_signature == TimeSignature { num_beats: 3, note_value: 8 }));
    assert!((0..5).all(|m| z.measure(m).composition.subdivision == 8));
    let none = OgkrChartCreator::create_z_position_calculator(&RawComposition::default(), TimeSignature { num_beats: 4, note_value: 4 }, 50 * UNIT, UNIT, 8, 0).unwrap();
    assert_eq!(none.len(), 0);
    let bad = RawComposition { bpm_changes: vec![RawBpmChange { at: tick(1, 1), bpm: 0 }], ..RawComposition::default() };
    let r = OgkrChartCreator::create_z_position_calculator(&bad, TimeSignature { num_beats: 4, note_value: 4 }, 50 * UNIT, UNIT, 8, 3);
    assert_eq!(r.err(), Some(ChartMalformed::InvalidComposition));
}

#[test]
fn points_are_resolved_in_time_depth_and_lateral_position() {
    let creator = OgkrChartCreator::new(raw_chart()).unwrap();
    assert_eq!(OGKR_X_POSITION_MULTIPLIER, 40_000);
    assert_eq!(creator.z_position(tick(1, 3)), Ok(ZPosition { time: Time(3 * UNIT), z: 3 * UNIT }));
    assert_eq!(creator.z_position(tick(3, 4)), Ok(ZPosition { time: Time(10_250_000), z: 10_250_000 }));
    assert_eq!(creator.z_position(tick(4, 1)), Err(ChartMalformed::MeasureOutOfRange));
    assert_eq!(
        creator.z_position(TimingPoint { measure: 0, beat_offset: i64::MAX }),
        Ok(ZPosition { time: Time(i64::MAX / 2 - 500_000), z: i64::MAX / 2 - 500_000 })
    );
    let mut coarse = raw_chart();
    coarse.header.tick_resolution = Some(1);
    let coarse = OgkrChartCreator::new(coarse).unwrap();
    assert_eq!(coarse.z_position(TimingPoint { measure: 0, beat_offset: i64::MAX }), Err(ChartMalformed::ValueOutOfRange));
    assert_eq!(coarse.z_position(TimingPoint { measure: 4, beat_offset: i64::MAX }), Err(ChartMalformed::MeasureOutOfRange));
    assert_eq!(coarse.create_times(&[tick(0, 1), TimingPoint { measure: 1, beat_offset: i64::MIN }]), Err(ChartMalformed::ValueOutOfRange));
    assert_eq!(creator.x_position(XPosition { position: 2 * UNIT, offset: 12 * UNIT }), Some(100_000));
    assert_eq!(creator.x_position(XPosition { position: i64::MAX, offset: 24 * UNIT }), None);
    assert_eq!(creator.create_track_position(point(1, 3, 2)), Ok(resolved(3 * UNIT, 2)));
    assert_eq!(creator.create_track_position(point(7, 3, 2)), Err(ChartMalformed::MeasureOutOfRange));
    let far = RawTrackPosition { time: tick(0, 1), x: XPosition { position: i64::MAX, offset: 24 * UNIT } };
    assert_eq!(creator.create_track_position(far), Err(ChartMalformed::ValueOutOfRange));
    // A measure out of range is reported before a position that cannot be represented.
    assert_eq!(creator.create_track_positions(&[far, point(4, 1, 0)]), Err(ChartMalformed::MeasureOutOfRange));
    assert_eq!(creator.create_track_positions(&[point(0, 1, 0), far]), Err(ChartMalformed::ValueOutOfRange));
    assert_eq!(creator.create_track_positions(&[point(0, 1, 0), point(0, 2, 1)]), Ok(vec![resolved(0, 0), resolved(500_000, 1)]));
    assert!(creator.all_points_in_range(&[point(3, 1, 0)]));
    assert!(!creator.all_points_in_range(&[point(3, 1, 0), point(4, 1, 0)]));
    assert_eq!(creator.create_times(&[tick(0, 1), tick(2, 3)]), Ok(vec![Time(0), Time(6 * UNIT)]));
    assert_eq!(creator.create_times(&[tick(0, 1), tick(5, 3)]), Err(ChartMalformed::MeasureOutOfRange));
    let lane = RawLane { points: vec![point(1, 1, 1)] };
    assert_eq!(creator.create_points_from_lane(&lane), Ok(vec![resolved(2 * UNIT, 1)]));
}

#[test]
fn the_track_of_a_chart() {
    let creator = OgkrChartCreator::new(raw_chart()).unwrap();
    let track = creator.create_track().unwrap();
    assert_eq!(track.platforms.len(), 1);
    assert_eq!(track.platforms[0].points_left, vec![resolved(0, -5), resolved(2 * UNIT, -5), resolved(4 * UNIT, -6)]);
    assert_eq!(track.platforms[0].points_right, vec![resolved(0, 5), resolved(8 * UNIT, 5)]);
    let kinds: Vec<LaneType> = track.lanes.iter().map(|g| g.ty).collect();
    assert_eq!(kinds, vec![LaneType(1), LaneType(2), LaneType(3), LaneType(4)]);
    let counts: Vec<usize> = track.lanes.iter().map(|g| g.lanes.len()).collect();
    assert_eq!(counts, vec![1, 2, 0, 1]);
    assert_eq!(track.lanes[1].lanes[1].points, vec![resolved(4 * UNIT, 0), resolved(8 * UNIT, 0), resolved(9_500_000, 0)]);
    let platform = creator.create_platform().unwrap();
    assert_eq!(platform.points_left, track.platforms[0].points_left);
    let single = creator.create_single_lane(&raw_chart().track.lanes_center).unwrap();
    assert_eq!(single.points.len(), 5);
    assert_eq!(single.points[2], resolved(4 * UNIT, 0));
    let lanes = creator.create_lanes(&raw_chart().track.lanes_center).unwrap();
    assert_eq!(lanes.len(), 2);

    let mut chart = raw_chart();
    chart.track.lanes_right = vec![RawLane { points: vec![point(4, 1, 0)] }];
    chart.track.walls_right[0].points[0].x.position = i64::MAX;
    let creator = OgkrChartCreator::new(chart).unwrap();
    // The walls are resolved before the lanes.
    assert_eq!(creator.create_track().err(), Some(ChartMalformed::ValueOutOfRange));
    assert_eq!(creator.create_platform().err(), Some(ChartMalformed::ValueOutOfRange));
    assert_eq!(creator.create_lanes(&creator.ogkr.track.lanes_right).err(), Some(ChartMalformed::MeasureOutOfRange));
    assert!(!creator.all_lanes_in_range(&creator.ogkr.track.lanes_right));
}

#[test]
fn the_kinds_of_notes() {
    assert_eq!(OgkrChartCreator::hit_note_type(RawLaneType::WallLeft, false), HitNoteType(0));
    assert_eq!(OgkrChartCreator::hit_note_type(RawLaneType::WallRight, false), HitNoteType(1));
    assert_eq!(OgkrChartCreator::hit_note_type(RawLaneType::Left, false), HitNoteType(2));
    assert_eq!(OgkrChartCreator::hit_note_type(RawLaneType::Center, false), HitNoteType(3));
    assert_eq!(OgkrChartCreator::hit_note_type(RawLaneType::Right, false), HitNoteType(4));
    assert_eq!(OgkrChartCreator::hit_note_type(RawLaneType::Enemy, false), HitNoteType(99));
    assert_eq!(OgkrChartCreator::hit_note_type(RawLaneType::Other, false), HitNoteType(99));
    assert_eq!(OgkrChartCreator::hit_note_type(RawLaneType::WallLeft, true), HitNoteType(10));
    assert_eq!(OgkrChartCreator::hit_note_type(RawLaneType::Right, true), HitNoteType(14));
    assert_eq!(OgkrChartCreator::hit_note_type(RawLaneType::Other, true), HitNoteType(109));
    assert_eq!(OgkrChartCreator::contact_note_type(), ContactNoteType(0));
    assert_eq!(OgkrChartCreator::evade_note_type(), EvadeNoteType(0));
    assert_eq!(LaneType::from(RawLaneType::Left), LaneType(1));
    assert_eq!(LaneType::from(RawLaneType::Center), LaneType(2));
    assert_eq!(LaneType::from(RawLaneType::Right), LaneType(3));
    assert_eq!(LaneType::from(RawLaneType::Enemy), LaneType(4));
    assert_eq!(LaneType::from(RawLaneType::WallLeft), LaneType(99));
    assert_eq!(LaneType::from(RawLaneType::Other), LaneType(99));
    assert_eq!(FlickDirection::from(RawFlickDirection::Left), FlickDirection::Left);
    assert_eq!(FlickDirection::from(RawFlickDirection::Right), FlickDirection::Right);
    assert_eq!(TimeSignature::from(MeterChange { num_beats: 7, note_value: 8 }), TimeSignature { num_beats: 7, note_value: 8 });
}

#[test]
fn the_notes_of_a_chart() {
    let creator = OgkrChartCreator::new(raw_chart()).unwrap();
    let notes = creator.create_notes().unwrap();
    assert_eq!(notes.hits.len(), 2);
    assert_eq!((notes.hits[0].ty, notes.hits[0].position), (HitNoteType(2), resolved(UNIT, -2)));
    assert_eq!((notes.hits[1].ty, notes.hits[1].position), (HitNoteType(11), resolved(2_500_000, 4)));
    assert_eq!(notes.contacts.len(), 1);
    assert_eq!((notes.contacts[0].ty, notes.contacts[0].position), (ContactNoteType(0), resolved(4 * UNIT, 1)));
    assert_eq!((notes.flicks[0].direction, notes.flicks[0].position), (FlickDirection::Right, resolved(5 * UNIT, 2)));
    assert_eq!(notes.holds.len(), 1);
    assert_eq!(notes.holds[0].ty, HitNoteType(3));
    assert_eq!(notes.holds[0].points, vec![resolved(2 * UNIT, 0), resolved(3 * UNIT, 0), resolved(4 * UNIT, 1)]);
    assert_eq!(notes.evades.len(), 2);
}

#[test]
fn bullets_become_evade_notes() {
    let creator = OgkrChartCreator::new(raw_chart()).unwrap();
    let evades = creator.create_evade_notes().unwrap();
    assert_eq!(evades.len(), 2);
    let first = evades[0].movement;
    assert_eq!(evades[0].ty, EvadeNoteType(0));
    assert_eq!(first.end, resolved(8 * UNIT, 3));
    assert_eq!(first.duration, 3 * UNIT);
    assert_eq!(first.trigger_time, Time(5 * UNIT));
    assert_eq!(first.start, TrackPosition { time: Time(11 * UNIT), z: 11 * UNIT, x: 140_000 });
    let second = evades[1].movement;
    assert_eq!(second.end, resolved(4 * UNIT, -3));
    assert_eq!(second.duration, 1);
    assert_eq!(second.trigger_time, Time(4 * UNIT - 1));
    assert_eq!(second.start, TrackPosition { time: Time(4 * UNIT + 1), z: 4 * UNIT + 1, x: 0 });

    let refused = |bullet: RawBullet| {
        let mut chart = raw_chart();
        chart.bullets.push(bullet);
        OgkrChartCreator::new(chart).unwrap().create_evade_notes().err()
    };
    let kept = RawBullet { shooter: BulletShooter::EndPosition, target: BulletTarget::FixedField, speed: UNIT, position: point(1, 1, 0) };
    assert_eq!(refused(kept), None);
    assert_eq!(refused(RawBullet { position: point(4, 1, 0), speed: -1, ..kept }), Some(ChartMalformed::MeasureOutOfRange));
    assert_eq!(refused(RawBullet { speed: -1, ..kept }), Some(ChartMalformed::InvalidComposition));
    assert_eq!(refused(RawBullet { speed: i64::MAX, ..kept }), Some(ChartMalformed::ValueOutOfRange));
    assert_eq!(refused(RawBullet { speed: i64::MAX / 2, ..kept }), None);
    assert_eq!(refused(RawBullet { speed: i64::MAX / 3 * 2, ..kept }), Some(ChartMalformed::ValueOutOfRange));
    assert_eq!(refused(RawBullet { shooter: BulletShooter::Enemy, speed: -1, ..kept }), None);
    assert_eq!(refused(RawBullet { target: BulletTarget::Player, position: point(4, 1, 0), ..kept }), None);
}

#[test]
fn notes_that_cannot_be_resolved() {
    let refused = |change: fn(&mut RawChart)| {
        let mut chart = raw_chart();
        change(&mut chart);
        OgkrChartCreator::new(chart).unwrap().create_notes().err()
    };
    assert_eq!(refused(|c| c.notes.taps[1].position.time.measure = 4), Some(ChartMalformed::MeasureOutOfRange));
    assert_eq!(refused(|c| c.notes.bells[0].position.x.offset = i64::MAX), None);
    assert_eq!(refused(|c| c.notes.bells[0].position.x.position = i64::MAX), Some(ChartMalformed::ValueOutOfRange));
    assert_eq!(refused(|c| c.notes.flicks[0].position.time.measure = 40), Some(ChartMalformed::MeasureOutOfRange));
    assert_eq!(refused(|c| c.notes.holds[0].points[2].time.measure = 4), Some(ChartMalformed::MeasureOutOfRange));
    assert_eq!(refused(|c| c.notes.holds[0].points[0].x.position = i64::MAX), Some(ChartMalformed::ValueOutOfRange));
    // Hit notes are resolved before hold notes.
    assert_eq!(
        refused(|c| {
            c.notes.holds[0].points[2].time.measure = 4;
            c.notes.taps[0].position.x.position = i64::MAX;
        }),
        Some(ChartMalformed::ValueOutOfRange)
    );
    let creator = OgkrChartCreator::new(raw_chart()).unwrap();
    assert!(creator.all_holds_in_range(&creator.ogkr.notes.holds));
    assert_eq!(creator.create_hit_notes(&[]).unwrap().len(), 0);
    assert_eq!(creator.create_contact_notes(&creator.ogkr.notes.bells).unwrap().len(), 1);
    assert_eq!(creator.create_flick_notes(&creator.ogkr.notes.flicks).unwrap().len(), 1);
    assert_eq!(creator.create_hold_notes(&creator.ogkr.notes.holds).unwrap().len(), 1);
}

#[test]
fn the_composition_of_a_chart() {
    let creator = OgkrChartCreator::new(raw_chart()).unwrap();
    let composition = creator.create_composition().unwrap();
    assert_eq!(composition.bpm_changes.len(), 1);
    let BpmChange { time, bpm } = composition.bpm_changes[0];
    assert_eq!((time, bpm), (Time(4 * UNIT), 60 * UNIT));
    let TimeSignatureChange { time, time_signature } = composition.time_signature_changes[0];
    assert_eq!((time, time_signature), (Time(8 * UNIT), TimeSignature { num_beats: 3, note_value: 4 }));
    let Soflan { time, duration, speed_multiplier } = composition.soflans[0];
    assert_eq!((time, duration, speed_multiplier), (Time(3 * UNIT), UNIT, 2 * UNIT));

    let mut chart = raw_chart();
    chart.composition.soflans.push(RawSoflan { at: tick(4, 1), speed_multiplier: UNIT });
    assert_eq!(OgkrChartCreator::new(chart).unwrap().create_composition().err(), Some(ChartMalformed::MeasureOutOfRange));
}

#[test]
fn from_a_parsed_chart_to_draw_data() {
    let chart = OgkrChartCreator::new(raw_chart()).unwrap().create().unwrap();
    assert_eq!(chart.header.audio_filename, "");
    assert_eq!(chart.header.audio_offset, 0);
    assert_eq!(chart.metadata.base_speed, 0);
    assert_eq!(chart.utils.z_position_calculator.len(), 4);
    assert_eq!(chart.data.notes.hits.len(), 2);
    assert_eq!(chart.data.track.lanes.len(), 4);
    assert_eq!(chart.data.composition.bpm_changes.len(), 1);

    let scene = TrackDescription::from_chart(&chart, TrackSettings { runner_speed: 15 * UNIT });
    // The enemy lane of one point is not drawn, so it does not matter.
    let scene = scene.unwrap();
    assert_eq!(scene.notes_hit[0].z_position, 15 * UNIT);
    assert_eq!(scene.lanes.objects.len(), 3);
    assert_eq!(scene.hold_notes.objects.len(), 1);
    assert_eq!(scene.platform_mesh.vertices.len(), 6);

    let ring = Mesh::from_indices(vec![Point3 { x: 0, y: 0, z: 0 }; 3], vec![0, 1, 2]);
    let (render, mut metadata) = RenderDescriptionCreator::new(scene, RenderMeshes::new(ring).unwrap()).create();
    assert_eq!(render.instanced_draw_data[3].instance_count, 2);
    assert_eq!(render.mosv_draw_data[1].objects_count, 3);
    assert_eq!(render.mosv_draw_data[1].vertices.len(), 4 + 4 + 6);
    metadata.evade_notes_data.update_evade_notes(8 * UNIT);
    assert_eq!(metadata.evade_notes_data.gpu_object_instances[0].translation, Point3 { x: 140_000, y: 0, z: 120 * UNIT });
    metadata.evade_notes_data.update_evade_notes(6_500_000);
    assert_eq!(metadata.evade_notes_data.gpu_object_instances[0].translation, Point3 { x: 140_000, y: 0, z: 142_500_000 });

    let mut broken = raw_chart();
    broken.track.walls_left[0].points[0].time.measure = 4;
    assert_eq!(OgkrChartCreator::new(broken).unwrap().create().err(), Some(ChartMalformed::MeasureOutOfRange));
}
