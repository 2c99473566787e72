use mixer_control::model::{
    copy_name, copy_readings, copy_sink_inputs, copy_sinks, same_name, same_readings,
    same_sink_inputs, same_sinks, Reading, Sink, SinkInput, Snapshot, Volume,
};
use mixer_control::state::StateModel;

fn sink(id: i64, name: &str) -> Sink {
    Sink { id, name: name.to_string(), description: format!("{} device", name) }
}

fn input(id: i64, sink_id: i64) -> SinkInput {
    SinkInput {
        id,
        sink_id,
        app_name: "app".to_string(),
        media_name: "media".to_string(),
        volume: Volume { total: 130, channels: 2, other: vec![Reading::Binary64(7)] },
        muted: true,
    }
}

fn snapshot() -> Snapshot {
    Snapshot {
        default_sink_name: Some("a".to_string()),
        sinks: vec![sink(1, "a"), sink(2, "b")],
        sink_inputs: vec![input(10, 1), input(11, 7)],
    }
}

#[test]
fn silent_volume_has_no_channel() {
    assert_eq!(Volume::silent(), Volume { total: 0, channels: 0, other: Vec::new() });
}

#[test]
fn with_reading_adds_one_channel() {
    let volume = Volume::silent().with_reading(Reading::Whole(50)).with_reading(Reading::Whole(70));
    assert_eq!(volume, Volume { total: 120, channels: 2, other: Vec::new() });
    let volume = volume.with_reading(Reading::Whole(-20));
    assert_eq!(volume, Volume { total: 100, channels: 3, other: Vec::new() });
    let volume = volume
        .with_reading(Reading::Binary64(0.5f64.to_bits()))
        .with_reading(Reading::Large(u64::MAX))
        .with_reading(Reading::Whole(1));
    assert_eq!(
        volume,
        Volume {
            total: 101,
            channels: 4,
            other: vec![Reading::Binary64(0.5f64.to_bits()), Reading::Large(u64::MAX)],
        }
    );
    let volume = Volume::silent()
        .with_reading(Reading::Whole(i64::MAX))
        .with_reading(Reading::Whole(i64::MAX));
    assert_eq!(volume, Volume { total: 18446744073709551614, channels: 2, other: Vec::new() });
}

#[test]
fn empty_snapshot_holds_nothing() {
    let empty = Snapshot::empty();
    assert_eq!(empty.default_sink_name, None);
    assert!(empty.sinks.is_empty());
    assert!(empty.sink_inputs.is_empty());
}

#[test]
fn clones_are_equal() {
    assert_eq!(sink(3, "x").clone(), sink(3, "x"));
    assert_eq!(input(3, 4).clone(), input(3, 4));
    assert_eq!(snapshot().clone(), snapshot());
    assert_eq!(copy_name(&Some("n".to_string())), Some("n".to_string()));
    assert_eq!(copy_name(&None), None);
    assert_eq!(copy_sinks(&snapshot().sinks), snapshot().sinks);
    assert_eq!(copy_sink_inputs(&snapshot().sink_inputs), snapshot().sink_inputs);
    assert_eq!(copy_sinks(&Vec::new()), Vec::new());
}

#[test]
fn same_as_compares_every_field() {
    assert!(sink(1, "a").same_as(&sink(1, "a")));
    assert!(!sink(1, "a").same_as(&sink(2, "a")));
    assert!(!sink(1, "a").same_as(&sink(1, "b")));
    let mut other = sink(1, "a");
    other.description = "other".to_string();
    assert!(!sink(1, "a").same_as(&other));

    assert!(input(1, 2).same_as(&input(1, 2)));
    assert!(!input(1, 2).same_as(&input(3, 2)));
    assert!(!input(1, 2).same_as(&input(1, 3)));
    let mut changed = input(1, 2);
    changed.app_name = "z".to_string();
    assert!(!input(1, 2).same_as(&changed));
    let mut changed = input(1, 2);
    changed.media_name = "z".to_string();
    assert!(!input(1, 2).same_as(&changed));
    let mut changed = input(1, 2);
    changed.volume.total = 131;
    assert!(!input(1, 2).same_as(&changed));
    let mut changed = input(1, 2);
    changed.volume.channels = 1;
    assert!(!input(1, 2).same_as(&changed));
    let mut changed = input(1, 2);
    changed.volume.other = vec![Reading::Binary64(8)];
    assert!(!input(1, 2).same_as(&changed));
    let mut changed = input(1, 2);
    changed.volume.other.clear();
    assert!(!input(1, 2).same_as(&changed));
    let mut changed = input(1, 2);
    changed.muted = false;
    assert!(!input(1, 2).same_as(&changed));
}

#[test]
fn snapshots_differ_by_any_part() {
    assert!(snapshot().same_as(&snapshot()));
    assert!(Snapshot::empty().same_as(&Snapshot::empty()));
    assert!(!snapshot().same_as(&Snapshot::empty()));
    let mut changed = snapshot();
    changed.default_sink_name = None;
    assert!(!snapshot().same_as(&changed));
    let mut changed = snapshot();
    changed.default_sink_name = Some("b".to_string());
    assert!(!snapshot().same_as(&changed));
    let mut changed = snapshot();
    changed.sinks.pop();
    assert!(!snapshot().same_as(&changed));
    let mut changed = snapshot();
    changed.sinks.swap(0, 1);
    assert!(!snapshot().same_as(&changed));
    let mut changed = snapshot();
    changed.sink_inputs[1].muted = false;
    assert!(!snapshot().same_as(&changed));
    let mut changed = snapshot();
    changed.sink_inputs.push(input(12, 1));
    assert!(!snapshot().same_as(&changed));
}

#[test]
fn volumes_compare_by_all_they_hold() {
    let volume = Volume { total: 5, channels: 1, other: vec![Reading::Large(9), Reading::Binary64(3)] };
    assert!(volume.same_as(&volume.clone()));
    assert_eq!(volume.clone(), volume);
    assert_eq!(copy_readings(&volume.other), volume.other);
    assert!(same_readings(&volume.other, &volume.other.clone()));
    assert!(!same_readings(&volume.other, &vec![Reading::Binary64(3), Reading::Large(9)]));
    assert!(!same_readings(&volume.other, &vec![Reading::Large(9)]));
    assert!(!same_readings(&vec![Reading::Large(3)], &vec![Reading::Binary64(3)]));
    assert!(same_readings(&Vec::new(), &Vec::new()));
    let mut changed = volume.clone();
    changed.total = 6;
    assert!(!volume.same_as(&changed));
}

#[test]
fn list_comparisons_go_in_order() {
    assert!(same_name(&None, &None));
    assert!(same_name(&Some("a".to_string()), &Some("a".to_string())));
    assert!(!same_name(&Some("a".to_string()), &None));
    assert!(!same_name(&None, &Some("a".to_string())));
    assert!(!same_name(&Some("a".to_string()), &Some("b".to_string())));
    assert!(same_sinks(&vec![sink(1, "a")], &vec![sink(1, "a")]));
    assert!(!same_sinks(&vec![sink(1, "a")], &vec![]));
    assert!(!same_sinks(&vec![sink(1, "a"), sink(2, "b")], &vec![sink(2, "b"), sink(1, "a")]));
    assert!(same_sink_inputs(&vec![], &vec![]));
    assert!(!same_sink_inputs(&vec![input(1, 1)], &vec![input(1, 2)]));
}

#[test]
fn lookups_find_what_a_snapshot_holds() {
    let now = snapshot();
    assert!(now.has_sink(1));
    assert!(now.has_sink(2));
    assert!(!now.has_sink(7));
    assert!(now.has_sink_named(&"b".to_string()));
    assert!(!now.has_sink_named(&"c".to_string()));
    assert!(now.has_stream(11));
    assert!(!now.has_stream(1));
    assert!(!Snapshot::empty().has_sink(1));
}

#[test]
fn snapshot_tolerates_a_dangling_sink_reference() {
    let now = snapshot();
    let dangling = &now.sink_inputs[1];
    assert_eq!(dangling.sink_id, 7);
    assert!(!now.has_sink(dangling.sink_id));
    assert!(now.same_as(&now.clone()));
}

#[test]
fn state_model_starts_empty() {
    let model = StateModel::new();
    assert_eq!(*model.current(), Snapshot::empty());
}

#[test]
fn commit_replaces_the_whole_snapshot_and_returns_the_previous() {
    let mut model = StateModel::new();
    let previous = model.commit(snapshot());
    assert_eq!(previous, Snapshot::empty());
    assert_eq!(*model.current(), snapshot());
    let mut next = snapshot();
    next.sinks.clear();
    next.sink_inputs.clear();
    let previous = model.commit(next);
    assert_eq!(previous, snapshot());
    assert!(model.current().sinks.is_empty());
    assert!(model.current().sink_inputs.is_empty());
    assert_eq!(model.current().default_sink_name, Some("a".to_string()));
}
