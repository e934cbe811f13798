use cosmic_reader::nav::{Entity, Model};

fn filled(count: usize) -> Model<usize> {
    let mut model = Model::new();
    model.refill((0..count).collect());
    model.activate_position(0);
    model
}

#[test]
fn a_new_list_is_empty() {
    let model: Model<u8> = Model::new();
    assert_eq!(model.len(), 0);
    assert_eq!(model.active(), None);
    assert_eq!(model.current_position(), 0);
}

#[test]
fn items_are_found_by_their_entity() {
    let mut model = Model::new();
    let first = model.insert("a");
    let second = model.insert("b");
    assert_eq!(model.data(first), Some(&"a"));
    assert_eq!(model.data(second), Some(&"b"));
    assert_eq!(model.position(second), Some(1));
    if let Some(item) = model.data_mut(second) {
        *item = "c";
    }
    assert_eq!(model.data(second), Some(&"c"));
    assert_eq!(model.data(first), Some(&"a"));
    assert_eq!(model.active(), None);
    model.activate(second);
    assert_eq!(model.active(), Some(second));
    assert_eq!(model.current_position(), 1);
}

#[test]
fn cleared_entities_find_nothing() {
    let mut model = filled(3);
    let old = model.active().unwrap();
    model.clear();
    assert_eq!(model.len(), 0);
    assert_eq!(model.active(), None);
    assert_eq!(model.data(old), None);
    model.refill(vec![10, 11, 12]);
    assert_eq!(model.data(old), None);
    assert!(model.data_mut(old).is_none());
    assert_eq!(model.position(old), None);
    assert!(!model.has(old));
}

#[test]
fn generations_wrap_around() {
    let mut model: Model<u8> = Model { generation: u64::MAX, items: vec![1], active: None };
    model.clear();
    assert_eq!(model.generation, 0);
}

#[test]
fn turning_stops_at_both_ends() {
    let mut model = filled(3);
    assert!(!model.previous());
    assert_eq!(model.current_position(), 0);
    model.next();
    model.next();
    assert_eq!(model.current_position(), 2);
    model.next();
    assert_eq!(model.current_position(), 2);
    assert!(model.previous());
    assert_eq!(model.current_position(), 1);
}

#[test]
fn forward_and_backward_cancel() {
    let mut model = filled(5);
    model.activate_position(2);
    let before = model.active();
    model.next();
    assert_ne!(model.active(), before);
    model.previous();
    assert_eq!(model.active(), before);
}

#[test]
fn an_empty_list_cannot_be_turned() {
    let mut model: Model<u8> = Model::new();
    model.next();
    assert_eq!(model.active(), None);
    assert!(!model.previous());
    assert!(!model.activate_position(0));
}

#[test]
fn an_unknown_entity_stands_at_the_start() {
    let mut model = filled(3);
    model.activate(Entity { generation: 99, slot: 2 });
    assert_eq!(model.current_position(), 0);
    model.next();
    assert_eq!(model.current_position(), 1);
}
