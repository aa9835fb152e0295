use poeng_server::algo::{add_or_zero, dummy_flee, IdCounter, _unique_id};
use poeng_server::components::{Position, Reproduction, Speed, UniqueId, Interaction, LocalClientInfo, LocalClientRunstate};

#[test]
fn add_or_zero_clamps_at_zero() {
    assert_eq!(add_or_zero(5, -10), 0);
    assert_eq!(add_or_zero(5, -5), 0);
    assert_eq!(add_or_zero(5, 3), 8);
    assert_eq!(add_or_zero(50, -10), 40);
}

#[test]
fn add_or_zero_reads_large_values_as_negative() {
    // u32::MAX read as an i32 is -1
    assert_eq!(add_or_zero(u32::MAX, 1), 0);
    assert_eq!(add_or_zero(u32::MAX, 5), 4);
}

#[test]
fn dummy_flee_moves_along_the_longest_axis() {
    assert_eq!(dummy_flee(5, 5, 5, 2), (5, 6));
    assert_eq!(dummy_flee(5, 5, 5, 9), (5, 4));
    assert_eq!(dummy_flee(5, 5, 2, 5), (6, 5));
    assert_eq!(dummy_flee(5, 5, 9, 5), (4, 5));
    // a tie goes along x
    assert_eq!(dummy_flee(5, 5, 3, 3), (6, 5));
    // on the enemy's square, step left
    assert_eq!(dummy_flee(5, 5, 5, 5), (4, 5));
}

#[test]
fn unique_ids_count_up_from_one() {
    let mut c = IdCounter::new();
    assert_eq!(_unique_id(&mut c), 1);
    assert_eq!(_unique_id(&mut c), 2);
    let u = UniqueId::new(&mut c);
    assert_eq!(u.get(), 3);
    assert_eq!(_unique_id(&mut c), 4);
}

#[test]
fn position_records_dirty_squares() {
    let mut dirty = Vec::new();
    let mut p = Position::new(3, 4, &mut dirty);
    assert_eq!((p.x(), p.y()), (3, 4));
    assert_eq!(dirty, vec![(3, 4)]);
    p.moving(7, 8, &mut dirty);
    assert_eq!((p.x(), p.y()), (7, 8));
    assert_eq!(dirty, vec![(3, 4), (3, 4), (7, 8)]);
}

#[test]
fn reproduction_threshold_and_cost() {
    let r = Reproduction { birth_energy: 50, offset_cost: 10, offset_threshold: 25 };
    assert_eq!(r.threshold(), 85);
    assert_eq!(r.cost(), 60);
}

#[test]
fn move_points_stop_at_the_ceiling() {
    let mut s = Speed { move_point: 90, point_per_turn: 20, base_point_per_turn: 20, max_point: 100 };
    s.add_move_point(5);
    assert_eq!(s.move_point, 95);
    s.add_move_point(20);
    assert_eq!(s.move_point, 100);
    s.add_move_point(-30);
    assert_eq!(s.move_point, 70);
    assert_eq!(s.max_point, 100);
}

#[test]
fn small_constructors() {
    let i = Interaction::new("chop".to_string());
    assert_eq!(i.name, "chop");
    let info = LocalClientInfo::new();
    assert_eq!(info.local_runstate, LocalClientRunstate::BaseState);
}

#[test]
fn dummy_flee_at_the_edge_of_the_range() {
    // only the coordinate stepped along must stay within `i32`
    assert_eq!(dummy_flee(i32::MAX, 5, i32::MAX, 0), (i32::MAX, 6));
    assert_eq!(dummy_flee(4, i32::MIN, 0, i32::MIN), (5, i32::MIN));
}

#[test]
fn identifiers_grow_from_one() {
    let mut c = IdCounter::new();
    let a = _unique_id(&mut c);
    let b = _unique_id(&mut c);
    let d = _unique_id(&mut c);
    assert!(a >= 1 && a < b && b < d);
    assert_eq!(c.peek(), 4);
}
