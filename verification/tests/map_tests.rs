use poeng_server::map::{WorldMap, IndexEntry, MAPWIDTH, MAPHEIGHT, CARDINAL_COST, DIAGONAL_COST};
use poeng_server::rect::Rect;
use poeng_server::components::Ent;

fn ent(id: u32) -> Ent {
    Ent { id, gen: 1 }
}

#[test]
fn new_map_has_one_room() {
    let m = WorldMap::new_map();
    assert_eq!(m.width, MAPWIDTH as i32);
    assert_eq!(m.height, MAPHEIGHT as i32);
    assert_eq!(m.rooms, vec![Rect { x1: 1, y1: 1, x2: 997, y2: 997 }]);
    assert!(m.blocked.is_empty());
    assert!(m.tile_content.is_empty());
    assert_eq!(m.depth, 0);
    assert_eq!(m.rooms[0].center(), (499, 499));
}

#[test]
fn square_numbers_round_trip() {
    let m = WorldMap::new_map();
    assert_eq!(m.xy_idx(3, 2), 2003);
    assert_eq!(m.idx_xy(2003), (3, 2));
    assert_eq!(m.point2d_to_index((3, 2)), 2003);
    assert_eq!(m.index_to_point2d(2003), (3, 2));
    assert_eq!(m.idx_xy(999), (999, 0));
}

#[test]
fn blocked_read_after_write() {
    let mut m = WorldMap::new_map();
    assert!(!m.is_blocked(42));
    m.set_blocked(42, true);
    assert!(m.is_blocked(42));
    assert!(!m.is_blocked(43));
    m.set_blocked(42, false);
    assert!(!m.is_blocked(42));
}

#[test]
fn in_bounds_excludes_the_border() {
    let m = WorldMap::new_map();
    assert!(m.in_bounds((1, 1)));
    assert!(m.in_bounds((998, 998)));
    assert!(!m.in_bounds((0, 5)));
    assert!(!m.in_bounds((999, 5)));
}

#[test]
fn exits_of_an_open_square() {
    let m = WorldMap::new_map();
    let idx = m.xy_idx(5, 5) as i32;
    let exits = m.get_available_exits(idx);
    let w = m.width;
    assert_eq!(
        exits,
        vec![
            (idx - 1, CARDINAL_COST),
            (idx + 1, CARDINAL_COST),
            (idx - w, CARDINAL_COST),
            (idx + w, CARDINAL_COST),
            (idx - w - 1, DIAGONAL_COST),
            (idx - w + 1, DIAGONAL_COST),
            (idx + w - 1, DIAGONAL_COST),
            (idx + w + 1, DIAGONAL_COST),
        ]
    );
}

#[test]
fn exits_skip_blocked_and_border_squares() {
    let mut m = WorldMap::new_map();
    let b = m.xy_idx(2, 1);
    m.set_blocked(b, true);
    let idx = m.xy_idx(1, 1) as i32;
    let exits = m.get_available_exits(idx);
    let w = m.width;
    // left and up are the border; (2, 1) is blocked
    assert_eq!(exits, vec![(idx + w, CARDINAL_COST), (idx + w + 1, DIAGONAL_COST)]);
}

#[test]
fn clear_content_index_empties_the_index() {
    let mut m = WorldMap::new_map();
    m.tile_content.insert(3, vec![ent(1)]);
    m.clear_content_index();
    assert!(m.tile_content.is_empty());
}

#[test]
fn dirty_squares_are_indexed_again() {
    let mut m = WorldMap::new_map();
    let a = m.xy_idx(2, 2);
    let b = m.xy_idx(3, 2);
    let c = m.xy_idx(9, 9);
    // entity 1 moved from (2, 2) to (3, 2); entity 2 stays at (2, 2); entity 3 was deleted
    m.tile_content.insert(a, vec![ent(1), ent(2), ent(3)]);
    m.tile_content.insert(c, vec![ent(7)]);
    m.set_blocked(a, true);
    m.set_blocked(c, true);
    m.dirty.push((2, 2));
    m.dirty.push((3, 2));
    let located = vec![
        IndexEntry { entity: ent(1), x: 3, y: 2, blocks: true, precise: false },
        IndexEntry { entity: ent(2), x: 2, y: 2, blocks: false, precise: false },
        IndexEntry { entity: ent(7), x: 9, y: 9, blocks: true, precise: false },
    ];
    m.index_dirty_tiles(&located);
    assert!(m.dirty.is_empty());
    assert_eq!(m.tile_content.get(&a), Some(&vec![ent(2)]));
    assert_eq!(m.tile_content.get(&b), Some(&vec![ent(1)]));
    assert_eq!(m.tile_content.get(&c), Some(&vec![ent(7)]));
    assert!(!m.is_blocked(a));
    assert!(m.is_blocked(b));
    assert!(m.is_blocked(c));
}

#[test]
fn precise_entities_do_not_block() {
    let mut m = WorldMap::new_map();
    let a = m.xy_idx(4, 4);
    m.tile_content.insert(a, vec![ent(5)]);
    m.dirty.push((4, 4));
    let located = vec![IndexEntry { entity: ent(5), x: 4, y: 4, blocks: true, precise: true }];
    m.index_dirty_tiles(&located);
    assert_eq!(m.tile_content.get(&a), Some(&vec![ent(5)]));
    assert!(!m.is_blocked(a));
}

#[test]
fn reindexing_lists_each_entity_once() {
    let mut m = WorldMap::new_map();
    let a = m.xy_idx(2, 2);
    let b = m.xy_idx(3, 2);
    // entity 1 stands at (3, 2) and was listed at (2, 2); both squares are dirty
    m.tile_content.insert(a, vec![ent(1), ent(2)]);
    m.tile_content.insert(b, vec![ent(4)]);
    m.dirty.push((2, 2));
    m.dirty.push((3, 2));
    m.dirty.push((2, 2));
    let located = vec![
        IndexEntry { entity: ent(1), x: 3, y: 2, blocks: false, precise: false },
        IndexEntry { entity: ent(2), x: 3, y: 2, blocks: false, precise: false },
        IndexEntry { entity: ent(4), x: 3, y: 2, blocks: false, precise: false },
    ];
    m.index_dirty_tiles(&located);
    let mut on_b = m.tile_content.get(&b).unwrap().clone();
    on_b.sort_by_key(|e| e.id);
    assert_eq!(on_b, vec![ent(1), ent(2), ent(4)]);
    assert!(m.tile_content.get(&a).is_none());
}

#[test]
fn negative_coordinates_are_numbered_on_usize() {
    let m = WorldMap::new_map();
    // (-1, 0): -1 read as usize is usize::MAX
    assert_eq!(m.xy_idx(-1, 0), usize::MAX);
}
