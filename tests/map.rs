use ruthless_flow::direction_picker::{allowed, pick_at, DirectionPicker};
use ruthless_flow::frontend;
use ruthless_flow::map::{GameMap, MapError, TileType};
use ruthless_flow::utils::{Coordinates, Direction, DirectionFlags};

fn c(x: usize, y: usize) -> Coordinates {
    Coordinates { x, y }
}

fn free_rows(width: usize, height: usize) -> Vec<Vec<TileType>> {
    vec![vec![TileType::Free; width]; height]
}

fn flags_from_bits(bits: u8) -> DirectionFlags {
    DirectionFlags { up: bits & 1 != 0, down: bits & 2 != 0, right: bits & 4 != 0, left: bits & 8 != 0 }
}

const ALL: [Direction; 4] = [Direction::Up, Direction::Down, Direction::Right, Direction::Left];

#[test]
fn map_rejects_empty_and_ragged_rows() {
    assert_eq!(GameMap::new(vec![], 3).err(), Some(MapError::Empty));
    assert_eq!(GameMap::new(vec![vec![], vec![]], 3).err(), Some(MapError::Empty));
    let ragged = vec![vec![TileType::Free; 3], vec![TileType::Free; 2]];
    assert_eq!(GameMap::new(ragged, 1).err(), Some(MapError::UnequalRowLengths));
}

#[test]
fn neighbours_stop_at_edges() {
    let mut rows = free_rows(3, 4);
    rows[1][2] = TileType::Wall;
    let map = GameMap::new(rows, 2).unwrap();
    assert_eq!(map.get_length(), 3);
    assert_eq!(map.get_height(), 4);
    assert_eq!(map.get_neighbour_tile(c(0, 0), Direction::Down), None);
    assert_eq!(map.get_neighbour_tile(c(0, 0), Direction::Left), None);
    assert_eq!(map.get_neighbour_tile(c(2, 3), Direction::Right), None);
    assert_eq!(map.get_neighbour_tile(c(2, 3), Direction::Up), None);
    assert_eq!(map.get_neighbour_tile(c(2, 0), Direction::Up), Some((TileType::Wall, c(2, 1))));
    assert_eq!(map.get_neighbour_tile(c(1, 1), Direction::Right), Some((TileType::Wall, c(2, 1))));
    assert_eq!(map.get_neighbour_tile(c(1, 1), Direction::Left), Some((TileType::Free, c(0, 1))));
}

#[test]
fn slide_moves_window_and_keeps_logical_coordinates() {
    let mut rows = free_rows(3, 4);
    rows[2][1] = TileType::Separator;
    let mut map = GameMap::new(rows, 2).unwrap();
    assert!(!map.will_head_pop_out_during_next_sliding());
    map.slide();
    assert_eq!(map.get_height(), 3);
    assert_eq!(map.take_notifications(), vec![frontend::Event::NewMapLine]);
    // row 0 is gone: nothing below row 1 any more
    assert_eq!(map.get_neighbour_tile(c(1, 1), Direction::Down), None);
    assert_eq!(map.get_neighbour_tile(c(1, 1), Direction::Up), Some((TileType::Separator, c(1, 2))));
    assert_eq!(map.get_tile(c(1, 2)), TileType::Separator);
    map.set_tile(c(0, 2), TileType::Head { id: 4 });
    assert_eq!(
        map.take_notifications(),
        vec![frontend::Event::SetTile { position: c(0, 1), tile_type: TileType::Head { id: 4 } }]
    );
    assert!(map.take_notifications().is_empty());
}

#[test]
fn head_on_bottom_row_would_pop_out() {
    let mut map = GameMap::new(free_rows(4, 3), 2).unwrap();
    map.set_tile(c(3, 0), TileType::Marked { id: 1 });
    assert!(!map.will_head_pop_out_during_next_sliding());
    map.set_tile(c(2, 0), TileType::Head { id: 1 });
    assert!(map.will_head_pop_out_during_next_sliding());
}

#[test]
fn arrival_line_is_total_height_minus_visible_rows() {
    let mut map = GameMap::new(free_rows(2, 10), 4).unwrap();
    assert!(map.is_on_arrival_line(c(0, 6)));
    assert!(!map.is_on_arrival_line(c(0, 5)));
    map.slide();
    map.slide();
    assert!(map.is_on_arrival_line(c(1, 6)));
    let short = GameMap::new(free_rows(2, 3), 4).unwrap();
    assert!(!short.is_on_arrival_line(c(0, 0)));
}

#[test]
fn pick_never_repeats_and_fills_the_set() {
    for bits in 0u8..16 {
        let before = flags_from_bits(bits);
        let mut after = before;
        let r = DirectionPicker::pick(&mut after);
        let forbidden = ALL.iter().filter(|d| before.contains(**d)).count();
        if forbidden <= 3 {
            let d = r.expect("a direction is left");
            assert!(!before.contains(d));
            assert!(after.contains(d));
            for e in ALL {
                if e != d {
                    assert_eq!(after.contains(e), before.contains(e));
                }
            }
        } else {
            assert_eq!(r, None);
            assert_eq!(after, before);
        }
    }
}

#[test]
fn pick_takes_the_only_direction_left() {
    let mut f = DirectionFlags::empty();
    f.insert(Direction::Up);
    f.insert(Direction::Down);
    f.insert(Direction::Left);
    assert_eq!(DirectionPicker::pick(&mut f), Some(Direction::Right));
    assert!(f.is_all());
    assert_eq!(DirectionPicker::pick(&mut f), None);
}

#[test]
fn pick_at_indexes_allowed_directions() {
    let mut f = DirectionFlags::from_direction(Direction::Down);
    assert_eq!(allowed(&f), vec![Direction::Up, Direction::Left, Direction::Right]);
    assert_eq!(pick_at(&mut f, 1), Some(Direction::Left));
    assert!(f.contains(Direction::Left));
    assert_eq!(pick_at(&mut f, 2), None);
    assert_eq!(allowed(&f), vec![Direction::Up, Direction::Right]);
}

#[test]
fn reverse_swaps_each_pair() {
    assert_eq!(Direction::Up.reverse(), Direction::Down);
    assert_eq!(Direction::Down.reverse(), Direction::Up);
    assert_eq!(Direction::Left.reverse(), Direction::Right);
    assert_eq!(Direction::Right.reverse(), Direction::Left);
}
