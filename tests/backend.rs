use ruthless_flow::backend::{Backend, BoardState, EndGameReason, Event};
use ruthless_flow::direction_picker::ScriptedPicker;
use ruthless_flow::frontend;
use ruthless_flow::head_list::HeadList;
use ruthless_flow::map::{GameMap, TileType};
use ruthless_flow::utils::{Coordinates, Direction};

fn backend_grid(width: usize, height: usize, special: &[(usize, usize, TileType)]) -> Vec<Vec<TileType>> {
    let mut rows = vec![vec![TileType::Free; width]; height];
    for (x, y, t) in special {
        rows[*y][*x] = *t;
    }
    rows
}

fn pos(x: usize, y: usize) -> Coordinates {
    Coordinates { x, y }
}

fn started(rows: Vec<Vec<TileType>>, visible: usize, picker: &mut ScriptedPicker) -> Backend {
    let map = GameMap::new(rows, visible).unwrap();
    let mut board = Backend::new(map);
    board.handle_event(Event::StartGame, picker);
    assert!(board.take_timer_request());
    board.take_frontend_events();
    board
}

#[test]
fn new_backend_places_first_head() {
    let map = GameMap::new(backend_grid(11, 6, &[]), 3).unwrap();
    let mut board = Backend::new(map);
    assert_eq!(board.get_state(), BoardState::Startup);
    assert_eq!(board.get_next_direction(), Direction::Up);
    assert_eq!(board.get_map().get_tile(pos(5, 0)), TileType::Head { id: 0 });
    assert_eq!(board.get_heads().get_nb_heads(), 1);
    assert_eq!(
        board.take_frontend_events(),
        vec![
            frontend::Event::SetTile { position: pos(5, 0), tile_type: TileType::Head { id: 0 } },
            frontend::Event::UpdateNbHeads { nb_heads: 1 },
        ]
    );
}

#[test]
fn events_before_start_are_ignored() {
    let map = GameMap::new(backend_grid(11, 6, &[]), 3).unwrap();
    let mut board = Backend::new(map);
    let mut picker = ScriptedPicker::new(vec![]);
    board.take_frontend_events();
    board.handle_event(Event::MoveHeadsTick, &mut picker);
    board.handle_event(Event::SlideMapTick, &mut picker);
    assert_eq!(board.get_state(), BoardState::Startup);
    assert_eq!(board.get_map().get_height(), 6);
    assert_eq!(board.get_heads().get(0).unwrap().get_position(), pos(5, 0));
    assert!(board.take_frontend_events().is_empty());
    assert!(!board.take_timer_request());
    board.handle_event(Event::StartGame, &mut picker);
    assert_eq!(board.get_state(), BoardState::Playing);
    assert!(board.take_timer_request());
}

#[test]
fn straight_run_moves_up_one_row() {
    let mut picker = ScriptedPicker::new(vec![]);
    let mut board = started(backend_grid(11, 10, &[]), 4, &mut picker);
    board.handle_event(Event::MoveHeadsTick, &mut picker);
    let head = board.get_heads().get(0).unwrap();
    assert_eq!(head.get_position(), pos(5, 1));
    assert_eq!(head.get_provenance(), Direction::Down);
    assert_eq!(board.get_map().get_tile(pos(5, 0)), TileType::Marked { id: 0 });
    assert_eq!(board.get_map().get_tile(pos(5, 1)), TileType::Head { id: 0 });
    assert_eq!(
        board.take_frontend_events(),
        vec![
            frontend::Event::SetTile { position: pos(5, 0), tile_type: TileType::Marked { id: 0 } },
            frontend::Event::SetTile { position: pos(5, 1), tile_type: TileType::Head { id: 0 } },
        ]
    );
    assert!(board.take_board_events().is_empty());
    assert_eq!(picker.call_count(), 0);
}

#[test]
fn pop_out_ends_game_without_sliding() {
    let mut picker = ScriptedPicker::new(vec![]);
    let mut board = started(backend_grid(11, 10, &[]), 4, &mut picker);
    board.handle_event(Event::SlideMapTick, &mut picker);
    assert_eq!(board.get_state(), BoardState::Ending);
    assert_eq!(board.get_map().get_height(), 10);
    assert_eq!(
        board.take_frontend_events(),
        vec![frontend::Event::EndGame { game_end_reason: EndGameReason::HeadPoppedOutByRisingEdge }]
    );
}

#[test]
fn slide_drops_bottom_row_when_no_head_is_on_it() {
    let mut picker = ScriptedPicker::new(vec![]);
    let mut board = started(backend_grid(11, 10, &[]), 4, &mut picker);
    board.handle_event(Event::MoveHeadsTick, &mut picker);
    board.take_frontend_events();
    board.handle_event(Event::SlideMapTick, &mut picker);
    assert_eq!(board.get_state(), BoardState::Playing);
    assert_eq!(board.get_map().get_height(), 9);
    assert_eq!(board.take_frontend_events(), vec![frontend::Event::NewMapLine]);
    // the head's logical position still reads the same cell
    assert_eq!(board.get_map().get_tile(pos(5, 1)), TileType::Head { id: 0 });
}

#[test]
fn nothing_changes_after_the_end() {
    let mut picker = ScriptedPicker::new(vec![]);
    let mut board = started(backend_grid(11, 10, &[]), 4, &mut picker);
    board.handle_event(Event::EndGame { end_game_reason: EndGameReason::Victory }, &mut picker);
    assert_eq!(board.get_state(), BoardState::Ending);
    assert_eq!(
        board.take_frontend_events(),
        vec![frontend::Event::EndGame { game_end_reason: EndGameReason::Victory }]
    );
    board.handle_event(Event::MoveHeadsTick, &mut picker);
    board.handle_event(Event::SlideMapTick, &mut picker);
    board.handle_event(Event::KillHead { id: 0 }, &mut picker);
    assert_eq!(board.get_state(), BoardState::Ending);
    assert_eq!(board.get_map().get_height(), 10);
    assert_eq!(board.get_map().get_tile(pos(5, 0)), TileType::Head { id: 0 });
    assert_eq!(board.get_heads().get(0).unwrap().get_position(), pos(5, 0));
    assert_eq!(board.get_heads().get_nb_heads(), 1);
    assert!(board.take_frontend_events().is_empty());
    assert!(board.take_board_events().is_empty());
}

#[test]
fn killing_last_head_loses() {
    let mut picker = ScriptedPicker::new(vec![]);
    let mut board = started(backend_grid(11, 10, &[]), 4, &mut picker);
    board.handle_event(Event::KillHead { id: 0 }, &mut picker);
    assert_eq!(board.get_state(), BoardState::Ending);
    assert_eq!(board.get_heads().get_nb_heads(), 0);
    assert_eq!(
        board.take_frontend_events(),
        vec![
            frontend::Event::UpdateNbHeads { nb_heads: 0 },
            frontend::Event::EndGame { game_end_reason: EndGameReason::NoRemainingHeads },
        ]
    );
}

#[test]
fn direction_change_is_announced_once() {
    let mut picker = ScriptedPicker::new(vec![]);
    let mut board = started(backend_grid(11, 10, &[]), 4, &mut picker);
    board.handle_event(Event::SetNextHeadDir { direction: Direction::Left }, &mut picker);
    board.handle_event(Event::SetNextHeadDir { direction: Direction::Left }, &mut picker);
    assert_eq!(board.get_next_direction(), Direction::Left);
    assert_eq!(board.take_frontend_events(), vec![frontend::Event::UserDirSet { direction: Direction::Left }]);
}

#[test]
fn split_event_adds_and_moves_child() {
    let mut picker = ScriptedPicker::new(vec![]);
    let mut board = started(backend_grid(11, 10, &[(5, 1, TileType::Separator)]), 4, &mut picker);
    board.handle_event(Event::MoveHeadsTick, &mut picker);
    assert!(board.take_board_events().is_empty());
    board.handle_event(Event::MoveHeadsTick, &mut picker);
    let requests = board.take_board_events();
    assert_eq!(
        requests,
        vec![Event::AddHead { position: pos(5, 1), coming_from: Direction::Down, parent_direction: Direction::Up }]
    );
    board.take_frontend_events();
    // the child is forbidden the parent's way and its own provenance; it goes by the picker
    let mut child_picker = ScriptedPicker::new(vec![Direction::Left]);
    board.handle_event(requests[0], &mut child_picker);
    assert_eq!(board.get_heads().get_nb_heads(), 2);
    let child = board.get_heads().get(1).unwrap();
    assert_eq!(child.get_id(), 1);
    assert_eq!(child.get_position(), pos(4, 1));
    assert_eq!(board.get_map().get_tile(pos(5, 1)), TileType::Marked { id: 1 });
    assert_eq!(board.get_map().get_tile(pos(4, 1)), TileType::Head { id: 1 });
    let notes = board.take_frontend_events();
    assert_eq!(notes.last(), Some(&frontend::Event::UpdateNbHeads { nb_heads: 2 }));
}

#[test]
fn registry_reuses_freed_slot() {
    let mut heads = HeadList::new();
    assert_eq!(heads.add_head(pos(0, 0), Direction::Down), 0);
    assert_eq!(heads.add_head(pos(1, 0), Direction::Down), 1);
    assert_eq!(heads.add_head(pos(2, 0), Direction::Down), 2);
    heads.remove(2);
    assert_eq!(heads.get_nb_heads(), 2);
    assert!(heads.get(2).is_none());
    assert_eq!(heads.add_head(pos(3, 0), Direction::Down), 2);
    assert_eq!(heads.get(2).unwrap().get_position(), pos(3, 0));
    assert_eq!(heads.add_head(pos(4, 0), Direction::Down), 3);
    assert_eq!(heads.get_nb_heads(), 4);
    assert_eq!(heads.slot_count(), 4);
}

#[test]
fn registry_reuses_lowest_free_slot_first() {
    let mut heads = HeadList::new();
    for i in 0..4 {
        heads.add_head(pos(i, 0), Direction::Down);
    }
    heads.remove(3);
    heads.remove(1);
    heads.remove(9);
    assert_eq!(heads.get_nb_heads(), 2);
    assert_eq!(heads.add_head(pos(7, 7), Direction::Up), 1);
    assert_eq!(heads.add_head(pos(8, 8), Direction::Up), 3);
    let live: Vec<u32> = heads.live_heads().iter().map(|h| h.get_id()).collect();
    assert_eq!(live, vec![0, 1, 2, 3]);
}
