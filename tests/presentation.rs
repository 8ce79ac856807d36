use ruthless_flow::backend::{EndGameReason, Event as BoardEvent};
use ruthless_flow::end_game_box::EndGameBox;
use ruthless_flow::file_parsing::{parse_map, read_char, MapFileError, ReadingResult};
use ruthless_flow::frontend::{Event, FrontendModel, FrontendState};
use ruthless_flow::game_info::{clock_digits, direction_arrow, GameInfoGfx, TimerState};
use ruthless_flow::gfx_map::{GfxMap, SlidingState};
use ruthless_flow::map::TileType;
use ruthless_flow::startup_screen::StartupScreen;
use ruthless_flow::utils::{Coordinates, Direction};

fn rows3() -> Vec<Vec<TileType>> {
    vec![vec![TileType::Free; 3], vec![TileType::Wall; 3], vec![TileType::Separator; 3]]
}

#[test]
fn end_game_box_texts() {
    let mut b = EndGameBox::new();
    assert_eq!(b.get_end_game_reason(), None);
    assert_eq!(b.get_title(), "");
    b.update_end_game_reason(EndGameReason::Victory);
    assert_eq!(b.get_title(), "VICTORY !");
    assert_eq!(b.get_description(), "One of your heads has reached the arrival line");
    b.update_end_game_reason(EndGameReason::NoRemainingHeads);
    assert_eq!(b.get_title(), "DEFEAT !");
    assert_eq!(b.get_description(), "Your have no more heads");
    b.update_end_game_reason(EndGameReason::HeadPoppedOutByRisingEdge);
    assert_eq!(b.get_end_game_reason(), Some(EndGameReason::HeadPoppedOutByRisingEdge));
    assert_eq!(b.get_description(), "The rising edge has killed one of your heads");
}

#[test]
fn game_info_clock_freezes() {
    let mut g = GameInfoGfx::new();
    assert_eq!(g.get_timer_state(), TimerState::Disabled);
    assert_eq!(g.elapsed(5000), 0);
    g.freeze_timer(10);
    assert_eq!(g.get_timer_state(), TimerState::Disabled);
    g.start_timer(1000);
    assert_eq!(g.elapsed(3500), 2500);
    assert_eq!(g.elapsed(500), 0);
    g.freeze_timer(4000);
    assert_eq!(g.get_timer_state(), TimerState::Frozen { time_elapsed_when_frozen: 3000 });
    assert_eq!(g.elapsed(99999), 3000);
    g.update_nb_heads(3);
    g.set_user_direction(Direction::Left);
    assert_eq!(g.get_nb_heads(), 3);
    assert_eq!(g.get_user_direction(), Direction::Left);
}

#[test]
fn clock_digits_split_milliseconds() {
    assert_eq!(clock_digits(3_723_456), (2, 3, 45));
    assert_eq!(clock_digits(59_999), (0, 59, 99));
    assert_eq!(clock_digits(0), (0, 0, 0));
    assert_eq!(direction_arrow(Direction::Up), '\u{2191}');
    assert_eq!(direction_arrow(Direction::Left), '\u{2190}');
}

#[test]
fn gfx_map_follows_notifications() {
    let mut m = GfxMap::new(1, rows3());
    assert_eq!(m.get_sliding_state(), SlidingState::Disabled);
    assert_eq!(m.get_length(), 3);
    assert_eq!(m.get_height(), 3);
    // 3 rows kept, 1 visible: the arrival line (row 2) is beyond the rows drawn
    assert_eq!(m.arrival_line_row(), None);
    m.set_tile(Coordinates { x: 1, y: 0 }, TileType::Head { id: 0 });
    assert_eq!(m.get_rows()[0][1], TileType::Head { id: 0 });
    m.start_sliding(100);
    assert_eq!(m.time_since_last_slide(160), Some(60));
    m.slide(200);
    assert_eq!(m.get_height(), 2);
    assert_eq!(m.get_rows()[0][0], TileType::Wall);
    assert_eq!(m.arrival_line_row(), Some(1));
    assert_eq!(m.get_sliding_state(), SlidingState::Enabled { time_since_last_slide: 200 });
}

#[test]
fn frontend_model_applies_events() {
    let mut model = FrontendModel::new(GfxMap::new(2, rows3()));
    let _screen = StartupScreen::new();
    assert_eq!(model.current_game_stage, FrontendState::Startup);
    assert_eq!(model.start_game(50), BoardEvent::StartGame);
    assert_eq!(model.current_game_stage, FrontendState::Playing);
    assert!(!model.apply(Event::SetTile { position: Coordinates { x: 2, y: 1 }, tile_type: TileType::Marked { id: 1 } }, 60));
    assert_eq!(model.gfx_map.get_rows()[1][2], TileType::Marked { id: 1 });
    assert!(!model.apply(Event::SetTile { position: Coordinates { x: 9, y: 9 }, tile_type: TileType::Free }, 60));
    assert!(!model.apply(Event::UpdateNbHeads { nb_heads: 4 }, 70));
    assert_eq!(model.game_info_gfx.get_nb_heads(), 4);
    assert!(!model.apply(Event::UserDirSet { direction: Direction::Right }, 80));
    assert_eq!(model.game_info_gfx.get_user_direction(), Direction::Right);
    assert!(!model.apply(Event::NewMapLine, 90));
    assert_eq!(model.gfx_map.get_height(), 2);
    assert!(model.apply(Event::EndGame { game_end_reason: EndGameReason::Victory }, 1050));
    assert_eq!(model.current_game_stage, FrontendState::Ending);
    assert_eq!(model.game_info_gfx.get_timer_state(), TimerState::Frozen { time_elapsed_when_frozen: 1000 });
    assert_eq!(model.end_game_box.get_title(), "VICTORY !");
}

#[test]
fn read_char_knows_the_alphabet() {
    assert_eq!(read_char('\u{25A3}'), Some(ReadingResult::Tile(TileType::Wall)));
    assert_eq!(read_char('\u{25A2}'), Some(ReadingResult::Tile(TileType::Free)));
    assert_eq!(read_char('\u{25A4}'), Some(ReadingResult::Tile(TileType::Separator)));
    assert_eq!(read_char('\n'), Some(ReadingResult::NewLine));
    assert_eq!(read_char('\r'), Some(ReadingResult::Ignored));
    assert_eq!(read_char('x'), None);
}

#[test]
fn parse_map_puts_last_line_at_bottom() {
    let text = "\u{25A3}\u{25A2}\r\n\u{25A4}\u{25A2}\n\u{25A2}";
    let rows = parse_map(text).unwrap();
    assert_eq!(
        rows,
        vec![vec![TileType::Separator, TileType::Free], vec![TileType::Wall, TileType::Free]]
    );
    assert_eq!(parse_map("").unwrap(), Vec::<Vec<TileType>>::new());
}

#[test]
fn parse_map_reports_first_error() {
    assert_eq!(
        parse_map("\u{25A2}\u{25A2}\n\u{25A2}\n#"),
        Err(MapFileError::UnequalLineLengths)
    );
    assert_eq!(
        parse_map("\u{25A2}#\n\u{25A2}\n"),
        Err(MapFileError::UnknownCharacter { character: '#' })
    );
}
