use vstd::prelude::*;
use crate::backend::{self, EndGameReason};
use crate::end_game_box::{EndGameBox, description_for, title_for};
use crate::game_info::{GameInfoGfx, TimerState, elapsed_between};
use crate::gfx_map::{GfxMap, SlidingState};
use crate::map::TileType;
use crate::startup_screen::StartupScreen;
use crate::utils::{Coordinates, Direction};

verus! {

/// A notification for the presentation side: what it must change in what it shows.
#[derive(Debug, Copy, Clone, PartialEq, Eq, Structural)]
pub enum Event {
    /// The bottom row slid out of view.
    NewMapLine,
    /// One cell changed; `position` is in the coordinates of the rows still kept.
    SetTile { position: Coordinates, tile_type: TileType },
    /// The direction proposed to the heads changed.
    UserDirSet { direction: Direction },
    UpdateNbHeads { nb_heads: usize },
    EndGame { game_end_reason: EndGameReason },
}

/// Which screen the presentation side shows.
#[derive(Debug, Copy, Clone, PartialEq, Eq, Structural)]
pub enum FrontendState {
    Startup,
    Playing,
    Ending,
}

/// What the presentation side shows, kept up to date from the controller's notifications.
/// Times are milliseconds on the caller's clock.
pub struct FrontendModel {
    pub gfx_map: GfxMap,
    pub game_info_gfx: GameInfoGfx,
    pub startup_screen: StartupScreen,
    pub end_game_box: EndGameBox,
    pub current_game_stage: FrontendState,
}

impl FrontendModel {
    pub fn new(gfx_map: GfxMap) -> (r: FrontendModel)
        ensures
            r.gfx_map == gfx_map,
            r.game_info_gfx.direction() == Direction::Up,
            r.game_info_gfx.timer() == TimerState::Disabled,
            r.game_info_gfx.heads() == 0,
            r.end_game_box.reason() is None,
            r.current_game_stage == FrontendState::Startup,
    {
        FrontendModel {
            gfx_map,
            game_info_gfx: GameInfoGfx::new(),
            startup_screen: StartupScreen::new(),
            end_game_box: EndGameBox::new(),
            current_game_stage: FrontendState::Startup,
        }
    }

    pub fn trigger_game_ending_screen(&mut self)
        ensures
            final(self).current_game_stage == FrontendState::Ending,
            final(self).gfx_map == old(self).gfx_map,
            final(self).game_info_gfx == old(self).game_info_gfx,
            final(self).end_game_box == old(self).end_game_box,
    {
        self.current_game_stage = FrontendState::Ending;
    }

    /// Starts the game at time `now`: the grid starts sliding, the clock starts, and the
    /// returned event is the one to send to the controller.
    pub fn start_game(&mut self, now: u64) -> (r: backend::Event)
        ensures
            r == backend::Event::StartGame,
            final(self).current_game_stage == FrontendState::Playing,
            final(self).gfx_map.rows() == old(self).gfx_map.rows(),
            final(self).gfx_map.visible_lines() == old(self).gfx_map.visible_lines(),
            final(self).gfx_map.sliding() == (SlidingState::Enabled { time_since_last_slide: now }),
            final(self).game_info_gfx.timer() == (TimerState::Enabled { init_time: now }),
            final(self).game_info_gfx.direction() == old(self).game_info_gfx.direction(),
            final(self).game_info_gfx.heads() == old(self).game_info_gfx.heads(),
            final(self).end_game_box == old(self).end_game_box,
    {
        self.gfx_map.start_sliding(now);
        self.game_info_gfx.start_timer(now);
        self.current_game_stage = FrontendState::Playing;
        backend::Event::StartGame
    }

    /// Applies one notification at time `now`; returns whether the game ended, after which
    /// no further notification should be applied. A cell outside the copy is left alone.
    pub fn apply(&mut self, evt: Event, now: u64) -> (r: bool)
        ensures
            r == (evt is EndGame),
            match evt {
                Event::NewMapLine => {
                    &&& final(self).gfx_map.rows() == if old(self).gfx_map.rows().len() > 0 {
                        old(self).gfx_map.rows().drop_first()
                    } else {
                        old(self).gfx_map.rows()
                    }
                    &&& final(self).gfx_map.sliding() == (SlidingState::Enabled {
                        time_since_last_slide: now,
                    })
                    &&& final(self).gfx_map.visible_lines() == old(self).gfx_map.visible_lines()
                    &&& final(self).game_info_gfx == old(self).game_info_gfx
                    &&& final(self).end_game_box == old(self).end_game_box
                    &&& final(self).current_game_stage == old(self).current_game_stage
                },
                Event::SetTile { position, tile_type } => {
                    &&& old(self).gfx_map.holds(position) ==> final(self).gfx_map.rows()
                        == old(self).gfx_map.rows().update(
                        position.y as int,
                        old(self).gfx_map.rows()[position.y as int].update(position.x as int, tile_type),
                    )
                    &&& !old(self).gfx_map.holds(position) ==> final(self).gfx_map.rows()
                        == old(self).gfx_map.rows()
                    &&& final(self).gfx_map.sliding() == old(self).gfx_map.sliding()
                    &&& final(self).gfx_map.visible_lines() == old(self).gfx_map.visible_lines()
                    &&& final(self).game_info_gfx == old(self).game_info_gfx
                    &&& final(self).end_game_box == old(self).end_game_box
                    &&& final(self).current_game_stage == old(self).current_game_stage
                },
                Event::UserDirSet { direction } => {
                    &&& final(self).game_info_gfx.direction() == direction
                    &&& final(self).game_info_gfx.heads() == old(self).game_info_gfx.heads()
                    &&& final(self).game_info_gfx.timer() == old(self).game_info_gfx.timer()
                    &&& final(self).gfx_map == old(self).gfx_map
                    &&& final(self).end_game_box == old(self).end_game_box
                    &&& final(self).current_game_stage == old(self).current_game_stage
                },
                Event::UpdateNbHeads { nb_heads } => {
                    &&& final(self).game_info_gfx.heads() == nb_heads
                    &&& final(self).game_info_gfx.direction() == old(self).game_info_gfx.direction()
                    &&& final(self).game_info_gfx.timer() == old(self).game_info_gfx.timer()
                    &&& final(self).gfx_map == old(self).gfx_map
                    &&& final(self).end_game_box == old(self).end_game_box
                    &&& final(self).current_game_stage == old(self).current_game_stage
                },
                Event::EndGame { game_end_reason } => {
                    &&& final(self).end_game_box.reason() == Some(game_end_reason)
                    &&& final(self).end_game_box.title() == Some(title_for(game_end_reason))
                    &&& final(self).end_game_box.description() == Some(description_for(game_end_reason))
                    &&& match old(self).game_info_gfx.timer() {
                        TimerState::Enabled { init_time } => final(self).game_info_gfx.timer() == (
                        TimerState::Frozen { time_elapsed_when_frozen: elapsed_between(init_time, now) }),
                        _ => final(self).game_info_gfx.timer() == old(self).game_info_gfx.timer(),
                    }
                    &&& final(self).game_info_gfx.direction() == old(self).game_info_gfx.direction()
                    &&& final(self).game_info_gfx.heads() == old(self).game_info_gfx.heads()
                    &&& final(self).gfx_map == old(self).gfx_map
                    &&& final(self).current_game_stage == FrontendState::Ending
                },
            },
    {
        match evt {
            Event::NewMapLine => {
                self.gfx_map.slide(now);
                false
            },
            Event::SetTile { position, tile_type } => {
                if self.gfx_map.holds_position(position) {
                    self.gfx_map.set_tile(position, tile_type);
                }
                false
            },
            Event::UserDirSet { direction } => {
                self.game_info_gfx.set_user_direction(direction);
                false
            },
            Event::UpdateNbHeads { nb_heads } => {
                self.game_info_gfx.update_nb_heads(nb_heads);
                false
            },
            Event::EndGame { game_end_reason } => {
                self.end_game_box.update_end_game_reason(game_end_reason);
                self.game_info_gfx.freeze_timer(now);
                self.trigger_game_ending_screen();
                true
            },
        }
    }
}

} // verus!
