use vstd::prelude::*;
use crate::map::TileType;
use crate::utils::Coordinates;

verus! {

/// Whether the displayed grid is sliding, and when it last slid (milliseconds on the
/// caller's clock).
#[derive(Debug, Copy, Clone, PartialEq, Eq, Structural)]
pub enum SlidingState {
    Enabled { time_since_last_slide: u64 },
    Disabled,
}

/// The presentation side's copy of the grid: the rows still kept, bottom row first, updated
/// from the controller's notifications.
pub struct GfxMap {
    sto: Vec<Vec<TileType>>,
    map_nb_visible_lines: usize,
    sliding_state: SlidingState,
}

impl GfxMap {
    pub closed spec fn rows(&self) -> Seq<Seq<TileType>> {
        self.sto@.map_values(|r: Vec<TileType>| r@)
    }

    pub closed spec fn visible_lines(&self) -> nat {
        self.map_nb_visible_lines as nat
    }

    pub closed spec fn sliding(&self) -> SlidingState {
        self.sliding_state
    }

    /// `position`, in the coordinates of the rows kept, names a cell of the copy.
    pub open spec fn holds(&self, position: Coordinates) -> bool {
        &&& position.y < self.rows().len()
        &&& position.x < self.rows()[position.y as int].len()
    }

    pub fn new(map_nb_visible_lines: usize, sto: Vec<Vec<TileType>>) -> (r: GfxMap)
        ensures
            r.rows() == sto@.map_values(|row: Vec<TileType>| row@),
            r.visible_lines() == map_nb_visible_lines,
            r.sliding() == SlidingState::Disabled,
    {
        GfxMap { sto, map_nb_visible_lines, sliding_state: SlidingState::Disabled }
    }

    /// The width of the bottom row (zero when no row is left).
    pub fn get_length(&self) -> (r: usize)
        ensures
            self.rows().len() > 0 ==> r == self.rows()[0].len(),
            self.rows().len() == 0 ==> r == 0,
    {
        if self.sto.len() == 0 {
            0
        } else {
            self.sto[0].len()
        }
    }

    /// The number of rows kept.
    pub fn get_height(&self) -> (r: usize)
        ensures
            r == self.rows().len(),
    {
        self.sto.len()
    }

    pub fn get_visible_lines(&self) -> (r: usize)
        ensures
            r == self.visible_lines(),
    {
        self.map_nb_visible_lines
    }

    pub fn get_sliding_state(&self) -> (r: SlidingState)
        ensures
            r == self.sliding(),
    {
        self.sliding_state
    }

    /// The rows kept, bottom row first.
    pub fn get_rows(&self) -> (r: &Vec<Vec<TileType>>)
        ensures
            r@.map_values(|row: Vec<TileType>| row@) == self.rows(),
    {
        &self.sto
    }

    /// Whether `position` names a cell of the copy.
    pub fn holds_position(&self, position: Coordinates) -> (r: bool)
        ensures
            r == self.holds(position),
    {
        position.y < self.sto.len() && position.x < self.sto[position.y].len()
    }

    pub fn set_tile(&mut self, position: Coordinates, tile_type: TileType)
        requires
            old(self).holds(position),
        ensures
            final(self).rows() == old(self).rows().update(
                position.y as int,
                old(self).rows()[position.y as int].update(position.x as int, tile_type),
            ),
            final(self).visible_lines() == old(self).visible_lines(),
            final(self).sliding() == old(self).sliding(),
    {
        proof {
            assert(self.rows()[position.y as int] == self.sto@[position.y as int]@);
        }
        self.sto[position.y][position.x] = tile_type;
        proof {
            assert(self.rows() =~= old(self).rows().update(
                position.y as int,
                old(self).rows()[position.y as int].update(position.x as int, tile_type),
            ));
        }
    }

    /// Starts the sliding animation at time `now`.
    pub fn start_sliding(&mut self, now: u64)
        ensures
            final(self).rows() == old(self).rows(),
            final(self).visible_lines() == old(self).visible_lines(),
            final(self).sliding() == (SlidingState::Enabled { time_since_last_slide: now }),
    {
        self.sliding_state = SlidingState::Enabled { time_since_last_slide: now };
    }

    /// Drops the bottom row, if any, at time `now`.
    pub fn slide(&mut self, now: u64)
        ensures
            final(self).rows() == if old(self).rows().len() > 0 {
                old(self).rows().drop_first()
            } else {
                old(self).rows()
            },
            final(self).visible_lines() == old(self).visible_lines(),
            final(self).sliding() == (SlidingState::Enabled { time_since_last_slide: now }),
    {
        if self.sto.len() > 0 {
            self.sto.remove(0);
            proof {
                assert(self.rows() =~= old(self).rows().drop_first());
            }
        }
        self.sliding_state = SlidingState::Enabled { time_since_last_slide: now };
    }

    /// Milliseconds since the last slide at time `now`, if the grid is sliding; a clock that
    /// went back counts as no time.
    pub fn time_since_last_slide(&self, now: u64) -> (r: Option<u64>)
        ensures
            match self.sliding() {
                SlidingState::Enabled { time_since_last_slide } => r == Some(
                    if now >= time_since_last_slide {
                        (now - time_since_last_slide) as u64
                    } else {
                        0u64
                    },
                ),
                SlidingState::Disabled => r is None,
            },
    {
        match self.sliding_state {
            SlidingState::Enabled { time_since_last_slide } => Some(now.saturating_sub(time_since_last_slide)),
            SlidingState::Disabled => None,
        }
    }

    /// The index, among the rows kept, of the arrival line, when it falls within the rows
    /// drawn (the visible ones and the one sliding in).
    pub fn arrival_line_row(&self) -> (r: Option<usize>)
        ensures
            r == if self.rows().len() >= self.visible_lines() && self.rows().len() - self.visible_lines()
                <= self.visible_lines() {
                Some((self.rows().len() - self.visible_lines()) as usize)
            } else {
                None::<usize>
            },
    {
        if self.sto.len() >= self.map_nb_visible_lines {
            let y_line = self.sto.len() - self.map_nb_visible_lines;
            if y_line <= self.map_nb_visible_lines {
                return Some(y_line);
            }
        }
        None
    }
}

} // verus!
