use vstd::prelude::*;
use crate::frontend;
use crate::heads::Id;
use crate::utils::{Coordinates, Direction};

verus! {

/// What a cell of the grid holds.
#[derive(Debug, Copy, Clone, PartialEq, Eq, Structural)]
pub enum TileType {
    /// The current cell of the live head `id`.
    Head { id: Id },
    /// A cell of the trail left by head `id`.
    Marked { id: Id },
    Free,
    Separator,
    Wall,
}

/// Why a grid could not be built from a list of rows.
#[derive(Debug, Copy, Clone, PartialEq, Eq, Structural)]
pub enum MapError {
    /// No row, or rows without a cell.
    Empty,
    /// Two rows differ in length.
    UnequalRowLengths,
}

/// The logical cell next to `p` in direction `d`, as integers (it may lie off the grid).
pub open spec fn step(p: Coordinates, d: Direction) -> (int, int) {
    match d {
        Direction::Up => (p.x as int, p.y + 1),
        Direction::Down => (p.x as int, p.y - 1),
        Direction::Right => (p.x + 1, p.y as int),
        Direction::Left => (p.x - 1, p.y as int),
    }
}

/// The grid as a mathematical value.
#[verifier::ext_equal]
pub struct MapView {
    /// The rows still kept, bottom row first; row `i` holds logical row `y_offset + i`.
    pub rows: Seq<Seq<TileType>>,
    pub width: nat,
    /// Rows of the whole map, those already dropped included.
    pub total_height: nat,
    pub visible_lines: nat,
    /// How many rows have been dropped.
    pub y_offset: nat,
    /// Notifications for the presentation side not yet taken out.
    pub notifications: Seq<frontend::Event>,
}

impl MapView {
    pub open spec fn wf(self) -> bool {
        &&& self.y_offset + self.rows.len() == self.total_height
        &&& forall|i: int| 0 <= i < self.rows.len() ==> (#[trigger] self.rows[i]).len() == self.width
    }

    /// The logical cell `(x, y)` is on a row still kept and within the width.
    pub open spec fn in_window(self, x: int, y: int) -> bool {
        &&& 0 <= x < self.width
        &&& self.y_offset <= y < self.y_offset + self.rows.len()
    }

    pub open spec fn contains(self, p: Coordinates) -> bool {
        self.in_window(p.x as int, p.y as int)
    }

    pub open spec fn tile(self, x: int, y: int) -> TileType {
        self.rows[y - self.y_offset][x]
    }

    pub open spec fn tile_at(self, p: Coordinates) -> TileType {
        self.tile(p.x as int, p.y as int)
    }

    /// The grid after writing `t` at the logical position `p`, with its notification.
    pub open spec fn with_tile(self, p: Coordinates, t: TileType) -> MapView {
        let r = p.y - self.y_offset;
        MapView {
            rows: self.rows.update(r, self.rows[r].update(p.x as int, t)),
            notifications: self.notifications.push(
                frontend::Event::SetTile { position: Coordinates { x: p.x, y: r as usize }, tile_type: t },
            ),
            ..self
        }
    }

    /// The grid after dropping its bottom row.
    pub open spec fn slid(self) -> MapView {
        MapView {
            rows: self.rows.drop_first(),
            y_offset: self.y_offset + 1,
            notifications: self.notifications.push(frontend::Event::NewMapLine),
            ..self
        }
    }

    /// The logical row that a head must reach to win.
    pub open spec fn arrival_line(self) -> int {
        self.total_height - self.visible_lines
    }

    /// The bottom row, the next to be dropped, holds a live head.
    pub open spec fn head_on_bottom_row(self) -> bool {
        &&& self.rows.len() > 0
        &&& exists|x: int| 0 <= x < self.rows[0].len() && (#[trigger] self.rows[0][x]) is Head
    }
}

/// The tile grid: a window of rows over a taller map, which slides up one row at a time.
pub struct GameMap {
    sto: Vec<Vec<TileType>>,
    width: usize,
    total_height: usize,
    map_nb_visible_lines: usize,
    y_offset: usize,
    notifications: Vec<frontend::Event>,
}

impl View for GameMap {
    type V = MapView;

    closed spec fn view(&self) -> MapView {
        MapView {
            rows: self.sto@.map_values(|r: Vec<TileType>| r@),
            width: self.width as nat,
            total_height: self.total_height as nat,
            visible_lines: self.map_nb_visible_lines as nat,
            y_offset: self.y_offset as nat,
            notifications: self.notifications@,
        }
    }
}

impl GameMap {
    pub closed spec fn wf(&self) -> bool {
        self@.wf()
    }

    /// Builds the grid from its rows, bottom row first. All rows must be equally long and
    /// hold at least one cell.
    pub fn new(sto: Vec<Vec<TileType>>, map_nb_visible_lines: usize) -> (r: Result<GameMap, MapError>)
        ensures
            (sto@.len() == 0 || sto@[0]@.len() == 0) ==> r == Err::<GameMap, MapError>(MapError::Empty),
            (sto@.len() > 0 && sto@[0]@.len() > 0) ==> match r {
                Ok(m) => {
                    &&& forall|i: int| 0 <= i < sto@.len() ==> (#[trigger] sto@[i])@.len() == sto@[0]@.len()
                    &&& m.wf()
                    &&& m@.rows == sto@.map_values(|row: Vec<TileType>| row@)
                    &&& m@.width == sto@[0]@.len()
                    &&& m@.total_height == sto@.len()
                    &&& m@.visible_lines == map_nb_visible_lines
                    &&& m@.y_offset == 0
                    &&& m@.notifications == Seq::<frontend::Event>::empty()
                },
                Err(e) => {
                    &&& e == MapError::UnequalRowLengths
                    &&& exists|i: int| 0 <= i < sto@.len() && (#[trigger] sto@[i])@.len() != sto@[0]@.len()
                },
            },
    {
        if sto.len() == 0 || sto[0].len() == 0 {
            return Err(MapError::Empty);
        }
        let width = sto[0].len();
        let mut i: usize = 0;
        while i < sto.len()
            invariant
                0 <= i <= sto@.len(),
                sto@.len() > 0,
                width == sto@[0]@.len(),
                width > 0,
                forall|j: int| 0 <= j < i ==> (#[trigger] sto@[j])@.len() == width,
            decreases sto@.len() - i,
        {
            if sto[i].len() != width {
                return Err(MapError::UnequalRowLengths);
            }
            i = i + 1;
        }
        let total_height = sto.len();
        let m = GameMap {
            sto,
            width,
            total_height,
            map_nb_visible_lines,
            y_offset: 0,
            notifications: Vec::new(),
        };
        assert(m@.wf());
        Ok(m)
    }

    pub fn get_length(&self) -> (r: usize)
        ensures
            r == self@.width,
    {
        self.width
    }

    /// The number of rows still kept.
    pub fn get_height(&self) -> (r: usize)
        requires
            self.wf(),
        ensures
            r == self@.rows.len(),
    {
        self.sto.len()
    }

    pub fn get_visible_lines(&self) -> (r: usize)
        ensures
            r == self@.visible_lines,
    {
        self.map_nb_visible_lines
    }

    /// Whether the logical cell `(x, y)` is on a row still kept and within the width.
    pub fn in_window(&self, x: usize, y: usize) -> (r: bool)
        requires
            self.wf(),
        ensures
            r == self@.in_window(x as int, y as int),
    {
        x < self.width && self.y_offset <= y && y < self.total_height
    }

    pub fn get_tile(&self, position: Coordinates) -> (r: TileType)
        requires
            self.wf(),
            self@.contains(position),
        ensures
            r == self@.tile_at(position),
    {
        self.sto[position.y - self.y_offset][position.x]
    }

    /// Writes `tile_type` at a logical position and records the notification.
    pub fn set_tile(&mut self, position: Coordinates, tile_type: TileType)
        requires
            old(self).wf(),
            old(self)@.contains(position),
        ensures
            final(self).wf(),
            final(self)@ == old(self)@.with_tile(position, tile_type),
    {
        let row = position.y - self.y_offset;
        proof {
            assert(self@.rows[row as int] == self.sto@[row as int]@);
        }
        self.sto[row][position.x] = tile_type;
        let local = Coordinates { x: position.x, y: row };
        self.notifications.push(frontend::Event::SetTile { position: local, tile_type });
        proof {
            let v = old(self)@.with_tile(position, tile_type);
            assert(self@.rows =~= v.rows);
            assert(self@ =~= v);
        }
    }

    /// The tile next to `position` in `direction` and its logical position, or `None` where
    /// that cell is off the map or on a row already dropped.
    pub fn get_neighbour_tile(&self, position: Coordinates, direction: Direction) -> (r: Option<(TileType, Coordinates)>)
        requires
            self.wf(),
        ensures
            match r {
                None => !self@.in_window(step(position, direction).0, step(position, direction).1),
                Some((t, p)) => {
                    &&& self@.in_window(step(position, direction).0, step(position, direction).1)
                    &&& p.x == step(position, direction).0
                    &&& p.y == step(position, direction).1
                    &&& t == self@.tile_at(p)
                },
            },
    {
        let target = match direction {
            Direction::Up => if position.y < usize::MAX {
                Some(Coordinates { x: position.x, y: position.y + 1 })
            } else {
                None
            },
            Direction::Down => if position.y > 0 {
                Some(Coordinates { x: position.x, y: position.y - 1 })
            } else {
                None
            },
            Direction::Right => if position.x < usize::MAX {
                Some(Coordinates { x: position.x + 1, y: position.y })
            } else {
                None
            },
            Direction::Left => if position.x > 0 {
                Some(Coordinates { x: position.x - 1, y: position.y })
            } else {
                None
            },
        };
        match target {
            Some(p) => {
                if self.in_window(p.x, p.y) {
                    Some((self.get_tile(p), p))
                } else {
                    None
                }
            },
            None => None,
        }
    }

    /// Whether `position` lies on the arrival line.
    pub fn is_on_arrival_line(&self, position: Coordinates) -> (r: bool)
        ensures
            r == (position.y == self@.arrival_line()),
    {
        self.total_height >= self.map_nb_visible_lines && position.y == self.total_height
            - self.map_nb_visible_lines
    }

    /// Whether the bottom row, the next to be dropped, holds a live head.
    pub fn will_head_pop_out_during_next_sliding(&self) -> (r: bool)
        requires
            self.wf(),
        ensures
            r == self@.head_on_bottom_row(),
    {
        if self.sto.len() == 0 {
            return false;
        }
        let next_line_to_pop_out = &self.sto[0];
        let mut x: usize = 0;
        while x < next_line_to_pop_out.len()
            invariant
                self.wf(),
                self.sto@.len() > 0,
                *next_line_to_pop_out == self.sto@[0],
                0 <= x <= next_line_to_pop_out@.len(),
                forall|j: int| 0 <= j < x ==> !(#[trigger] self@.rows[0][j] is Head),
            decreases next_line_to_pop_out@.len() - x,
        {
            if let TileType::Head { .. } = next_line_to_pop_out[x] {
                assert(self@.rows[0][x as int] is Head);
                return true;
            }
            x = x + 1;
        }
        false
    }

    /// Drops the bottom row. The caller makes sure no live head stands on it.
    pub fn slide(&mut self)
        requires
            old(self).wf(),
            old(self)@.rows.len() > 0,
            !old(self)@.head_on_bottom_row(),
        ensures
            final(self).wf(),
            final(self)@ == old(self)@.slid(),
    {
        self.sto.remove(0);
        self.y_offset = self.y_offset + 1;
        self.notifications.push(frontend::Event::NewMapLine);
        proof {
            let v = old(self)@.slid();
            assert(self@.rows =~= v.rows);
            assert(self@ =~= v);
        }
    }

    /// Hands out the notifications recorded so far, oldest first, and forgets them.
    pub fn take_notifications(&mut self) -> (r: Vec<frontend::Event>)
        requires
            old(self).wf(),
        ensures
            final(self).wf(),
            r@ == old(self)@.notifications,
            final(self)@ == (MapView { notifications: Seq::empty(), ..old(self)@ }),
    {
        let mut r: Vec<frontend::Event> = Vec::new();
        std::mem::swap(&mut r, &mut self.notifications);
        proof {
            assert(self@ =~= (MapView { notifications: Seq::empty(), ..old(self)@ }));
        }
        r
    }
}

} // verus!
