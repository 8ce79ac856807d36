use vstd::prelude::*;

verus! {

/// One of the four moves a head can make on the grid; `Up` goes toward the arrival line.
#[derive(Debug, Copy, Clone, PartialEq, Eq, Structural)]
pub enum Direction {
    Up,
    Down,
    Right,
    Left,
}

/// The direction pointing the other way.
pub open spec fn opposite(d: Direction) -> Direction {
    match d {
        Direction::Up => Direction::Down,
        Direction::Down => Direction::Up,
        Direction::Right => Direction::Left,
        Direction::Left => Direction::Right,
    }
}

impl Direction {
    pub fn reverse(&self) -> (r: Direction)
        ensures
            r == opposite(*self),
    {
        match self {
            Direction::Down => Direction::Up,
            Direction::Up => Direction::Down,
            Direction::Right => Direction::Left,
            Direction::Left => Direction::Right,
        }
    }
}

/// A set of directions, one flag per direction.
#[derive(Debug, Copy, Clone, PartialEq, Eq, Structural)]
pub struct DirectionFlags {
    pub up: bool,
    pub down: bool,
    pub right: bool,
    pub left: bool,
}

impl View for DirectionFlags {
    type V = Set<Direction>;

    open spec fn view(&self) -> Set<Direction> {
        Set::new(|d: Direction| self.has(d))
    }
}

impl DirectionFlags {
    pub open spec fn has(self, d: Direction) -> bool {
        match d {
            Direction::Up => self.up,
            Direction::Down => self.down,
            Direction::Right => self.right,
            Direction::Left => self.left,
        }
    }

    /// How many of the four directions are in the set.
    pub open spec fn count(self) -> nat {
        (if self.up { 1nat } else { 0nat }) + (if self.down { 1nat } else { 0nat }) + (if self.right {
            1nat
        } else {
            0nat
        }) + (if self.left { 1nat } else { 0nat })
    }

    pub open spec fn is_full(self) -> bool {
        self.up && self.down && self.right && self.left
    }

    pub fn empty() -> (r: DirectionFlags)
        ensures
            r@ == Set::<Direction>::empty(),
            r.count() == 0,
    {
        let r = DirectionFlags { up: false, down: false, right: false, left: false };
        assert(r@ =~= Set::<Direction>::empty());
        r
    }

    /// The set holding `d` alone.
    pub fn from_direction(d: Direction) -> (r: DirectionFlags)
        ensures
            r@ == set![d],
            r.count() == 1,
    {
        let mut r = DirectionFlags::empty();
        r.insert(d);
        assert(r@ =~= set![d]);
        r
    }

    pub fn contains(&self, d: Direction) -> (r: bool)
        ensures
            r == self@.contains(d),
    {
        match d {
            Direction::Up => self.up,
            Direction::Down => self.down,
            Direction::Right => self.right,
            Direction::Left => self.left,
        }
    }

    pub fn insert(&mut self, d: Direction)
        ensures
            final(self)@ == old(self)@.insert(d),
            final(self).count() == if old(self)@.contains(d) {
                old(self).count()
            } else {
                old(self).count() + 1
            },
    {
        match d {
            Direction::Up => self.up = true,
            Direction::Down => self.down = true,
            Direction::Right => self.right = true,
            Direction::Left => self.left = true,
        }
        assert(self@ =~= old(self)@.insert(d));
    }

    pub fn is_all(&self) -> (r: bool)
        ensures
            r == self.is_full(),
    {
        self.up && self.down && self.right && self.left
    }
}

/// Every direction is in the set exactly when all four flags are set, that is when it
/// counts four directions.
pub proof fn lemma_full_iff_count(f: DirectionFlags)
    ensures
        f.is_full() <==> f.count() == 4,
        f.count() <= 4,
        f.is_full() <==> (forall|d: Direction| #[trigger] f@.contains(d)),
{
    if !f.is_full() {
        let d = if !f.up {
            Direction::Up
        } else if !f.down {
            Direction::Down
        } else if !f.right {
            Direction::Right
        } else {
            Direction::Left
        };
        assert(!f@.contains(d));
    }
}

/// Adding a direction that was not in the set counts one more.
pub proof fn lemma_insert_count(before: DirectionFlags, after: DirectionFlags, d: Direction)
    requires
        !before@.contains(d),
        after@ == before@.insert(d),
    ensures
        after.count() == before.count() + 1,
{
    assert(after@.contains(Direction::Up) == after.up);
    assert(after@.contains(Direction::Down) == after.down);
    assert(after@.contains(Direction::Right) == after.right);
    assert(after@.contains(Direction::Left) == after.left);
    assert(before@.contains(Direction::Up) == before.up);
    assert(before@.contains(Direction::Down) == before.down);
    assert(before@.contains(Direction::Right) == before.right);
    assert(before@.contains(Direction::Left) == before.left);
}

/// A logical position on the grid; `y` counts rows from the bottom of the whole map.
#[derive(Debug, Copy, Clone, PartialEq, Eq, Structural)]
pub struct Coordinates {
    pub x: usize,
    pub y: usize,
}

} // verus!
