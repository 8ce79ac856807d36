use vstd::prelude::*;
use crate::utils::Direction;

verus! {

/// The game clock; times are milliseconds on the caller's clock.
#[derive(Debug, Copy, Clone, PartialEq, Eq, Structural)]
pub enum TimerState {
    Enabled { init_time: u64 },
    Frozen { time_elapsed_when_frozen: u64 },
    Disabled,
}

/// `later - earlier`, or zero when the clock went back.
pub open spec fn elapsed_between(earlier: u64, later: u64) -> u64 {
    if later >= earlier {
        (later - earlier) as u64
    } else {
        0
    }
}

/// Minutes (modulo an hour), seconds and hundredths of a second in `ms` milliseconds.
pub open spec fn clock_fields(ms: u64) -> (u64, u64, u64) {
    (((ms / 60000) % 60) as u64, ((ms / 1000) % 60) as u64, ((ms / 10) % 100) as u64)
}

/// The side panel's state: the proposed direction, the clock and the number of heads.
pub struct GameInfoGfx {
    direction: Direction,
    timer_state: TimerState,
    nb_heads: usize,
}

impl GameInfoGfx {
    pub closed spec fn direction(&self) -> Direction {
        self.direction
    }

    pub closed spec fn timer(&self) -> TimerState {
        self.timer_state
    }

    pub closed spec fn heads(&self) -> nat {
        self.nb_heads as nat
    }

    pub fn new() -> (r: GameInfoGfx)
        ensures
            r.direction() == Direction::Up,
            r.timer() == TimerState::Disabled,
            r.heads() == 0,
    {
        GameInfoGfx { direction: Direction::Up, timer_state: TimerState::Disabled, nb_heads: 0 }
    }

    /// Starts the clock at time `now`.
    pub fn start_timer(&mut self, now: u64)
        ensures
            final(self).timer() == (TimerState::Enabled { init_time: now }),
            final(self).direction() == old(self).direction(),
            final(self).heads() == old(self).heads(),
    {
        self.timer_state = TimerState::Enabled { init_time: now };
    }

    /// Stops a running clock at time `now`, keeping the time it shows.
    pub fn freeze_timer(&mut self, now: u64)
        ensures
            match old(self).timer() {
                TimerState::Enabled { init_time } => final(self).timer() == (TimerState::Frozen {
                    time_elapsed_when_frozen: elapsed_between(init_time, now),
                }),
                _ => final(self).timer() == old(self).timer(),
            },
            final(self).direction() == old(self).direction(),
            final(self).heads() == old(self).heads(),
    {
        if let TimerState::Enabled { init_time } = self.timer_state {
            self.timer_state = TimerState::Frozen {
                time_elapsed_when_frozen: now.saturating_sub(init_time),
            };
        }
    }

    /// The time the clock shows at time `now`, in milliseconds.
    pub fn elapsed(&self, now: u64) -> (r: u64)
        ensures
            r == match self.timer() {
                TimerState::Enabled { init_time } => elapsed_between(init_time, now),
                TimerState::Frozen { time_elapsed_when_frozen } => time_elapsed_when_frozen,
                TimerState::Disabled => 0,
            },
    {
        match self.timer_state {
            TimerState::Enabled { init_time } => now.saturating_sub(init_time),
            TimerState::Frozen { time_elapsed_when_frozen } => time_elapsed_when_frozen,
            TimerState::Disabled => 0,
        }
    }

    pub fn update_nb_heads(&mut self, nb_heads: usize)
        ensures
            final(self).heads() == nb_heads,
            final(self).direction() == old(self).direction(),
            final(self).timer() == old(self).timer(),
    {
        self.nb_heads = nb_heads;
    }

    pub fn get_nb_heads(&self) -> (r: usize)
        ensures
            r == self.heads(),
    {
        self.nb_heads
    }

    pub fn set_user_direction(&mut self, direction: Direction)
        ensures
            final(self).direction() == direction,
            final(self).heads() == old(self).heads(),
            final(self).timer() == old(self).timer(),
    {
        self.direction = direction;
    }

    pub fn get_user_direction(&self) -> (r: Direction)
        ensures
            r == self.direction(),
    {
        self.direction
    }

    pub fn get_timer_state(&self) -> (r: TimerState)
        ensures
            r == self.timer(),
    {
        self.timer_state
    }
}

/// Splits `ms` milliseconds into the fields the clock shows: minutes (modulo an hour),
/// seconds and hundredths.
pub fn clock_digits(ms: u64) -> (r: (u64, u64, u64))
    ensures
        r == clock_fields(ms),
{
    ((ms / 60000) % 60, (ms / 1000) % 60, (ms / 10) % 100)
}

/// The arrow drawn for a direction.
pub fn direction_arrow(direction: Direction) -> (r: char)
    ensures
        r == match direction {
            Direction::Up => '\u{2191}',
            Direction::Down => '\u{2193}',
            Direction::Right => '\u{2192}',
            Direction::Left => '\u{2190}',
        },
{
    match direction {
        Direction::Up => '\u{2191}',
        Direction::Down => '\u{2193}',
        Direction::Right => '\u{2192}',
        Direction::Left => '\u{2190}',
    }
}

} // verus!
