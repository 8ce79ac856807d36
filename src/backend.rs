use vstd::prelude::*;
use crate::direction_picker::DirectionSource;
use crate::frontend;
use crate::head_list::{HeadList, is_first_free, live_count};
use crate::heads::{HeadView, Id, head_moved};
use crate::map::{GameMap, MapView, TileType};
use crate::utils::{Coordinates, Direction, DirectionFlags};

verus! {

/// Why a game ended.
#[derive(Debug, Copy, Clone, PartialEq, Eq, Structural)]
pub enum EndGameReason {
    Victory,
    NoRemainingHeads,
    HeadPoppedOutByRisingEdge,
}

/// An event for the controller: ticks, input, and requests that heads address to it.
#[derive(Debug, Copy, Clone, PartialEq, Eq, Structural)]
pub enum Event {
    SlideMapTick,
    KillHead { id: Id },
    AddHead { position: Coordinates, coming_from: Direction, parent_direction: Direction },
    MoveHeadsTick,
    SetNextHeadDir { direction: Direction },
    StartGame,
    EndGame { end_game_reason: EndGameReason },
}

/// The controller's top-level state; `Ending` is final.
#[derive(Debug, Copy, Clone, PartialEq, Eq, Structural)]
pub enum BoardState {
    Startup,
    Playing,
    Ending,
}

/// The controller as a mathematical value.
pub struct BackendView {
    pub map: MapView,
    pub heads: Seq<Option<HeadView>>,
    /// The direction proposed to the heads on the next movement tick.
    pub next_direction: Direction,
    pub state: BoardState,
    /// Notifications for the presentation side not yet taken out, oldest first.
    pub frontend_events: Seq<frontend::Event>,
    /// Events that heads addressed to the controller, not yet taken out.
    pub board_events: Seq<Event>,
    /// The tick generators were asked for and not yet started.
    pub timers_requested: bool,
}

/// The grid with its notifications taken out.
pub open spec fn quiet(m: MapView) -> MapView {
    MapView { notifications: Seq::empty(), ..m }
}

/// Where the first head starts: the middle of the bottom row.
pub open spec fn first_head_position(m: MapView) -> Coordinates {
    Coordinates { x: (m.width / 2) as usize, y: 0 }
}

/// The controller after the game ended for `reason`.
pub open spec fn ended(b: BackendView, reason: EndGameReason) -> BackendView {
    BackendView {
        state: BoardState::Ending,
        frontend_events: b.frontend_events.push(frontend::Event::EndGame { game_end_reason: reason }),
        ..b
    }
}

/// The controller after a slide tick: a loss if a head stands on the bottom row, otherwise
/// the grid slides (when it still has a row).
pub open spec fn slid(b: BackendView) -> BackendView {
    if b.map.head_on_bottom_row() {
        ended(b, EndGameReason::HeadPoppedOutByRisingEdge)
    } else if b.map.rows.len() > 0 {
        BackendView {
            map: quiet(b.map.slid()),
            frontend_events: b.frontend_events + b.map.slid().notifications,
            ..b
        }
    } else {
        b
    }
}

/// The controller after the player proposed `direction`.
pub open spec fn direction_set(b: BackendView, direction: Direction) -> BackendView {
    if direction != b.next_direction {
        BackendView {
            next_direction: direction,
            frontend_events: b.frontend_events.push(frontend::Event::UserDirSet { direction }),
            ..b
        }
    } else {
        b
    }
}

/// The controller after head `id` died: its slot is freed, the new count is announced, and
/// the game is lost when no head is left.
pub open spec fn killed(b: BackendView, id: Id) -> BackendView {
    let heads = if (id as int) < b.heads.len() && b.heads[id as int] is Some {
        b.heads.update(id as int, None)
    } else {
        b.heads
    };
    let counted = BackendView {
        heads,
        frontend_events: b.frontend_events.push(
            frontend::Event::UpdateNbHeads { nb_heads: live_count(heads) as usize },
        ),
        ..b
    };
    if live_count(heads) == 0 {
        ended(counted, EndGameReason::NoRemainingHeads)
    } else {
        counted
    }
}

/// Head `h`, which stands in slot `slot` of `b`, took its movement tick with `forbidden`
/// directions, turning `b` into `b2`.
pub open spec fn head_ticked(
    b: BackendView,
    slot: int,
    h: HeadView,
    forbidden: Set<Direction>,
    b2: BackendView,
) -> bool {
    exists|m2: MapView, h2: HeadView|
        {
            &&& #[trigger] head_moved(
                b.map,
                h,
                forbidden,
                b.next_direction,
                b.board_events,
                m2,
                h2,
                b2.board_events,
            )
            &&& b2 == BackendView {
                map: quiet(m2),
                heads: b.heads.update(slot, Some(h2)),
                frontend_events: b.frontend_events + m2.notifications,
                board_events: b2.board_events,
                ..b
            }
        }
}

/// The movement tick of the head in `slot`, if there is one and it stands on the grid.
pub open spec fn slot_ticked(b: BackendView, slot: int, b2: BackendView) -> bool {
    match b.heads[slot] {
        Some(h) => if b.map.contains(h.position) {
            head_ticked(b, slot, h, Set::<Direction>::empty().insert(h.coming_from), b2)
        } else {
            b2 == b
        },
        None => b2 == b,
    }
}

/// A movement tick: every slot in turn, lowest first, takes its movement tick.
pub open spec fn heads_ticked(b: BackendView, b2: BackendView) -> bool {
    exists|chain: Seq<BackendView>|
        {
            &&& chain.len() == b.heads.len() + 1
            &&& chain[0] == b
            &&& chain.last() == b2
            &&& forall|i: int| 0 <= i < b.heads.len() ==> #[trigger] slot_ticked(chain[i], i, chain[i + 1])
        }
}

/// The slots after `h` took slot `i`, a free slot or one past the last.
pub open spec fn with_head(heads: Seq<Option<HeadView>>, i: int, h: HeadView) -> Seq<Option<HeadView>> {
    if i < heads.len() {
        heads.update(i, Some(h))
    } else {
        heads.push(Some(h))
    }
}

/// The controller after a head spawned from a split: the child takes the lowest free slot
/// at `position`, takes one movement tick away from `parent_direction`, and the new count is
/// announced. A registry that holds as many heads as ids exist takes no more.
pub open spec fn head_added(
    b: BackendView,
    position: Coordinates,
    coming_from: Direction,
    parent_direction: Direction,
    b2: BackendView,
) -> bool {
    if live_count(b.heads) >= Id::MAX {
        b2 == b
    } else {
        exists|i: int|
            {
                let h = HeadView { id: i as Id, position, coming_from, pending_split: false };
                let heads = with_head(b.heads, i, h);
                let announce = frontend::Event::UpdateNbHeads { nb_heads: live_count(heads) as usize };
                &&& #[trigger] is_first_free(b.heads, i)
                &&& if b.map.contains(position) {
                    exists|b1: BackendView|
                        {
                            &&& #[trigger] head_ticked(
                                BackendView { heads, ..b },
                                i,
                                h,
                                set![parent_direction].insert(coming_from),
                                b1,
                            )
                            &&& b2 == BackendView {
                                frontend_events: b1.frontend_events.push(announce),
                                ..b1
                            }
                        }
                } else {
                    b2 == BackendView { heads, frontend_events: b.frontend_events.push(announce), ..b }
                }
            }
    }
}

/// What the controller does with `evt` while playing.
pub open spec fn played(b: BackendView, evt: Event, b2: BackendView) -> bool {
    match evt {
        Event::SlideMapTick => b2 == slid(b),
        Event::MoveHeadsTick => heads_ticked(b, b2),
        Event::SetNextHeadDir { direction } => b2 == direction_set(b, direction),
        Event::KillHead { id } => b2 == killed(b, id),
        Event::AddHead { position, coming_from, parent_direction } => head_added(
            b,
            position,
            coming_from,
            parent_direction,
            b2,
        ),
        Event::EndGame { end_game_reason } => b2 == ended(b, end_game_reason),
        Event::StartGame => b2 == b,
    }
}

/// What the controller does with `evt`: before the start only the start matters, while
/// playing every event is handled, and after the end nothing changes any more.
pub open spec fn reacted(b: BackendView, evt: Event, b2: BackendView) -> bool {
    match b.state {
        BoardState::Startup => if evt is StartGame {
            b2 == BackendView { state: BoardState::Playing, timers_requested: true, ..b }
        } else {
            b2 == b
        },
        BoardState::Playing => played(b, evt, b2),
        BoardState::Ending => b2 == b,
    }
}

/// Once the game has ended, no event changes anything: neither the grid nor the registry
/// nor anything else.
pub proof fn lemma_ending_is_final(b: BackendView, evt: Event, b2: BackendView)
    requires
        reacted(b, evt, b2),
        b.state == BoardState::Ending,
    ensures
        b2 == b,
        b2.map == b.map,
        b2.heads == b.heads,
{
}

/// The controller: it owns the grid and the registry of heads and runs the game's state
/// machine, one event at a time.
pub struct Backend {
    map: GameMap,
    heads: HeadList,
    next_direction: Direction,
    board_state: BoardState,
    frontend_events: Vec<frontend::Event>,
    board_events: Vec<Event>,
    timers_requested: bool,
}

impl View for Backend {
    type V = BackendView;

    closed spec fn view(&self) -> BackendView {
        BackendView {
            map: self.map@,
            heads: self.heads@,
            next_direction: self.next_direction,
            state: self.board_state,
            frontend_events: self.frontend_events@,
            board_events: self.board_events@,
            timers_requested: self.timers_requested,
        }
    }
}

impl Backend {
    pub closed spec fn wf(&self) -> bool {
        &&& self.map.wf()
        &&& self.heads.wf()
        &&& self.map@.notifications.len() == 0
    }

    /// Moves the grid's notifications to the controller's, keeping their order.
    fn drain_map(&mut self)
        requires
            old(self).map.wf(),
        ensures
            final(self).map.wf(),
            final(self).heads == old(self).heads,
            final(self)@ == (BackendView {
                map: quiet(old(self)@.map),
                frontend_events: old(self)@.frontend_events + old(self)@.map.notifications,
                ..old(self)@
            }),
    {
        let mut notes = self.map.take_notifications();
        self.frontend_events.append(&mut notes);
    }

    fn end_game(&mut self, end_game_reason: EndGameReason)
        ensures
            final(self).map == old(self).map,
            final(self).heads == old(self).heads,
            final(self)@ == ended(old(self)@, end_game_reason),
    {
        self.frontend_events.push(frontend::Event::EndGame { game_end_reason: end_game_reason });
        self.board_state = BoardState::Ending;
    }

    fn send_current_nb_heads(&mut self)
        requires
            old(self).heads.wf(),
        ensures
            final(self).map == old(self).map,
            final(self).heads == old(self).heads,
            final(self)@ == (BackendView {
                frontend_events: old(self)@.frontend_events.push(
                    frontend::Event::UpdateNbHeads { nb_heads: live_count(old(self)@.heads) as usize },
                ),
                ..old(self)@
            }),
    {
        let nb_heads = self.heads.get_nb_heads();
        self.frontend_events.push(frontend::Event::UpdateNbHeads { nb_heads });
    }

    /// Creates the controller around `map`, with a first head in the middle of the bottom
    /// row, coming from below, and the proposed direction `Up`.
    pub fn new(map: GameMap) -> (r: Backend)
        requires
            map.wf(),
            map@.y_offset == 0,
            map@.rows.len() > 0,
            map@.width > 0,
        ensures
            r.wf(),
            r@.map == quiet(map@.with_tile(first_head_position(map@), TileType::Head { id: 0 })),
            r@.heads == seq![
                Some(
                    HeadView {
                        id: 0,
                        position: first_head_position(map@),
                        coming_from: Direction::Down,
                        pending_split: false,
                    },
                ),
            ],
            r@.next_direction == Direction::Up,
            r@.state == BoardState::Startup,
            r@.frontend_events == map@.with_tile(
                first_head_position(map@),
                TileType::Head { id: 0 },
            ).notifications.push(frontend::Event::UpdateNbHeads { nb_heads: 1 }),
            r@.board_events == Seq::<Event>::empty(),
            !r@.timers_requested,
    {
        let ghost m0 = map@;
        let mut map = map;
        let first_head_position = Coordinates { x: map.get_length() / 2, y: 0 };
        let mut heads = HeadList::new();
        let id = heads.add_head(first_head_position, Direction::Down);
        assert(id == 0);
        map.set_tile(first_head_position, TileType::Head { id: 0 });
        let mut board = Backend {
            map,
            heads,
            next_direction: Direction::Up,
            board_state: BoardState::Startup,
            frontend_events: Vec::new(),
            board_events: Vec::new(),
            timers_requested: false,
        };
        board.drain_map();
        proof {
            assert(live_count(board.heads@) == 1);
        }
        board.send_current_nb_heads();
        proof {
            assert(board@.heads =~= seq![
                Some(
                    HeadView {
                        id: 0,
                        position: first_head_position,
                        coming_from: Direction::Down,
                        pending_split: false,
                    },
                ),
            ]);
            assert(board@.frontend_events =~= m0.with_tile(
                first_head_position,
                TileType::Head { id: 0 },
            ).notifications.push(frontend::Event::UpdateNbHeads { nb_heads: 1 }));
        }
        board
    }

    fn slide_map_handler(&mut self)
        requires
            old(self).wf(),
        ensures
            final(self).wf(),
            final(self)@ == slid(old(self)@),
    {
        if self.map.will_head_pop_out_during_next_sliding() {
            self.end_game(EndGameReason::HeadPoppedOutByRisingEdge);
        } else if self.map.get_height() > 0 {
            self.map.slide();
            self.drain_map();
        }
    }

    fn set_next_head_dir(&mut self, direction: Direction)
        ensures
            final(self).map == old(self).map,
            final(self).heads == old(self).heads,
            final(self)@ == direction_set(old(self)@, direction),
    {
        if direction != self.next_direction {
            self.next_direction = direction;
            self.frontend_events.push(frontend::Event::UserDirSet { direction });
        }
    }

    fn kill_head_handler(&mut self, id: Id)
        requires
            old(self).wf(),
        ensures
            final(self).wf(),
            final(self)@ == killed(old(self)@, id),
    {
        self.heads.remove(id);
        self.send_current_nb_heads();
        if self.heads.get_nb_heads() == 0 {
            self.end_game(EndGameReason::NoRemainingHeads);
        }
    }

    /// Gives the head in `slot`, if any and if it stands on the grid, its movement tick.
    fn move_head_in_slot<P: DirectionSource>(&mut self, slot: usize, prohibited: DirectionFlags, picker: &mut P)
        requires
            old(self).wf(),
            slot < old(self)@.heads.len(),
        ensures
            final(self).wf(),
            final(self)@.heads.len() == old(self)@.heads.len(),
            live_count(final(self)@.heads) == live_count(old(self)@.heads),
            match old(self)@.heads[slot as int] {
                Some(h) => if old(self)@.map.contains(h.position) {
                    head_ticked(old(self)@, slot as int, h, prohibited@.insert(h.coming_from), final(self)@)
                } else {
                    final(self)@ == old(self)@
                },
                None => final(self)@ == old(self)@,
            },
    {
        let ghost b = self@;
        match self.heads.get(slot) {
            Some(found) => {
                let mut head = found;
                let position = head.get_position();
                if self.map.in_window(position.x, position.y) {
                    let direction = self.next_direction;
                    head.move_head_handler(direction, prohibited, &mut self.map, picker, &mut self.board_events);
                    let ghost m2 = self.map@;
                    let ghost h2 = head@;
                    self.heads.replace(head);
                    self.drain_map();
                    proof {
                        crate::head_list::lemma_live_count_update(b.heads, slot as int, Some(h2));
                        let h = b.heads[slot as int]->0;
                        assert(head_moved(
                            b.map,
                            h,
                            prohibited@.insert(h.coming_from),
                            b.next_direction,
                            b.board_events,
                            m2,
                            h2,
                            self@.board_events,
                        ));
                        assert(self@ == BackendView {
                            map: quiet(m2),
                            heads: b.heads.update(slot as int, Some(h2)),
                            frontend_events: b.frontend_events + m2.notifications,
                            board_events: self@.board_events,
                            ..b
                        });
                    }
                }
            },
            None => {},
        }
    }

    /// A movement tick: every live head in turn, in slot order, with the proposed direction.
    fn move_heads_handler<P: DirectionSource>(&mut self, picker: &mut P)
        requires
            old(self).wf(),
        ensures
            final(self).wf(),
            heads_ticked(old(self)@, final(self)@),
    {
        let n = self.heads.slot_count();
        let ghost mut chain: Seq<BackendView> = seq![self@];
        let mut slot: usize = 0;
        while slot < n
            invariant
                self.wf(),
                n == old(self)@.heads.len(),
                self@.heads.len() == n,
                0 <= slot <= n,
                chain.len() == slot + 1,
                chain[0] == old(self)@,
                chain.last() == self@,
                forall|i: int| 0 <= i < slot ==> #[trigger] slot_ticked(chain[i], i, chain[i + 1]),
            decreases n - slot,
        {
            let ghost before = self@;
            let ghost prev = chain;
            self.move_head_in_slot(slot, DirectionFlags::empty(), picker);
            proof {
                assert(slot_ticked(before, slot as int, self@));
                chain = chain.push(self@);
                assert forall|i: int| 0 <= i < slot + 1 implies #[trigger] slot_ticked(chain[i], i, chain[i + 1]) by {
                    if i < slot {
                        assert(chain[i] == prev[i]);
                        assert(chain[i + 1] == prev[i + 1]);
                    }
                }
            }
            slot = slot + 1;
        }
    }

    fn add_head_handler<P: DirectionSource>(
        &mut self,
        position: Coordinates,
        coming_from: Direction,
        parent_direction: Direction,
        picker: &mut P,
    )
        requires
            old(self).wf(),
        ensures
            final(self).wf(),
            head_added(old(self)@, position, coming_from, parent_direction, final(self)@),
    {
        if self.heads.get_nb_heads() >= Id::MAX as usize {
            return;
        }
        let ghost b = self@;
        let id = self.heads.add_head(position, coming_from);
        let ghost added = self@;
        let ghost h = HeadView { id, position, coming_from, pending_split: false };
        proof {
            lemma_heads_after_add(b.heads, id as int, h);
        }
        self.move_head_in_slot(id as usize, DirectionFlags::from_direction(parent_direction), picker);
        let ghost b1 = self@;
        self.send_current_nb_heads();
        proof {
            let heads = with_head(b.heads, id as int, h);
            let announce = frontend::Event::UpdateNbHeads { nb_heads: live_count(heads) as usize };
            assert(added == BackendView { heads, ..b });
            assert(h == HeadView { id: (id as int) as Id, position, coming_from, pending_split: false });
            if b.map.contains(position) {
                assert(head_ticked(
                    BackendView { heads, ..b },
                    id as int,
                    h,
                    set![parent_direction].insert(coming_from),
                    b1,
                ));
                assert(self@ == BackendView { frontend_events: b1.frontend_events.push(announce), ..b1 });
            } else {
                assert(self@ == BackendView { heads, frontend_events: b.frontend_events.push(announce), ..b });
            }
            assert(is_first_free(b.heads, id as int));
        }
    }

    /// Before the start, only `StartGame` matters: it asks for the tick generators and starts
    /// the game.
    pub fn startup_state_handler(&mut self, evt: Event)
        requires
            old(self).wf(),
        ensures
            final(self).wf(),
            evt is StartGame ==> final(self)@ == (BackendView {
                state: BoardState::Playing,
                timers_requested: true,
                ..old(self)@
            }),
            !(evt is StartGame) ==> final(self)@ == old(self)@,
    {
        if let Event::StartGame = evt {
            self.timers_requested = true;
            self.board_state = BoardState::Playing;
        }
    }

    /// While playing: slides, movement ticks, the player's direction, births, deaths and the
    /// end of the game.
    pub fn playing_state_handler<P: DirectionSource>(&mut self, evt: Event, picker: &mut P)
        requires
            old(self).wf(),
        ensures
            final(self).wf(),
            played(old(self)@, evt, final(self)@),
    {
        match evt {
            Event::SlideMapTick => self.slide_map_handler(),
            Event::MoveHeadsTick => self.move_heads_handler(picker),
            Event::SetNextHeadDir { direction } => self.set_next_head_dir(direction),
            Event::KillHead { id } => self.kill_head_handler(id),
            Event::AddHead { position, coming_from, parent_direction } => {
                self.add_head_handler(position, coming_from, parent_direction, picker)
            },
            Event::EndGame { end_game_reason } => self.end_game(end_game_reason),
            Event::StartGame => {},
        }
    }

    /// After the end every event is dropped.
    pub fn ending_state_handler(&mut self, _evt: Event)
        requires
            old(self).wf(),
        ensures
            final(self).wf(),
            final(self)@ == old(self)@,
    {
    }

    /// Handles one event according to the current state.
    pub fn handle_event<P: DirectionSource>(&mut self, evt: Event, picker: &mut P)
        requires
            old(self).wf(),
        ensures
            final(self).wf(),
            reacted(old(self)@, evt, final(self)@),
    {
        match self.board_state {
            BoardState::Startup => self.startup_state_handler(evt),
            BoardState::Playing => self.playing_state_handler(evt, picker),
            BoardState::Ending => self.ending_state_handler(evt),
        }
    }

    /// Hands out the notifications for the presentation side, oldest first.
    pub fn take_frontend_events(&mut self) -> (r: Vec<frontend::Event>)
        requires
            old(self).wf(),
        ensures
            final(self).wf(),
            r@ == old(self)@.frontend_events,
            final(self)@ == (BackendView { frontend_events: Seq::empty(), ..old(self)@ }),
    {
        let mut r: Vec<frontend::Event> = Vec::new();
        std::mem::swap(&mut r, &mut self.frontend_events);
        r
    }

    /// Hands out the events that heads addressed to the controller, oldest first.
    pub fn take_board_events(&mut self) -> (r: Vec<Event>)
        requires
            old(self).wf(),
        ensures
            final(self).wf(),
            r@ == old(self)@.board_events,
            final(self)@ == (BackendView { board_events: Seq::empty(), ..old(self)@ }),
    {
        let mut r: Vec<Event> = Vec::new();
        std::mem::swap(&mut r, &mut self.board_events);
        r
    }

    /// Whether the tick generators must be started now; asking clears the request.
    pub fn take_timer_request(&mut self) -> (r: bool)
        requires
            old(self).wf(),
        ensures
            final(self).wf(),
            r == old(self)@.timers_requested,
            final(self)@ == (BackendView { timers_requested: false, ..old(self)@ }),
    {
        let r = self.timers_requested;
        self.timers_requested = false;
        r
    }

    pub fn get_map(&self) -> (r: &GameMap)
        requires
            self.wf(),
        ensures
            r.wf(),
            r@ == self@.map,
    {
        &self.map
    }

    pub fn get_heads(&self) -> (r: &HeadList)
        ensures
            r@ == self@.heads,
    {
        &self.heads
    }

    pub fn get_state(&self) -> (r: BoardState)
        ensures
            r == self@.state,
    {
        self.board_state
    }

    pub fn get_next_direction(&self) -> (r: Direction)
        ensures
            r == self@.next_direction,
    {
        self.next_direction
    }
}

/// After `add_head` filled slot `i` with `h`, slot `i` holds `h` and the count grew by one.
proof fn lemma_heads_after_add(heads: Seq<Option<HeadView>>, i: int, h: HeadView)
    requires
        is_first_free(heads, i),
    ensures
        ({
            let after = if i < heads.len() {
                heads.update(i, Some(h))
            } else {
                heads.push(Some(h))
            };
            after[i] == Some(h) && i < after.len()
        }),
{
}

} // verus!
