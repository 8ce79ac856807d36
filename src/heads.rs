use vstd::prelude::*;
use crate::backend::{EndGameReason, Event};
use crate::direction_picker::DirectionSource;
use crate::map::{GameMap, MapView, TileType, step};
use crate::utils::{Coordinates, Direction, DirectionFlags, opposite};

verus! {

/// A head's identity: the index of its slot in the registry.
pub type Id = u32;

/// A head as a mathematical value.
pub struct HeadView {
    pub id: Id,
    pub position: Coordinates,
    /// The direction of the cell the head arrived from.
    pub coming_from: Direction,
    /// The head stands on a separator it reached on its last move, and will spawn a child
    /// on its next move.
    pub pending_split: bool,
}

/// Whether head `id` may take a step onto a cell holding `tile`: free cells, separators, and
/// (fatally) another head's trail. Walls, live heads and its own trail are obstacles.
pub open spec fn accepts(tile: TileType, id: Id) -> bool {
    match tile {
        TileType::Free => true,
        TileType::Separator => true,
        TileType::Marked { id: owner } => owner != id,
        _ => false,
    }
}

/// From `origin`, head `id` can step in direction `d`: the cell there is on the grid and
/// accepted.
pub open spec fn open_towards(m: MapView, origin: Coordinates, d: Direction, id: Id) -> bool {
    &&& m.in_window(step(origin, d).0, step(origin, d).1)
    &&& accepts(m.tile(step(origin, d).0, step(origin, d).1), id)
}

/// `p` is the cell next to `origin` in direction `d`.
pub open spec fn is_step(origin: Coordinates, d: Direction, p: Coordinates) -> bool {
    p.x == step(origin, d).0 && p.y == step(origin, d).1
}

/// The head after stepping in direction `d` onto the cell `p` that holds `t`: onto a free
/// cell or a separator it moves (a separator arms a split); onto a trail it stays put.
pub open spec fn head_after(h: HeadView, d: Direction, t: TileType, p: Coordinates) -> HeadView {
    match t {
        TileType::Free => HeadView { position: p, coming_from: opposite(d), pending_split: false, ..h },
        TileType::Separator => HeadView {
            position: p,
            coming_from: opposite(d),
            pending_split: true,
            ..h
        },
        _ => HeadView { pending_split: false, ..h },
    }
}

pub open spec fn moves_onto(t: TileType) -> bool {
    t is Free || t is Separator
}

/// The grid after that step: the cell left is marked as trail, and the head's new cell, if
/// it moved, holds the head.
pub open spec fn map_after(m: MapView, h: HeadView, t: TileType, p: Coordinates) -> MapView {
    let marked = m.with_tile(h.position, TileType::Marked { id: h.id });
    if moves_onto(t) {
        marked.with_tile(p, TileType::Head { id: h.id })
    } else {
        marked
    }
}

/// The events after that step: the child of an armed split, the head's own death on a
/// trail, and victory if it moved onto the arrival line.
pub open spec fn events_after(
    events: Seq<Event>,
    m: MapView,
    h: HeadView,
    d: Direction,
    t: TileType,
    p: Coordinates,
) -> Seq<Event> {
    let split = if h.pending_split {
        events.push(
            Event::AddHead { position: h.position, coming_from: h.coming_from, parent_direction: d },
        )
    } else {
        events
    };
    if !moves_onto(t) {
        split.push(Event::KillHead { id: h.id })
    } else if p.y == m.arrival_line() {
        split.push(Event::EndGame { end_game_reason: EndGameReason::Victory })
    } else {
        split
    }
}

/// Directions tried by one exploration that began in `first` with `before` forbidden and
/// ended with `after` forbidden.
pub open spec fn tried(before: DirectionFlags, after: DirectionFlags, first: Direction) -> Set<
    Direction,
> {
    after@.difference(before@).insert(first)
}

/// No direction outside `forbidden` is open to the head.
pub open spec fn boxed_in(m: MapView, h: HeadView, forbidden: Set<Direction>) -> bool {
    forall|d: Direction| !forbidden.contains(d) ==> !open_towards(m, h.position, d, h.id)
}

/// The cell next to the head in direction `d`.
pub open spec fn target(h: HeadView, d: Direction) -> Coordinates {
    Coordinates { x: step(h.position, d).0 as usize, y: step(h.position, d).1 as usize }
}

/// A direction the head may choose: not forbidden, open, and the requested one whenever
/// that one is allowed and open.
pub open spec fn valid_choice(
    m: MapView,
    h: HeadView,
    forbidden: Set<Direction>,
    requested: Direction,
    d: Direction,
) -> bool {
    &&& !forbidden.contains(d)
    &&& open_towards(m, h.position, d, h.id)
    &&& (!forbidden.contains(requested) && open_towards(m, h.position, requested, h.id)) ==> d
        == requested
}

/// What one movement tick may do to head `h` on grid `m`, with `forbidden` directions and
/// `requested` as the preferred one: nothing when it is boxed in, otherwise one step in a
/// valid direction.
pub open spec fn head_moved(
    m: MapView,
    h: HeadView,
    forbidden: Set<Direction>,
    requested: Direction,
    events: Seq<Event>,
    m2: MapView,
    h2: HeadView,
    events2: Seq<Event>,
) -> bool {
    if boxed_in(m, h, forbidden) {
        &&& h2 == h
        &&& m2 == m
        &&& events2 == events
    } else {
        exists|d: Direction|
            {
                &&& #[trigger] valid_choice(m, h, forbidden, requested, d)
                &&& h2 == head_after(h, d, m.tile_at(target(h, d)), target(h, d))
                &&& m2 == map_after(m, h, m.tile_at(target(h, d)), target(h, d))
                &&& events2 == events_after(events, m, h, d, m.tile_at(target(h, d)), target(h, d))
            }
    }
}

/// A head never dies on its own trail: when the only direction left to it leads onto its
/// own trail, it searches on, finds nothing, and stays as it was.
pub proof fn lemma_own_trail_does_not_kill(
    m: MapView,
    h: HeadView,
    forbidden: Set<Direction>,
    requested: Direction,
    events: Seq<Event>,
    m2: MapView,
    h2: HeadView,
    events2: Seq<Event>,
    d: Direction,
)
    requires
        head_moved(m, h, forbidden, requested, events, m2, h2, events2),
        !forbidden.contains(d),
        m.tile(step(h.position, d).0, step(h.position, d).1) == (TileType::Marked { id: h.id }),
        forall|e: Direction| !forbidden.contains(e) && e != d ==> !open_towards(m, h.position, e, h.id),
    ensures
        h2 == h,
        m2 == m,
        events2 == events,
{
    assert(boxed_in(m, h, forbidden));
}

/// Stepping onto another head's trail kills the head: it stays where it was, and the only
/// event besides the child of an armed split is one request for its own removal.
pub proof fn lemma_foreign_trail_kills(
    events: Seq<Event>,
    m: MapView,
    h: HeadView,
    d: Direction,
    p: Coordinates,
    other: Id,
)
    requires
        other != h.id,
    ensures
        head_after(h, d, TileType::Marked { id: other }, p).position == h.position,
        !h.pending_split ==> events_after(events, m, h, d, TileType::Marked { id: other }, p)
            == events.push(Event::KillHead { id: h.id }),
        h.pending_split ==> events_after(events, m, h, d, TileType::Marked { id: other }, p)
            == events.push(
            Event::AddHead { position: h.position, coming_from: h.coming_from, parent_direction: d },
        ).push(Event::KillHead { id: h.id }),
{
}

/// Crossing a separator spawns nothing on that move; the child is asked for on the head's
/// next move, from the separator's cell and with the provenance the head had there.
pub proof fn lemma_split_is_delayed(
    events: Seq<Event>,
    m: MapView,
    h: HeadView,
    d: Direction,
    p: Coordinates,
    events1: Seq<Event>,
    m1: MapView,
    d2: Direction,
    t2: TileType,
    p2: Coordinates,
)
    requires
        !h.pending_split,
    ensures
        ({
            let h1 = head_after(h, d, TileType::Separator, p);
            let later = events_after(events1, m1, h1, d2, t2, p2);
            &&& h1.pending_split
            &&& h1.position == p
            &&& forall|k: int|
                events.len() <= k < events_after(events, m, h, d, TileType::Separator, p).len()
                    ==> !(#[trigger] events_after(events, m, h, d, TileType::Separator, p)[k] is AddHead)
            &&& later[events1.len() as int] == (Event::AddHead {
                position: p,
                coming_from: opposite(d),
                parent_direction: d2,
            })
            &&& !head_after(h1, d2, t2, p2).pending_split || t2 is Separator
        }),
{
}

/// One mobile agent: its position, where it came from, and whether a split is armed.
#[derive(Clone, Copy)]
pub struct SimpleHead {
    id: Id,
    position: Coordinates,
    coming_from: Direction,
    head_split: bool,
}

impl View for SimpleHead {
    type V = HeadView;

    closed spec fn view(&self) -> HeadView {
        HeadView {
            id: self.id,
            position: self.position,
            coming_from: self.coming_from,
            pending_split: self.head_split,
        }
    }
}

impl SimpleHead {
    pub fn new(id: Id, position: Coordinates, coming_from: Direction) -> (r: SimpleHead)
        ensures
            r@ == (HeadView { id, position, coming_from, pending_split: false }),
    {
        SimpleHead { id, position, coming_from, head_split: false }
    }

    pub fn get_id(&self) -> (r: Id)
        ensures
            r == self@.id,
    {
        self.id
    }

    pub fn get_position(&self) -> (r: Coordinates)
        ensures
            r == self@.position,
    {
        self.position
    }

    pub fn get_provenance(&self) -> (r: Direction)
        ensures
            r == self@.coming_from,
    {
        self.coming_from
    }

    pub fn has_pending_split(&self) -> (r: bool)
        ensures
            r == self@.pending_split,
    {
        self.head_split
    }

    /// Looks for a cell to step onto from `origin`, starting with `chosen_direction` and then
    /// asking `picker` for other directions, each of which it forbids; its own trail, walls,
    /// live heads and the edges are passed over. Each attempt after the first follows a pick
    /// that forbids one more direction, so there are at most four attempts.
    pub fn explore_direction<P: DirectionSource>(
        &self,
        origin: Coordinates,
        chosen_direction: Direction,
        prohibited_directions: &mut DirectionFlags,
        map: &GameMap,
        picker: &mut P,
    ) -> (r: Option<(Direction, TileType, Coordinates)>)
        requires
            map.wf(),
        ensures
            old(prohibited_directions)@.insert(chosen_direction).subset_of(final(prohibited_directions)@),
            final(prohibited_directions).count() <= old(prohibited_directions).count() + 3 + if old(
                prohibited_directions,
            )@.contains(chosen_direction) {
                0int
            } else {
                1int
            },
            match r {
                None => {
                    &&& final(prohibited_directions).is_full()
                    &&& forall|d: Direction| #[trigger]
                        tried(*old(prohibited_directions), *final(prohibited_directions), chosen_direction).contains(d)
                        ==> !open_towards(map@, origin, d, self@.id)
                },
                Some((d, t, p)) => {
                    &&& tried(*old(prohibited_directions), *final(prohibited_directions), chosen_direction).contains(d)
                    &&& open_towards(map@, origin, d, self@.id)
                    &&& is_step(origin, d, p)
                    &&& t == map@.tile_at(p)
                    &&& forall|e: Direction| #[trigger]
                        tried(*old(prohibited_directions), *final(prohibited_directions), chosen_direction).contains(e)
                        && e != d ==> !open_towards(map@, origin, e, self@.id)
                },
            },
    {
        prohibited_directions.insert(chosen_direction);
        let ghost start = *prohibited_directions;
        proof {
            assert(start@.contains(chosen_direction));
            assert(start.has(chosen_direction));
            crate::utils::lemma_full_iff_count(start);
        }
        let mut direction = chosen_direction;
        loop
            invariant
                map.wf(),
                start.count() >= 1,
                start.count() == old(prohibited_directions).count() + if old(prohibited_directions)@.contains(
                    chosen_direction,
                ) {
                    0int
                } else {
                    1int
                },
                prohibited_directions.count() <= 4,
                old(prohibited_directions)@.insert(chosen_direction).subset_of(prohibited_directions@),
                prohibited_directions@.contains(direction),
                tried(*old(prohibited_directions), *prohibited_directions, chosen_direction).contains(direction),
                forall|e: Direction| #[trigger]
                    tried(*old(prohibited_directions), *prohibited_directions, chosen_direction).contains(e)
                    && e != direction ==> !open_towards(map@, origin, e, self@.id),
            decreases 4 - prohibited_directions.count(),
        {
            if let Some((tile_type, target_position)) = map.get_neighbour_tile(origin, direction) {
                match tile_type {
                    TileType::Free | TileType::Separator => {
                        return Some((direction, tile_type, target_position));
                    },
                    TileType::Marked { id } => {
                        if id != self.id {
                            return Some((direction, tile_type, target_position));
                        }
                    },
                    TileType::Wall | TileType::Head { .. } => {},
                }
            }
            proof {
                crate::utils::lemma_full_iff_count(*prohibited_directions);
            }
            let ghost before = *prohibited_directions;
            match picker.pick_direction(prohibited_directions) {
                Some(picked) => {
                    proof {
                        crate::utils::lemma_insert_count(before, *prohibited_directions, picked);
                        crate::utils::lemma_full_iff_count(*prohibited_directions);
                        assert(tried(*old(prohibited_directions), *prohibited_directions, chosen_direction)
                            =~= tried(*old(prohibited_directions), before, chosen_direction).insert(picked));
                    }
                    direction = picked;
                },
                None => {
                    return None;
                },
            }
        }
    }

    /// One movement tick: the head may not go back where it came from nor in a direction of
    /// `prohibited_directions`; it goes in `direction` if that is allowed and open, and
    /// otherwise in a direction that `picker` finds. When every allowed direction is closed
    /// it does not move and nothing changes.
    pub fn move_head_handler<P: DirectionSource>(
        &mut self,
        direction: Direction,
        prohibited_directions: DirectionFlags,
        map: &mut GameMap,
        picker: &mut P,
        events: &mut Vec<Event>,
    )
        requires
            old(map).wf(),
            old(map)@.contains(old(self)@.position),
        ensures
            final(map).wf(),
            final(self)@.id == old(self)@.id,
            head_moved(
                old(map)@,
                old(self)@,
                prohibited_directions@.insert(old(self)@.coming_from),
                direction,
                old(events)@,
                final(map)@,
                final(self)@,
                final(events)@,
            ),
    {
        let ghost h = self@;
        let ghost m = map@;
        let mut forbidden = prohibited_directions;
        forbidden.insert(self.coming_from);
        let ghost f0 = forbidden;
        let proposed;
        if forbidden.contains(direction) {
            match picker.pick_direction(&mut forbidden) {
                Some(picked) => {
                    proposed = picked;
                },
                None => {
                    return;
                },
            }
        } else {
            proposed = direction;
            forbidden.insert(direction);
        }
        let ghost f1 = forbidden;
        let explored = self.explore_direction(self.position, proposed, &mut forbidden, map, picker);
        match explored {
            Some((chosen_direction, target_tile, target_position)) => {
                proof {
                    let tr = tried(f1, forbidden, proposed);
                    assert(tr.contains(chosen_direction));
                    assert(!f0@.contains(chosen_direction));
                    if !f0@.contains(direction) && open_towards(m, h.position, direction, h.id) {
                        assert(proposed == direction);
                        if chosen_direction != direction {
                            assert(tr.contains(direction));
                        }
                    }
                    assert(target(h, chosen_direction) == target_position);
                    assert(valid_choice(m, h, f0@, direction, chosen_direction));
                }
                self.move_to(chosen_direction, target_tile, target_position, map, events);
            },
            None => {
                proof {
                    crate::utils::lemma_full_iff_count(forbidden);
                    assert forall|d: Direction| !f0@.contains(d) implies !open_towards(
                        m,
                        h.position,
                        d,
                        h.id,
                    ) by {
                        assert(forbidden@.contains(d));
                        assert(tried(f1, forbidden, proposed).contains(d));
                    }
                }
            },
        }
    }

    /// Carries out a step in direction `chosen_direction` onto `target_position`, which
    /// holds `target_tile`: spawns the child of an armed split, marks the cell left as trail,
    /// then moves (arming a split on a separator, winning on the arrival line) or, on
    /// another head's trail, asks for its own removal.
    pub fn move_to(
        &mut self,
        chosen_direction: Direction,
        target_tile: TileType,
        target_position: Coordinates,
        map: &mut GameMap,
        events: &mut Vec<Event>,
    )
        requires
            old(map).wf(),
            old(map)@.contains(old(self)@.position),
            old(map)@.contains(target_position),
            accepts(target_tile, old(self)@.id),
        ensures
            final(map).wf(),
            final(self)@ == head_after(old(self)@, chosen_direction, target_tile, target_position),
            final(map)@ == map_after(old(map)@, old(self)@, target_tile, target_position),
            final(events)@ == events_after(
                old(events)@,
                old(map)@,
                old(self)@,
                chosen_direction,
                target_tile,
                target_position,
            ),
    {
        if self.head_split {
            events.push(
                Event::AddHead {
                    position: self.position,
                    coming_from: self.coming_from,
                    parent_direction: chosen_direction,
                },
            );
            self.head_split = false;
        }
        map.set_tile(self.position, TileType::Marked { id: self.id });
        match target_tile {
            TileType::Free => {
                map.set_tile(target_position, TileType::Head { id: self.id });
                self.position = target_position;
                self.coming_from = chosen_direction.reverse();
            },
            TileType::Separator => {
                map.set_tile(target_position, TileType::Head { id: self.id });
                self.position = target_position;
                self.coming_from = chosen_direction.reverse();
                self.head_split = true;
            },
            _ => {
                events.push(Event::KillHead { id: self.id });
            },
        }
        let moved = match target_tile {
            TileType::Free | TileType::Separator => true,
            _ => false,
        };
        if moved && map.is_on_arrival_line(self.position) {
            events.push(Event::EndGame { end_game_reason: EndGameReason::Victory });
        }
    }
}

} // verus!
