use rand::Rng;
use vstd::prelude::*;
use crate::utils::{Direction, DirectionFlags};

verus! {

/// What a pick from `before` must look like: no direction when all four are forbidden,
/// otherwise a direction that was still allowed, which is forbidden from then on.
pub open spec fn picked_from(before: DirectionFlags, after: DirectionFlags, r: Option<Direction>) -> bool {
    match r {
        None => before.is_full() && after == before,
        Some(d) => !before@.contains(d) && after@ == before@.insert(d),
    }
}

/// Whenever at most three directions are forbidden, a pick returns one that was not, and
/// that direction is forbidden afterwards.
pub proof fn lemma_pick_is_exhaustive(before: DirectionFlags, after: DirectionFlags, r: Option<Direction>)
    requires
        picked_from(before, after, r),
        before.count() <= 3,
    ensures
        r is Some,
        !before@.contains(r->0),
        after@.contains(r->0),
        after@ == before@.insert(r->0),
{
    crate::utils::lemma_full_iff_count(before);
}

/// The directions that `f` still allows, in the order Up, Down, Left, Right.
pub open spec fn allowed_directions(f: DirectionFlags) -> Seq<Direction> {
    (if f.up { seq![] } else { seq![Direction::Up] }) + (if f.down {
        seq![]
    } else {
        seq![Direction::Down]
    }) + (if f.left { seq![] } else { seq![Direction::Left] }) + (if f.right {
        seq![]
    } else {
        seq![Direction::Right]
    })
}

/// Anything that can resolve "one direction not in this forbidden set".
pub trait DirectionSource {
    fn pick_direction(&mut self, forbidden: &mut DirectionFlags) -> (r: Option<Direction>)
        ensures
            picked_from(*old(forbidden), *final(forbidden), r),
    ;
}

/// Relies on rand::thread_rng and rand::Rng::gen_range: a value drawn from `0..bound`,
/// which panics on an empty range.
#[verifier::external_body]
fn random_below(bound: usize) -> (r: usize)
    requires
        bound > 0,
    ensures
        r < bound,
{
    rand::thread_rng().gen_range(0..bound)
}

/// The directions that `f` still allows.
pub fn allowed(f: &DirectionFlags) -> (r: Vec<Direction>)
    ensures
        r@ == allowed_directions(*f),
{
    let mut r: Vec<Direction> = Vec::new();
    if !f.up {
        r.push(Direction::Up);
    }
    if !f.down {
        r.push(Direction::Down);
    }
    if !f.left {
        r.push(Direction::Left);
    }
    if !f.right {
        r.push(Direction::Right);
    }
    assert(r@ =~= allowed_directions(*f));
    r
}

/// Each allowed direction occurs once in `allowed_directions`, and nothing else does; there
/// are as many as the set leaves out.
pub proof fn lemma_allowed_directions(f: DirectionFlags)
    ensures
        allowed_directions(f).len() + f.count() == 4,
        forall|d: Direction| allowed_directions(f).contains(d) <==> !f@.contains(d),
        allowed_directions(f).len() == 0 <==> f.is_full(),
{
    let s = allowed_directions(f);
    assert forall|d: Direction| s.contains(d) <==> !f@.contains(d) by {
        if !f@.contains(d) {
            let i: int = match d {
                Direction::Up => 0,
                Direction::Down => if f.up { 0 } else { 1 },
                Direction::Left => (if f.up { 0int } else { 1int }) + (if f.down { 0int } else { 1int }),
                Direction::Right => (if f.up { 0int } else { 1int }) + (if f.down { 0int } else { 1int }) + (
                if f.left {
                    0int
                } else {
                    1int
                }),
            };
            assert(s[i] == d);
        }
        if s.contains(d) {
            let i = choose|i: int| 0 <= i < s.len() && s[i] == d;
            assert(s[i] == d);
        }
    }
}

/// Forbids and returns the direction at `index` among those that `forbidden` still allows;
/// no direction, and no change, where there are not that many.
pub fn pick_at(forbidden: &mut DirectionFlags, index: usize) -> (r: Option<Direction>)
    ensures
        index < allowed_directions(*old(forbidden)).len() ==> r == Some(
            allowed_directions(*old(forbidden))[index as int],
        ) && final(forbidden)@ == old(forbidden)@.insert(allowed_directions(*old(forbidden))[index as int]),
        index >= allowed_directions(*old(forbidden)).len() ==> r is None && *final(forbidden) == *old(
            forbidden,
        ),
{
    let dirs = allowed(forbidden);
    if index < dirs.len() {
        let d = dirs[index];
        forbidden.insert(d);
        Some(d)
    } else {
        None
    }
}

/// Picks uniformly at random among the directions that are not forbidden.
pub struct DirectionPicker {}

impl DirectionPicker {
    /// Picks one allowed direction at random and forbids it; `None` when all four are
    /// already forbidden.
    pub fn pick(forbidden: &mut DirectionFlags) -> (r: Option<Direction>)
        ensures
            picked_from(*old(forbidden), *final(forbidden), r),
    {
        proof {
            lemma_allowed_directions(*forbidden);
            crate::utils::lemma_full_iff_count(*forbidden);
        }
        let n = allowed(forbidden).len();
        if n == 0 {
            return None;
        }
        let index = random_below(n);
        let r = pick_at(forbidden, index);
        proof {
            let d = allowed_directions(*old(forbidden))[index as int];
            assert(allowed_directions(*old(forbidden)).contains(d));
        }
        r
    }
}

impl DirectionSource for DirectionPicker {
    fn pick_direction(&mut self, forbidden: &mut DirectionFlags) -> (r: Option<Direction>) {
        DirectionPicker::pick(forbidden)
    }
}

/// A deterministic source: it hands out the directions of its script in order, passing over
/// those that are forbidden, and once the script is used up the first allowed direction. It
/// counts how often it was asked.
pub struct ScriptedPicker {
    script: Vec<Direction>,
    next: usize,
    calls: usize,
}

impl ScriptedPicker {
    pub fn new(script: Vec<Direction>) -> (r: ScriptedPicker)
        ensures
            r.script() == script@,
            r.position() == 0,
            r.calls() == 0,
    {
        ScriptedPicker { script, next: 0, calls: 0 }
    }

    /// How many times a direction was asked for.
    pub closed spec fn calls(&self) -> nat {
        self.calls as nat
    }

    /// How many times a direction was asked for.
    pub fn call_count(&self) -> (r: usize)
        ensures
            r == self.calls(),
    {
        self.calls
    }

    pub closed spec fn script(&self) -> Seq<Direction> {
        self.script@
    }

    /// How many entries of the script have been used.
    pub closed spec fn position(&self) -> nat {
        self.next as nat
    }

    /// How many entries of the script have been used.
    pub fn consumed(&self) -> (r: usize)
        ensures
            r == self.position(),
    {
        self.next
    }
}

/// The scripted pick from position `from` with `f` forbidden: `Some(k)` names the first
/// entry at or after `from` that `f` allows, `None` says there is none.
pub open spec fn scripted_choice(script: Seq<Direction>, from: int, f: DirectionFlags, k: int) -> bool {
    &&& from <= k < script.len()
    &&& !f@.contains(script[k])
    &&& forall|j: int| from <= j < k ==> f@.contains(#[trigger] script[j])
}

impl DirectionSource for ScriptedPicker {
    fn pick_direction(&mut self, forbidden: &mut DirectionFlags) -> (r: Option<Direction>)
        ensures
            final(self).script() == old(self).script(),
            final(self).calls() == if old(self).calls() < usize::MAX {
                old(self).calls() + 1
            } else {
                old(self).calls()
            },
            old(forbidden).is_full() ==> final(self).position() == old(self).position(),
            !old(forbidden).is_full() ==> match r {
                Some(d) => {
                    ||| (scripted_choice(old(self).script(), old(self).position() as int, *old(forbidden), final(self).position() - 1)
                        && d == old(self).script()[final(self).position() - 1])
                    ||| (final(self).position() >= old(self).script().len() && (forall|j: int| old(self).position() <= j < old(self).script().len() ==> old(forbidden)@.contains(#[trigger] old(self).script()[j]))
                        && d == allowed_directions(*old(forbidden))[0])
                },
                None => false,
            },
    {
        proof {
            lemma_allowed_directions(*forbidden);
            crate::utils::lemma_full_iff_count(*forbidden);
        }
        if self.calls < usize::MAX {
            self.calls = self.calls + 1;
        }
        if forbidden.is_all() {
            return None;
        }
        while self.next < self.script.len()
            invariant
                *forbidden == *old(forbidden),
                !forbidden.is_full(),
                self.script == old(self).script,
                self.calls == if old(self).calls < usize::MAX {
                    old(self).calls + 1
                } else {
                    old(self).calls as int
                },
                old(self).next <= self.next,
                forall|j: int| old(self).next <= j < self.next ==> forbidden@.contains(#[trigger] self.script@[j]),
            decreases self.script.len() - self.next,
        {
            let d = self.script[self.next];
            self.next = self.next + 1;
            if !forbidden.contains(d) {
                forbidden.insert(d);
                return Some(d);
            }
        }
        let r = pick_at(forbidden, 0);
        proof {
            let d = allowed_directions(*old(forbidden))[0];
            assert(allowed_directions(*old(forbidden)).contains(d));
        }
        r
    }
}

} // verus!
