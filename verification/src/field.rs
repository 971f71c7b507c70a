use vstd::prelude::*;
use crate::cobra::occupies;
use crate::position::Position;
use crate::cobra::Cobra;
use crate::thing::{edge_code, is_edge_at, is_fresh_thing, ThingKind, ThingOnScreen};

verus! {

/// The playing field: its border pieces, the things lying on it, and its size.
pub struct Field {
    pub edges: Vec<ThingOnScreen>,
    pub things: Vec<ThingOnScreen>,
    pub height: u32,
    pub width: u32,
}

/// `a` comes before `b` when cells are taken column by column, top to bottom.
pub open spec fn cell_before(a: Position, b: Position) -> bool {
    a.x < b.x || (a.x == b.x && a.y < b.y)
}

/// `edges` holds exactly the border pieces of a field of the given size,
/// one per border cell, in column-major order.
pub open spec fn is_border_of(edges: Seq<ThingOnScreen>, height: u32, width: u32) -> bool {
    &&& forall|k: int|
        0 <= k < edges.len() ==> {
            let p = #[trigger] edges[k].position;
            &&& p.x < width
            &&& p.y < height
            &&& is_edge_at(edges[k], p.x, p.y, height, width)
        }
    &&& forall|k1: int, k2: int|
        0 <= k1 < k2 < edges.len() ==> cell_before(#[trigger] edges[k1].position, #[trigger] edges[k2].position)
    &&& forall|x: u32, y: u32|
        x < width && y < height && (#[trigger] edge_code(x, y, height, width)) is Some ==> exists|k: int|
            0 <= k < edges.len() && (#[trigger] edges[k].position) == (Position { x, y })
}

/// `pos` is a cell of a field of the given size on which neither a piece of
/// `body` nor any of `things` lies.
pub open spec fn is_free(width: u32, height: u32, body: Seq<ThingOnScreen>, things: Seq<ThingOnScreen>, pos: Position) -> bool {
    &&& pos.x < width
    &&& pos.y < height
    &&& !occupies(body, pos)
    &&& !occupies(things, pos)
}

/// Some cell of the field is free.
pub open spec fn has_free_cell(width: u32, height: u32, body: Seq<ThingOnScreen>, things: Seq<ThingOnScreen>) -> bool {
    exists|pos: Position| #[trigger] is_free(width, height, body, things, pos)
}

/// How many rocks a level lays out: five, and one more per level number
/// (six on the first level).
pub open spec fn rock_count(level: u8) -> int {
    5 + level
}

/// How many things a level lays out: its rocks, two foods per level number,
/// and one drug.
pub open spec fn plan_len(level: u8) -> int {
    rock_count(level) + 2 * level + 1
}

/// The kind of the `i`-th thing a level lays out: rocks first, then foods,
/// then the drug.
pub open spec fn plan_kind(level: u8, i: int) -> ThingKind {
    if i < rock_count(level) {
        ThingKind::Rock
    } else if i < rock_count(level) + 2 * level {
        ThingKind::Food
    } else {
        ThingKind::Drug
    }
}

/// `things` is `before` followed by `placed` things of the kinds the level
/// lays out, in that order, each fresh and on a cell that was free when it
/// was placed.
pub open spec fn laid_out(
    things: Seq<ThingOnScreen>,
    before: Seq<ThingOnScreen>,
    placed: int,
    level: u8,
    width: u32,
    height: u32,
    body: Seq<ThingOnScreen>,
) -> bool {
    &&& things.len() == before.len() + placed
    &&& things.take(before.len() as int) == before
    &&& forall|k: int|
        before.len() <= k < things.len() ==> {
            &&& is_fresh_thing(#[trigger] things[k], plan_kind(level, k - before.len()))
            &&& is_free(width, height, body, things.take(k), things[k].position)
        }
}

/// `things` is `before` followed by the things of the level laid out in
/// order, all of them, or as many as there were free cells for.
pub open spec fn laid_out_level(
    things: Seq<ThingOnScreen>,
    before: Seq<ThingOnScreen>,
    level: u8,
    width: u32,
    height: u32,
    body: Seq<ThingOnScreen>,
) -> bool {
    exists|placed: int|
        0 <= placed <= plan_len(level) && #[trigger] laid_out(things, before, placed, level, width, height, body)
            && (placed < plan_len(level) ==> !has_free_cell(width, height, body, things))
}

/// A level lays out at most 771 things.
pub proof fn lemma_plan_len_bound(level: u8)
    ensures
        plan_len(level) <= 771,
{
}

/// Counting uneaten foods never gives more than the number of things.
pub proof fn lemma_food_count_len(s: Seq<ThingOnScreen>)
    ensures
        food_count(s) <= s.len(),
    decreases s.len(),
{
    if s.len() > 0 {
        lemma_food_count_len(s.drop_last());
    }
}

/// A food that has not been eaten yet.
pub open spec fn is_live_food(t: ThingOnScreen) -> bool {
    t.kind == ThingKind::Food && t.effect is Some
}

/// How many uneaten foods `things` holds.
pub open spec fn food_count(things: Seq<ThingOnScreen>) -> nat
    decreases things.len(),
{
    if things.len() == 0 {
        0
    } else {
        food_count(things.drop_last()) + if is_live_food(things.last()) { 1nat } else { 0nat }
    }
}

impl Field {
    /// The middle cell of the field.
    pub fn get_center(&self) -> (r: Position)
        ensures
            r.x == self.width / 2,
            r.y == self.height / 2,
    {
        Position { x: self.width / 2, y: self.height / 2 }
    }

    /// The border pieces of a field of the given size, column by column.
    pub fn get_edges(height: u32, width: u32) -> (r: Vec<ThingOnScreen>)
        ensures
            is_border_of(r@, height, width),
    {
        let mut edges: Vec<ThingOnScreen> = Vec::new();
        let mut i: u32 = 0;
        while i < width
            invariant
                i <= width,
                forall|k: int|
                    0 <= k < edges@.len() ==> {
                        let p = #[trigger] edges@[k].position;
                        &&& p.x < i
                        &&& p.y < height
                        &&& is_edge_at(edges@[k], p.x, p.y, height, width)
                    },
                forall|k1: int, k2: int|
                    0 <= k1 < k2 < edges@.len() ==> cell_before(
                        #[trigger] edges@[k1].position,
                        #[trigger] edges@[k2].position,
                    ),
                forall|x: u32, y: u32|
                    x < i && y < height && (#[trigger] edge_code(x, y, height, width)) is Some
                        ==> exists|k: int| 0 <= k < edges@.len() && (#[trigger] edges@[k].position) == (Position { x, y }),
            decreases width - i,
        {
            let mut j: u32 = 0;
            while j < height
                invariant
                    i < width,
                    j <= height,
                    forall|k: int|
                        0 <= k < edges@.len() ==> {
                            let p = #[trigger] edges@[k].position;
                            &&& (p.x < i || (p.x == i && p.y < j))
                            &&& p.y < height
                            &&& is_edge_at(edges@[k], p.x, p.y, height, width)
                        },
                    forall|k1: int, k2: int|
                        0 <= k1 < k2 < edges@.len() ==> cell_before(
                            #[trigger] edges@[k1].position,
                            #[trigger] edges@[k2].position,
                        ),
                    forall|x: u32, y: u32|
                        (x < i || (x == i && y < j)) && y < height && (#[trigger] edge_code(x, y, height, width)) is Some
                            ==> exists|k: int| 0 <= k < edges@.len() && (#[trigger] edges@[k].position) == (Position { x, y }),
                decreases height - j,
            {
                let edge = ThingOnScreen::get_edge(i, j, height, width);
                if let Some(e) = edge {
                    let ghost old_edges = edges@;
                    edges.push(e);
                    assert forall|x: u32, y: u32|
                        (x < i || (x == i && y < j + 1)) && y < height && (#[trigger] edge_code(x, y, height, width)) is Some
                        implies exists|k: int| 0 <= k < edges@.len() && (#[trigger] edges@[k].position) == (Position { x, y })
                    by {
                        if x == i && y == j {
                            assert(edges@[old_edges.len() as int].position == Position { x, y });
                        } else {
                            let k = choose|k: int| 0 <= k < old_edges.len() && (#[trigger] old_edges[k].position) == (Position { x, y });
                            assert(edges@[k] == old_edges[k]);
                        }
                    }
                }
                j = j + 1;
            }
            i = i + 1;
        }
        edges
    }

    /// A field of the given size with its border and nothing on it.
    pub fn new_empty(height: u32, width: u32) -> (r: Self)
        ensures
            r.height == height,
            r.width == width,
            r.things@.len() == 0,
            is_border_of(r.edges@, height, width),
    {
        let things: Vec<ThingOnScreen> = Vec::new();
        Self { edges: Self::get_edges(height, width), things, height, width }
    }

    /// Lays out the things of a level at random free cells: its rocks (five,
    /// and one more per level number), then two foods per level number, then
    /// one drug. Where the field fills up,
    /// the rest is not laid out.
    pub fn gen_things(&mut self, level: u8, cobra: &Cobra)
        ensures
            final(self).edges@ == old(self).edges@,
            final(self).height == old(self).height,
            final(self).width == old(self).width,
            laid_out_level(final(self).things@, old(self).things@, level, old(self).width, old(self).height, cobra.body@),
    {
        let ghost before = self.things@;
        let ghost mut placed: int = 0;
        assert(self.things@.take(before.len() as int) == before);
        // Add rocks
        let rocks: u32 = 5 + level as u32;
        let mut i: u32 = 0;
        while i < rocks
            invariant
                i <= rocks,
                rocks == rock_count(level),
                self.width == old(self).width,
                self.height == old(self).height,
                self.edges@ == old(self).edges@,
                0 <= placed <= i,
                laid_out(self.things@, before, placed, level, self.width, self.height, cobra.body@),
                placed < i ==> !has_free_cell(self.width, self.height, cobra.body@, self.things@),
            decreases rocks - i,
        {
            self.place(ThingKind::Rock, cobra, Ghost(before), Ghost(level), Ghost(placed));
            proof {
                if self.things@.len() > before.len() + placed {
                    placed = placed + 1;
                }
            }
            i = i + 1;
        }
        // Add food
        let foods: u32 = 2 * (level as u32);
        let mut j: u32 = 0;
        while j < foods
            invariant
                j <= foods,
                foods == 2 * level,
                rocks == rock_count(level),
                self.width == old(self).width,
                self.height == old(self).height,
                self.edges@ == old(self).edges@,
                0 <= placed <= rocks + j,
                laid_out(self.things@, before, placed, level, self.width, self.height, cobra.body@),
                placed < rocks + j ==> !has_free_cell(self.width, self.height, cobra.body@, self.things@),
            decreases foods - j,
        {
            self.place(ThingKind::Food, cobra, Ghost(before), Ghost(level), Ghost(placed));
            proof {
                if self.things@.len() > before.len() + placed {
                    placed = placed + 1;
                }
            }
            j = j + 1;
        }
        // Add Drug
        self.place(ThingKind::Drug, cobra, Ghost(before), Ghost(level), Ghost(placed));
        proof {
            if self.things@.len() > before.len() + placed {
                placed = placed + 1;
            }
            assert(laid_out(self.things@, before, placed, level, self.width, self.height, cobra.body@));
        }
    }

    /// Lays out one more thing of the given kind at a random free cell, where
    /// there is one.
    fn place(
        &mut self,
        kind: ThingKind,
        cobra: &Cobra,
        Ghost(before): Ghost<Seq<ThingOnScreen>>,
        Ghost(level): Ghost<u8>,
        Ghost(placed): Ghost<int>,
    )
        requires
            laid_out(old(self).things@, before, placed, level, old(self).width, old(self).height, cobra.body@),
            placed >= 0,
            plan_kind(level, placed) == kind || !has_free_cell(
                old(self).width,
                old(self).height,
                cobra.body@,
                old(self).things@,
            ),
        ensures
            final(self).width == old(self).width,
            final(self).height == old(self).height,
            final(self).edges@ == old(self).edges@,
            final(self).things@.len() == old(self).things@.len() + 1 <==> has_free_cell(
                old(self).width,
                old(self).height,
                cobra.body@,
                old(self).things@,
            ),
            final(self).things@.len() == old(self).things@.len() ==> final(self).things@ == old(self).things@,
            final(self).things@.len() == old(self).things@.len() || final(self).things@.len() == old(self).things@.len() + 1,
            laid_out(
                final(self).things@,
                before,
                final(self).things@.len() - before.len(),
                level,
                old(self).width,
                old(self).height,
                cobra.body@,
            ),
    {
        let thing = ThingOnScreen::gen_at_the_field(kind, self, cobra);
        if let Some(t) = thing {
            let ghost prev = self.things@;
            self.things.push(t);
            proof {
                assert(self.things@.take(prev.len() as int) == prev);
                assert(self.things@.take(before.len() as int) == prev.take(before.len() as int));
                assert forall|k: int| before.len() <= k < self.things@.len() implies {
                    &&& is_fresh_thing(#[trigger] self.things@[k], plan_kind(level, k - before.len()))
                    &&& is_free(self.width, self.height, cobra.body@, self.things@.take(k), self.things@[k].position)
                } by {
                    if k < prev.len() {
                        assert(self.things@.take(k) == prev.take(k));
                    }
                }
            }
        }
    }

    /// How many foods on the field are still there to eat.
    pub fn food_left(&self) -> (r: i32)
        requires
            food_count(self.things@) <= i32::MAX,
        ensures
            r == food_count(self.things@),
    {
        let mut food_left: i32 = 0;
        let mut i: usize = 0;
        while i < self.things.len()
            invariant
                i <= self.things@.len(),
                food_count(self.things@) <= i32::MAX,
                food_left == food_count(self.things@.take(i as int)),
            decreases self.things@.len() - i,
        {
            proof {
                assert(self.things@.take(i as int + 1).drop_last() == self.things@.take(i as int));
                lemma_food_count_prefix(self.things@, i as int + 1);
            }
            let thing = &self.things[i];
            if thing.kind == ThingKind::Food && thing.effect.is_some() {
                food_left = food_left + 1;
            }
            i = i + 1;
        }
        assert(self.things@.take(i as int) == self.things@);
        food_left
    }
}

/// Counting over a prefix never gives more than counting over the whole.
pub proof fn lemma_food_count_prefix(s: Seq<ThingOnScreen>, n: int)
    requires
        0 <= n <= s.len(),
    ensures
        food_count(s.take(n)) <= food_count(s),
    decreases s.len() - n,
{
    if n < s.len() {
        lemma_food_count_prefix(s, n + 1);
        assert(s.take(n + 1).drop_last() == s.take(n));
    } else {
        assert(s.take(n) == s);
    }
}

} // verus!
