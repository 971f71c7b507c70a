use vstd::prelude::*;
use crate::cobra::{occupies, Cobra};
use crate::field::{has_free_cell, is_free, Field};
use crate::thing::ThingOnScreen;
use crate::random::random_between;

verus! {

/// A cell of the playing field: `x` is the column, `y` the row.
#[derive(Clone, Copy, PartialEq, Eq, Structural, Debug)]
pub struct Position {
    pub x: u32,
    pub y: u32,
}

impl Position {
    /// A cell of `field` drawn at random.
    pub fn new(field: &Field) -> (r: Self)
        requires
            field.width >= 1,
            field.height >= 1,
        ensures
            r.x < field.width,
            r.y < field.height,
    {
        let x = random_between(0, (field.width - 1) as u64) as u32;
        let y = random_between(0, (field.height - 1) as u64) as u32;
        Self { x, y }
    }

    /// A free cell of `field` (one on which neither the cobra nor any thing
    /// lies) chosen at random, or `None` where the field has no free cell.
    ///
    /// Cells are drawn at random until a free one comes up. After
    /// `RANDOM_DRAWS` draws have all landed on taken cells, a random draw
    /// over all of `u64` picks among the free cells themselves
    /// (`pick_free_cell`): the outcome is the same uniform choice among the
    /// free cells, but for a bias of at most their number in 2^64, and a
    /// full field is recognised instead of being drawn from for ever.
    pub fn gen_without_collision(field: &Field, cobra: &Cobra) -> (r: Option<Self>)
        ensures
            r is Some <==> has_free_cell(field.width, field.height, cobra.body@, field.things@),
            r matches Some(p) ==> is_free(field.width, field.height, cobra.body@, field.things@, p),
    {
        if field.width == 0 || field.height == 0 {
            return None;
        }
        let mut draws: u32 = 0;
        while draws < RANDOM_DRAWS
            invariant
                field.width >= 1,
                field.height >= 1,
            decreases RANDOM_DRAWS - draws,
        {
            let new_pos = Self::new(field);
            if !cobra.collide(&new_pos) && !lies_on_thing(field, &new_pos) {
                proof {
                    assert(is_free(field.width, field.height, cobra.body@, field.things@, new_pos));
                }
                return Some(new_pos);
            }
            draws = draws + 1;
        }
        let draw = random_between(0, u64::MAX);
        proof {
            lemma_free_list(field.width, field.height, cobra.body@, field.things@);
        }
        Self::pick_free_cell(field, cobra, draw)
    }

    /// The free cell of `field` that `draw` picks: counting the free cells
    /// column by column, each top to bottom, the one at `draw` modulo their
    /// number; `None` where the field has no free cell.
    pub fn pick_free_cell(field: &Field, cobra: &Cobra, draw: u64) -> (r: Option<Self>)
        ensures
            ({
                let free = free_list(field.width, field.height, cobra.body@, field.things@);
                r == if free.len() == 0 {
                    None
                } else {
                    Some(free[draw as int % free.len() as int])
                }
            }),
    {
        let free = free_cells(field, cobra);
        if free.len() == 0 {
            None
        } else {
            let k = (draw % (free.len() as u64)) as usize;
            Some(free[k])
        }
    }
}

/// The free cells of a field, listed: each lies on the field, free; each
/// free cell is listed exactly once; so the list is empty exactly when the
/// field has no free cell.
pub proof fn lemma_free_list(width: u32, height: u32, body: Seq<ThingOnScreen>, things: Seq<ThingOnScreen>)
    ensures
        ({
            let c = free_list(width, height, body, things);
            &&& forall|k: int| 0 <= k < c.len() ==> is_free(width, height, body, things, #[trigger] c[k])
            &&& forall|p: Position| #[trigger] is_free(width, height, body, things, p) ==> c.contains(p)
            &&& c.no_duplicates()
            &&& c.len() > 0 <==> has_free_cell(width, height, body, things)
        }),
{
    lemma_free_in_columns(width, height, body, things, width as int);
    let c = free_list(width, height, body, things);
    assert forall|i: int, j: int| 0 <= i < c.len() && 0 <= j < c.len() && i != j implies c[i] != c[j] by {
        if i < j {
            assert(cell_before_pos(c[i], c[j]));
        } else {
            assert(cell_before_pos(c[j], c[i]));
        }
    }
    if c.len() > 0 {
        assert(is_free(width, height, body, things, c[0]));
    }
    if has_free_cell(width, height, body, things) {
        let p = choose|p: Position| #[trigger] is_free(width, height, body, things, p);
        assert(c.contains(p));
    }
}

/// How many cells are drawn at random before the choice is made among the
/// free cells directly.
pub const RANDOM_DRAWS: u32 = 1000;

/// Whether any thing on `field` lies on `pos`.
fn lies_on_thing(field: &Field, pos: &Position) -> (r: bool)
    ensures
        r == occupies(field.things@, *pos),
{
    let mut i: usize = 0;
    while i < field.things.len()
        invariant
            i <= field.things@.len(),
            forall|k: int| 0 <= k < i ==> (#[trigger] field.things@[k]).position != *pos,
        decreases field.things@.len() - i,
    {
        if field.things[i].collide(pos, false) {
            return true;
        }
        i = i + 1;
    }
    false
}

/// The free cells of column `x` in rows `0..y`, top to bottom.
pub open spec fn free_in_column(
    width: u32,
    height: u32,
    body: Seq<ThingOnScreen>,
    things: Seq<ThingOnScreen>,
    x: u32,
    y: int,
) -> Seq<Position>
    decreases y,
{
    if y <= 0 {
        Seq::empty()
    } else {
        let rest = free_in_column(width, height, body, things, x, y - 1);
        let p = Position { x, y: (y - 1) as u32 };
        if is_free(width, height, body, things, p) {
            rest.push(p)
        } else {
            rest
        }
    }
}

/// The free cells of columns `0..x`, column by column, each top to bottom.
pub open spec fn free_in_columns(
    width: u32,
    height: u32,
    body: Seq<ThingOnScreen>,
    things: Seq<ThingOnScreen>,
    x: int,
) -> Seq<Position>
    decreases x,
{
    if x <= 0 {
        Seq::empty()
    } else {
        free_in_columns(width, height, body, things, x - 1) + free_in_column(
            width,
            height,
            body,
            things,
            (x - 1) as u32,
            height as int,
        )
    }
}

/// The free cells of a field, column by column, each top to bottom.
pub open spec fn free_list(width: u32, height: u32, body: Seq<ThingOnScreen>, things: Seq<ThingOnScreen>) -> Seq<
    Position,
> {
    free_in_columns(width, height, body, things, width as int)
}

/// The free cells of part of a column lie in that column, in those rows,
/// top to bottom, and every free cell there is among them.
pub proof fn lemma_free_in_column(
    width: u32,
    height: u32,
    body: Seq<ThingOnScreen>,
    things: Seq<ThingOnScreen>,
    x: u32,
    y: int,
)
    requires
        y <= height,
    ensures
        ({
            let c = free_in_column(width, height, body, things, x, y);
            &&& forall|k: int|
                0 <= k < c.len() ==> (#[trigger] c[k]).x == x && c[k].y < y && is_free(width, height, body, things, c[k])
            &&& forall|k1: int, k2: int| 0 <= k1 < k2 < c.len() ==> (#[trigger] c[k1]).y < (#[trigger] c[k2]).y
            &&& forall|p: Position|
                p.x == x && p.y < y && #[trigger] is_free(width, height, body, things, p) ==> c.contains(p)
        }),
    decreases y,
{
    if y > 0 {
        lemma_free_in_column(width, height, body, things, x, y - 1);
        let rest = free_in_column(width, height, body, things, x, y - 1);
        let c = free_in_column(width, height, body, things, x, y);
        assert forall|p: Position|
            p.x == x && p.y < y && #[trigger] is_free(width, height, body, things, p) implies c.contains(p) by {
            if p.y == y - 1 {
                assert(c[c.len() - 1] == p);
            } else {
                let k = choose|k: int| 0 <= k < rest.len() && rest[k] == p;
                assert(c[k] == p);
            }
        }
    }
}

/// The free cells of the first columns lie in those columns, column by
/// column, and every free cell there is among them.
pub proof fn lemma_free_in_columns(
    width: u32,
    height: u32,
    body: Seq<ThingOnScreen>,
    things: Seq<ThingOnScreen>,
    x: int,
)
    requires
        x <= width,
    ensures
        ({
            let c = free_in_columns(width, height, body, things, x);
            &&& forall|k: int| 0 <= k < c.len() ==> (#[trigger] c[k]).x < x && is_free(width, height, body, things, c[k])
            &&& forall|k1: int, k2: int| 0 <= k1 < k2 < c.len() ==> cell_before_pos(#[trigger] c[k1], #[trigger] c[k2])
            &&& forall|p: Position| p.x < x && #[trigger] is_free(width, height, body, things, p) ==> c.contains(p)
        }),
    decreases x,
{
    if x > 0 {
        lemma_free_in_columns(width, height, body, things, x - 1);
        lemma_free_in_column(width, height, body, things, (x - 1) as u32, height as int);
        let a = free_in_columns(width, height, body, things, x - 1);
        let b = free_in_column(width, height, body, things, (x - 1) as u32, height as int);
        let c = free_in_columns(width, height, body, things, x);
        assert(c == a + b);
        assert forall|k: int| 0 <= k < c.len() implies (#[trigger] c[k]).x < x && is_free(width, height, body, things, c[k]) by {
            if k >= a.len() {
                assert(c[k] == b[k - a.len()]);
            }
        }
        assert forall|k1: int, k2: int| 0 <= k1 < k2 < c.len() implies cell_before_pos(#[trigger] c[k1], #[trigger] c[k2]) by {
            if k2 >= a.len() {
                assert(c[k2] == b[k2 - a.len()]);
                if k1 >= a.len() {
                    assert(c[k1] == b[k1 - a.len()]);
                }
            }
        }
        assert forall|p: Position| p.x < x && #[trigger] is_free(width, height, body, things, p) implies c.contains(p) by {
            if p.x == x - 1 {
                assert(p.y < height);
                let k = choose|k: int| 0 <= k < b.len() && b[k] == p;
                assert(c[a.len() + k] == p);
            } else {
                let k = choose|k: int| 0 <= k < a.len() && a[k] == p;
                assert(c[k] == p);
            }
        }
    }
}

/// `a` comes before `b` when cells are taken column by column, top to bottom.
pub open spec fn cell_before_pos(a: Position, b: Position) -> bool {
    a.x < b.x || (a.x == b.x && a.y < b.y)
}

/// Every free cell of `field`, column by column, each top to bottom.
fn free_cells(field: &Field, cobra: &Cobra) -> (r: Vec<Position>)
    ensures
        r@ == free_list(field.width, field.height, cobra.body@, field.things@),
{
    let ghost w = field.width;
    let ghost h = field.height;
    let ghost body = cobra.body@;
    let ghost things = field.things@;
    let mut free: Vec<Position> = Vec::new();
    let mut x: u32 = 0;
    while x < field.width
        invariant
            x <= field.width,
            w == field.width && h == field.height && body == cobra.body@ && things == field.things@,
            free@ == free_in_columns(w, h, body, things, x as int),
        decreases field.width - x,
    {
        let mut y: u32 = 0;
        while y < field.height
            invariant
                x < field.width,
                y <= field.height,
                w == field.width && h == field.height && body == cobra.body@ && things == field.things@,
                free@ == free_in_columns(w, h, body, things, x as int) + free_in_column(w, h, body, things, x, y as int),
            decreases field.height - y,
        {
            let pos = Position { x, y };
            let ghost before = free@;
            if !cobra.collide(&pos) && !lies_on_thing(field, &pos) {
                free.push(pos);
                assert(free@ == free_in_columns(w, h, body, things, x as int) + free_in_column(
                    w,
                    h,
                    body,
                    things,
                    x,
                    y as int + 1,
                ));
            } else {
                assert(free_in_column(w, h, body, things, x, y as int + 1) == free_in_column(w, h, body, things, x, y as int));
            }
            y = y + 1;
        }
        assert(free_in_columns(w, h, body, things, x as int + 1) == free_in_columns(w, h, body, things, x as int)
            + free_in_column(w, h, body, things, x, h as int));
        x = x + 1;
    }
    free
}

/// What touching a thing does to the cobra.
#[derive(Clone, Copy, PartialEq, Eq, Structural, Debug)]
pub enum CobraEffect {
    Blow,
    Grow,
    PowerUp,
}

/// The way the cobra's head is heading.
#[derive(Clone, Copy, PartialEq, Eq, Structural, Debug)]
pub enum Direction {
    Up,
    Down,
    Right,
    Left,
}

} // verus!
