use vstd::prelude::*;
use crate::cobra::{
    body_markup, lemma_straight_markup,
    first_on, lemma_first_on_bounds, moved_as, occupies, step_head, used_up, CobraState,
};
use crate::field::{food_count, has_free_cell, is_free, is_live_food, laid_out, laid_out_level, plan_kind, plan_len, rock_count};
use crate::game::{last_on, top_at, exit_after, moves, raised, restarts, score_after_tick, tick_outcome, GameState, TickOutcome, LEVEL_BONUS};
use crate::keys::KeyEvent;
use crate::level::level_speed;
use crate::position::{free_list, lemma_free_list, Position};
use vstd::arithmetic::div_mod::lemma_small_mod;
use vstd::relations::injective_on;
use vstd::set_lib::{lemma_int_range, lemma_len_subset, lemma_map_size, set_int_range};
use crate::position::{CobraEffect, Direction};
use crate::thing::{edge_code, ThingKind, ThingOnScreen};

verus! {

/// Eating a food grows the cobra by one piece and leaves one food fewer on
/// the field: when the first thing lying where the head lands is a food not
/// yet eaten (still carrying `Grow`), and the head runs into neither the
/// body nor the border, the move's effect is `Grow`, the body gets one piece longer,
/// and the count of uneaten foods drops by one.
pub proof fn law_food_grows_cobra(
    body0: Seq<ThingOnScreen>,
    dir: Direction,
    state0: CobraState,
    edges: Seq<ThingOnScreen>,
    things0: Seq<ThingOnScreen>,
    height: u32,
    width: u32,
    body1: Seq<ThingOnScreen>,
    state1: CobraState,
    things1: Seq<ThingOnScreen>,
    e: Option<CobraEffect>,
)
    requires
        body0.len() >= 1,
        moved_as(body0, dir, state0, edges, things0, height, width, body1, state1, things1, e),
        !occupies(body0, step_head(body0.last().position, dir, height, width)),
        !occupies(edges, step_head(body0.last().position, dir, height, width)),
        first_on(things0, step_head(body0.last().position, dir, height, width)) matches Some(k)
            && things0[k].kind == ThingKind::Food && things0[k].effect == Some(CobraEffect::Grow),
    ensures
        e == Some(CobraEffect::Grow),
        body1.len() == body0.len() + 1,
        food_count(things1) + 1 == food_count(things0),
{
    let head = step_head(body0.last().position, dir, height, width);
    let k = first_on(things0, head)->0;
    lemma_first_on_bounds(things0, head);
    lemma_eating_food(things0, k);
}

/// Running onto a rock blows the cobra up: when the first thing lying where
/// the head lands is a rock with its effect, the move's effect is `Blow`,
/// the cobra is dead, and its tail stays where it was.
pub proof fn law_rock_blows_cobra(
    body0: Seq<ThingOnScreen>,
    dir: Direction,
    state0: CobraState,
    edges: Seq<ThingOnScreen>,
    things0: Seq<ThingOnScreen>,
    height: u32,
    width: u32,
    body1: Seq<ThingOnScreen>,
    state1: CobraState,
    things1: Seq<ThingOnScreen>,
    e: Option<CobraEffect>,
)
    requires
        body0.len() >= 1,
        moved_as(body0, dir, state0, edges, things0, height, width, body1, state1, things1, e),
        first_on(things0, step_head(body0.last().position, dir, height, width)) matches Some(k)
            && things0[k].kind == ThingKind::Rock && things0[k].effect == Some(CobraEffect::Blow),
    ensures
        e == Some(CobraEffect::Blow),
        state1 == CobraState::Dead,
        body1.len() == body0.len() + 1,
{
}

/// Running into the border or into its own body blows the cobra up: when
/// the head lands on a border piece or on a piece of the body, the move's
/// effect is `Blow`, whatever lies there, and the cobra is dead.
pub proof fn law_border_and_body_kill(
    body0: Seq<ThingOnScreen>,
    dir: Direction,
    state0: CobraState,
    edges: Seq<ThingOnScreen>,
    things0: Seq<ThingOnScreen>,
    height: u32,
    width: u32,
    body1: Seq<ThingOnScreen>,
    state1: CobraState,
    things1: Seq<ThingOnScreen>,
    e: Option<CobraEffect>,
)
    requires
        body0.len() >= 1,
        moved_as(body0, dir, state0, edges, things0, height, width, body1, state1, things1, e),
        occupies(body0, step_head(body0.last().position, dir, height, width)) || occupies(
            edges,
            step_head(body0.last().position, dir, height, width),
        ),
    ensures
        e == Some(CobraEffect::Blow),
        state1 == CobraState::Dead,
{
}

/// A move without food or blow-up keeps the cobra's length: the head goes
/// one cell on and the tail follows.
pub proof fn law_plain_move_keeps_length(
    body0: Seq<ThingOnScreen>,
    dir: Direction,
    state0: CobraState,
    edges: Seq<ThingOnScreen>,
    things0: Seq<ThingOnScreen>,
    height: u32,
    width: u32,
    body1: Seq<ThingOnScreen>,
    state1: CobraState,
    things1: Seq<ThingOnScreen>,
    e: Option<CobraEffect>,
)
    requires
        body0.len() >= 1,
        moved_as(body0, dir, state0, edges, things0, height, width, body1, state1, things1, e),
        e is None || e == Some(CobraEffect::PowerUp),
    ensures
        body1.len() == body0.len(),
        forall|k: int| 0 <= k < body0.len() - 2 ==> body1[k] == body0[k + 1],
{
}

/// The things of a level lie on distinct cells, none of them under the
/// cobra: no two things laid out share a cell, and none shares one with a
/// piece of the body it was laid out around.
pub proof fn law_things_never_overlap(
    things: Seq<ThingOnScreen>,
    level: u8,
    width: u32,
    height: u32,
    body: Seq<ThingOnScreen>,
)
    requires
        laid_out_level(things, Seq::empty(), level, width, height, body),
    ensures
        forall|k1: int, k2: int|
            0 <= k1 < k2 < things.len() ==> (#[trigger] things[k1]).position != (#[trigger] things[k2]).position,
        forall|k: int| 0 <= k < things.len() ==> !occupies(body, (#[trigger] things[k]).position),
        forall|k: int| 0 <= k < things.len() ==> (#[trigger] things[k]).position.x < width && things[k].position.y < height,
{
    let placed = choose|placed: int|
        0 <= placed <= plan_len(level) && #[trigger] laid_out(things, Seq::empty(), placed, level, width, height, body)
            && (placed < plan_len(level) ==> !has_free_cell(width, height, body, things));
    assert forall|k1: int, k2: int| 0 <= k1 < k2 < things.len() implies (#[trigger] things[k1]).position != (#[trigger] things[k2]).position by {
        assert(is_free(width, height, body, things.take(k2), things[k2].position));
        assert(things.take(k2)[k1] == things[k1]);
    }
    assert forall|k: int| 0 <= k < things.len() implies !occupies(body, (#[trigger] things[k]).position) by {
        assert(is_free(width, height, body, things.take(k), things[k].position));
    }
    assert forall|k: int| 0 <= k < things.len() implies (#[trigger] things[k]).position.x < width && things[k].position.y < height by {
        assert(is_free(width, height, body, things.take(k), things[k].position));
    }
}

/// The border frames the field: a cell of the field gets a border piece
/// exactly when it lies in the first or last row or column.
pub proof fn law_border_frames_field(x: u32, y: u32, height: u32, width: u32)
    requires
        x < width,
        y < height,
    ensures
        edge_code(x, y, height, width) is Some <==> (x == 0 || y == 0 || x == width - 1 || y == height - 1),
{
}

/// Each level lays out more food and more rocks than the one before it:
/// two foods per level number, and five rocks plus one per level number.
pub proof fn law_more_food_each_level(level: u8)
    requires
        level < 255,
    ensures
        forall|i: int|
            0 <= i < plan_len(level) ==> ((#[trigger] plan_kind(level, i)) == ThingKind::Food <==> (rock_count(level) <= i
                < rock_count(level) + 2 * level)),
        plan_len(level) - rock_count(level) - 1 == 2 * level,
        (plan_len((level + 1) as u8) - rock_count((level + 1) as u8) - 1) == (plan_len(level) - rock_count(level) - 1) + 2,
        rock_count((level + 1) as u8) == rock_count(level) + 1,
{
}

/// The cobra goes faster on each level, and a drug doubles its speed.
pub proof fn law_faster_each_level(l1: u8, l2: u8, power_up: bool)
    requires
        l1 < l2,
    ensures
        level_speed(l1, power_up) < level_speed(l2, power_up),
        level_speed(l1, true) == 2 * level_speed(l1, false),
{
}

/// The score grows on every tick the cobra plays and survives: when the
/// player neither quits nor starts a new game, the cobra is not dead, and
/// the tick neither costs a life nor ends the game, the score rises (unless
/// it already stands at its maximum, or the level number is zero).
pub proof fn law_score_grows_each_tick(st: GameState, key: Option<KeyEvent>)
    requires
        !exit_after(st.set_exit, key),
        !restarts(st, key),
        moves(st),
        tick_outcome(st, key) is Moved || tick_outcome(st, key) == TickOutcome::LevelUp,
        st.level.number >= 1,
        st.score < i32::MAX,
    ensures
        score_after_tick(st, key) > st.score,
        tick_outcome(st, key) == TickOutcome::LevelUp ==> score_after_tick(st, key) >= raised(
            st.score as int,
            LEVEL_BONUS * st.level.number,
        ),
{
}

/// How many of `s` are of the given kind.
pub open spec fn count_kind(s: Seq<ThingOnScreen>, kind: ThingKind) -> nat
    decreases s.len(),
{
    if s.len() == 0 {
        0
    } else {
        count_kind(s.drop_last(), kind) + if s.last().kind == kind { 1nat } else { 0nat }
    }
}

/// Given room enough, a level is laid out in full: when `cells` lists as
/// many distinct cells as the level has things, all of them free before the
/// level is laid out, every thing of the level is placed, and among them are
/// the level's rocks, two foods per level number, and one drug.
pub proof fn law_level_fully_laid_out(
    things: Seq<ThingOnScreen>,
    before: Seq<ThingOnScreen>,
    level: u8,
    width: u32,
    height: u32,
    body: Seq<ThingOnScreen>,
    cells: Seq<Position>,
)
    requires
        laid_out_level(things, before, level, width, height, body),
        cells.len() >= plan_len(level),
        cells.no_duplicates(),
        forall|i: int| 0 <= i < cells.len() ==> is_free(width, height, body, before, #[trigger] cells[i]),
    ensures
        things.len() == before.len() + plan_len(level),
        count_kind(things.skip(before.len() as int), ThingKind::Rock) == rock_count(level),
        count_kind(things.skip(before.len() as int), ThingKind::Food) == 2 * level,
        count_kind(things.skip(before.len() as int), ThingKind::Drug) == 1,
{
    let placed = choose|placed: int|
        0 <= placed <= plan_len(level) && #[trigger] laid_out(things, before, placed, level, width, height, body)
            && (placed < plan_len(level) ==> !has_free_cell(width, height, body, things));
    let b = before.len() as int;
    let n = plan_len(level);
    if placed < n {
        let f = |i: int| (choose|k: int| 0 <= k < things.len() && (#[trigger] things[k]).position == cells[i]) - b;
        assert forall|i: int| 0 <= i < n implies 0 <= #[trigger] f(i) < placed && things[f(i) + b].position == cells[i] by {
            assert(!is_free(width, height, body, things, cells[i]));
            assert(is_free(width, height, body, before, cells[i]));
            assert(occupies(things, cells[i]));
            let k = choose|k: int| 0 <= k < things.len() && (#[trigger] things[k]).position == cells[i];
            if k < b {
                assert(things.take(b)[k] == before[k]);
                assert(occupies(before, cells[i]));
            }
        }
        assert forall|i: int, j: int| 0 <= i < n && 0 <= j < n && #[trigger] f(i) == #[trigger] f(j) implies i == j by {
            assert(things[f(i) + b].position == cells[i]);
            assert(things[f(j) + b].position == cells[j]);
        }
        lemma_pigeonhole(n, placed, f);
    }
    let added = things.skip(b);
    assert forall|i: int| 0 <= i < added.len() implies (#[trigger] added[i]).kind == plan_kind(level, i) by {
        assert(added[i] == things[i + b]);
    }
    lemma_count_plan(added, level);
}

/// Each level lays out more rocks and more food than the one before it:
/// laying out level `level` and level `level + 1` over the same things and
/// cobra, with room enough for the larger level, the second adds more rocks
/// and more foods than the first.
pub proof fn law_more_rocks_and_food_each_level(
    things1: Seq<ThingOnScreen>,
    things2: Seq<ThingOnScreen>,
    before: Seq<ThingOnScreen>,
    level: u8,
    width: u32,
    height: u32,
    body: Seq<ThingOnScreen>,
    cells: Seq<Position>,
)
    requires
        level < 255,
        laid_out_level(things1, before, level, width, height, body),
        laid_out_level(things2, before, (level + 1) as u8, width, height, body),
        cells.len() >= plan_len((level + 1) as u8),
        cells.no_duplicates(),
        forall|i: int| 0 <= i < cells.len() ==> is_free(width, height, body, before, #[trigger] cells[i]),
    ensures
        count_kind(things2.skip(before.len() as int), ThingKind::Rock) > count_kind(
            things1.skip(before.len() as int),
            ThingKind::Rock,
        ),
        count_kind(things2.skip(before.len() as int), ThingKind::Food) > count_kind(
            things1.skip(before.len() as int),
            ThingKind::Food,
        ),
{
    law_level_fully_laid_out(things1, before, level, width, height, body, cells);
    law_level_fully_laid_out(things2, before, (level + 1) as u8, width, height, body, cells);
}

/// The kinds laid out in plan order, counted: a prefix of `n` things of the
/// plan holds the rocks, foods and drug that fall within it.
pub proof fn lemma_count_plan(s: Seq<ThingOnScreen>, level: u8)
    requires
        s.len() <= plan_len(level),
        forall|i: int| 0 <= i < s.len() ==> (#[trigger] s[i]).kind == plan_kind(level, i),
    ensures
        count_kind(s, ThingKind::Rock) == if s.len() < rock_count(level) { s.len() as int } else { rock_count(level) },
        count_kind(s, ThingKind::Food) == if s.len() < rock_count(level) {
            0
        } else if s.len() < rock_count(level) + 2 * level {
            s.len() - rock_count(level)
        } else {
            2 * level
        },
        count_kind(s, ThingKind::Drug) == if s.len() == plan_len(level) { 1int } else { 0int },
    decreases s.len(),
{
    if s.len() > 0 {
        let t = s.drop_last();
        assert forall|i: int| 0 <= i < t.len() implies (#[trigger] t[i]).kind == plan_kind(level, i) by {
            assert(t[i] == s[i]);
        }
        lemma_count_plan(t, level);
    }
}

/// An injective map from `0..n` into `0..m` needs `n <= m`.
pub proof fn lemma_pigeonhole(n: int, m: int, f: spec_fn(int) -> int)
    requires
        0 <= n,
        0 <= m,
        forall|i: int| 0 <= i < n ==> 0 <= #[trigger] f(i) < m,
        forall|i: int, j: int| 0 <= i < n && 0 <= j < n && #[trigger] f(i) == #[trigger] f(j) ==> i == j,
    ensures
        n <= m,
{
    let x = set_int_range(0, n);
    lemma_int_range(0, n);
    lemma_int_range(0, m);
    let y = x.map(f);
    assert(injective_on(f, x));
    lemma_map_size(x, y, f);
    assert(y.subset_of(set_int_range(0, m)));
    lemma_len_subset(y, set_int_range(0, m));
}

/// Using up an uneaten food lowers the count of uneaten foods by one.
pub proof fn lemma_eating_food(s: Seq<ThingOnScreen>, k: int)
    requires
        0 <= k < s.len(),
        is_live_food(s[k]),
    ensures
        food_count(s.update(k, used_up(s[k]))) + 1 == food_count(s),
    decreases s.len(),
{
    let t = s.update(k, used_up(s[k]));
    if k == s.len() - 1 {
        assert(t.drop_last() == s.drop_last());
    } else {
        lemma_eating_food(s.drop_last(), k);
        assert(t.drop_last() == s.drop_last().update(k, used_up(s[k])));
    }
}


/// The head moves to a cell next to the neck, never farther: it stays on
/// the field, differs from the neck in at most one coordinate by at most
/// one, goes exactly one cell in its direction when the field has room
/// there, and stays on the neck's cell against the field's side.
pub proof fn law_head_steps_to_a_neighbour(neck: Position, dir: Direction, height: u32, width: u32)
    requires
        neck.x < width,
        neck.y < height,
    ensures
        ({
            let head = step_head(neck, dir, height, width);
            &&& head.x < width && head.y < height
            &&& (head.x == neck.x && (head.y == neck.y || head.y + 1 == neck.y || head.y == neck.y + 1)) || (
            head.y == neck.y && (head.x + 1 == neck.x || head.x == neck.x + 1))
            &&& dir == Direction::Up ==> if neck.y >= 1 {
                head.x == neck.x && head.y + 1 == neck.y
            } else {
                head == neck
            }
            &&& dir == Direction::Down ==> if neck.y + 1 < height {
                head.x == neck.x && head.y == neck.y + 1
            } else {
                head == neck
            }
            &&& dir == Direction::Left ==> if neck.x >= 1 {
                head.y == neck.y && head.x + 1 == neck.x
            } else {
                head == neck
            }
            &&& dir == Direction::Right ==> if neck.x + 1 < width {
                head.y == neck.y && head.x == neck.x + 1
            } else {
                head == neck
            }
        }),
{
}

/// A straight body piece is drawn the same whichever way the cobra crawls:
/// a piece whose two neighbours lie in one row (on different columns) is
/// horizontal, `@G#2501`; one whose neighbours lie in one column (on
/// different rows) is vertical, `@G#2503`; swapping the neighbours changes
/// neither. A head or tail is horizontal when its one neighbour shares its
/// row, and vertical otherwise.
pub proof fn law_straight_pieces(pp: Position, pos: Position, np: Position)
    ensures
        pp.y == np.y && pp.x != np.x ==> body_markup(Some(pp), pos, Some(np)) == "@G#2501"@,
        pp.x == np.x && pp.y != np.y ==> body_markup(Some(pp), pos, Some(np)) == "@G#2503"@,
        (pp.y == np.y && pp.x != np.x) || (pp.x == np.x && pp.y != np.y) ==> body_markup(Some(pp), pos, Some(np))
            == body_markup(Some(np), pos, Some(pp)),
        body_markup(Some(pp), pos, None) == if pp.y == pos.y { "@G#2501"@ } else { "@G#2503"@ },
        body_markup(None, pos, Some(np)) == if np.y == pos.y { "@G#2501"@ } else { "@G#2503"@ },
{
    lemma_straight_markup();
    lemma_upright_markup();
}

/// The vertical body piece is drawn with `@G#2503`.
pub proof fn lemma_upright_markup()
    ensures
        "@G"@ + "#2503"@ == "@G#2503"@,
{
    reveal_strlit("@G");
    reveal_strlit("#2503");
    reveal_strlit("@G#2503");
    assert("@G"@ + "#2503"@ =~= "@G#2503"@);
}

/// The border is drawn over everything, the cobra over the things: a cell
/// holding a border piece shows a border piece lying there; a cell without
/// one but with a body piece shows a body piece lying there; a cell with
/// neither shows a thing lying there that still has its effect, if there is
/// one, and nothing otherwise.
pub proof fn law_border_over_cobra_over_things(
    things: Seq<ThingOnScreen>,
    body: Seq<ThingOnScreen>,
    edges: Seq<ThingOnScreen>,
    pos: Position,
)
    ensures
        occupies(edges, pos) ==> exists|k: int|
            0 <= k < edges.len() && (#[trigger] edges[k]).position == pos && top_at(things, body, edges, pos) == Some(
                edges[k],
            ),
        !occupies(edges, pos) && occupies(body, pos) ==> exists|k: int|
            0 <= k < body.len() && (#[trigger] body[k]).position == pos && top_at(things, body, edges, pos) == Some(
                body[k],
            ),
        !occupies(edges, pos) && !occupies(body, pos) ==> match top_at(things, body, edges, pos) {
            Some(t) => exists|k: int|
                0 <= k < things.len() && (#[trigger] things[k]) == t && t.position == pos && t.effect is Some,
            None => forall|k: int| 0 <= k < things.len() && (#[trigger] things[k]).position == pos ==> things[k].effect is None,
        },
{
    lemma_last_on(edges, pos, false);
    lemma_last_on(body, pos, false);
    lemma_last_on(things, pos, true);
}

/// `last_on` finds a piece lying on `pos` (with its effect, where
/// `live_only`) exactly when there is one.
pub proof fn lemma_last_on(s: Seq<ThingOnScreen>, pos: Position, live_only: bool)
    ensures
        last_on(s, pos, live_only) matches Some(k) ==> 0 <= k < s.len() && s[k].position == pos && (!live_only
            || s[k].effect is Some),
        last_on(s, pos, live_only) is None ==> forall|k: int|
            0 <= k < s.len() && (#[trigger] s[k]).position == pos ==> live_only && s[k].effect is None,
    decreases s.len(),
{
    if s.len() > 0 {
        let t = s.drop_last();
        lemma_last_on(t, pos, live_only);
        assert forall|k: int| 0 <= k < t.len() implies t[k] == s[k] by {}
    }
}

/// A tick on which the cobra moves and survives scores the level number,
/// twice that on a powered-up tick (while the score stays below its cap).
pub proof fn law_tick_scores_the_level(st: GameState, key: Option<KeyEvent>)
    requires
        !exit_after(st.set_exit, key),
        !restarts(st, key),
        moves(st),
        tick_outcome(st, key) is Moved,
        st.score + 2 * st.level.number <= i32::MAX,
    ensures
        tick_outcome(st, key) == (TickOutcome::Moved { power_up: true }) ==> score_after_tick(st, key) == st.score + 2
            * st.level.number,
        tick_outcome(st, key) == (TickOutcome::Moved { power_up: false }) ==> score_after_tick(st, key) == st.score
            + st.level.number,
{
}

/// A tick that completes a level, with the cobra moving, scores the level
/// number for the tick and a hundred times the level number for the level
/// (while the score stays below its cap).
pub proof fn law_level_scores_a_bonus(st: GameState, key: Option<KeyEvent>)
    requires
        !exit_after(st.set_exit, key),
        !restarts(st, key),
        moves(st),
        tick_outcome(st, key) == TickOutcome::LevelUp,
        st.score + 101 * st.level.number <= i32::MAX,
    ensures
        score_after_tick(st, key) == st.score + st.level.number + 100 * st.level.number,
{
}


/// Every free cell can be picked, each by its own draw: for a free cell
/// `p` there is a draw below the number of free cells for which
/// `pick_free_cell` gives `p`, and two different draws below that number
/// pick different cells.
pub proof fn law_every_free_cell_can_be_picked(
    width: u32,
    height: u32,
    body: Seq<ThingOnScreen>,
    things: Seq<ThingOnScreen>,
    p: Position,
)
    requires
        is_free(width, height, body, things, p),
    ensures
        ({
            let free = free_list(width, height, body, things);
            &&& free.len() > 0
            &&& exists|d: int| 0 <= d < free.len() && #[trigger] free[d % free.len() as int] == p
            &&& forall|d1: int, d2: int|
                0 <= d1 < free.len() && 0 <= d2 < free.len() && d1 != d2 ==> #[trigger] free[d1 % free.len() as int]
                    != #[trigger] free[d2 % free.len() as int]
            &&& forall|d: int| 0 <= d ==> is_free(width, height, body, things, #[trigger] free[d % free.len() as int])
        }),
{
    lemma_free_list(width, height, body, things);
    let free = free_list(width, height, body, things);
    assert(free.contains(p));
    let d = choose|d: int| 0 <= d < free.len() && free[d] == p;
    lemma_small_mod(d as nat, free.len());
    assert forall|d1: int, d2: int|
        0 <= d1 < free.len() && 0 <= d2 < free.len() && d1 != d2 implies #[trigger] free[d1 % free.len() as int]
            != #[trigger] free[d2 % free.len() as int] by {
        lemma_small_mod(d1 as nat, free.len());
        lemma_small_mod(d2 as nat, free.len());
    }
    assert forall|d: int| 0 <= d implies is_free(width, height, body, things, #[trigger] free[d % free.len() as int]) by {
        let k = d % free.len() as int;
        assert(0 <= k < free.len());
    }
}

} // verus!
