use vstd::prelude::*;
use crate::cobra::{
    is_fresh_body, key_direction, lemma_first_on_bounds, move_effect, moved_as, step_head,
    things_after, Cobra, CobraState,
};
use crate::field::{
    food_count, has_free_cell, is_free, is_border_of, laid_out, laid_out_level, lemma_food_count_len, lemma_plan_len_bound, plan_len,
    Field,
};
use crate::keys::{Key, KeyEvent};
use crate::level::Level;
use crate::position::{CobraEffect, Direction, Position};
use crate::thing::ThingOnScreen;

verus! {

/// The whole game: score and tick counters, the level, the field, the cobra,
/// and whether the player asked to quit.
pub struct GameState {
    pub score: i32,
    pub tick: i32,
    pub level: Level,
    pub field: Field,
    pub cobra: Cobra,
    pub set_exit: bool,
}

/// What a tick decided, for the caller to act on before the tick ends.
#[derive(Clone, Copy, PartialEq, Eq, Structural, Debug)]
pub enum TickOutcome {
    /// The player asked to quit; the tick ends here.
    Exit,
    /// The cobra blew up and lost its last life: the game is over.
    GameOver,
    /// The cobra lost a life and the level was laid out anew; another tick
    /// runs before this one ends.
    Died,
    /// All food was eaten, the next level was laid out; another tick runs
    /// before this one ends.
    LevelUp,
    /// The game was over and the player asked for a new one, which was set up.
    Restart,
    /// Nothing more to decide; `power_up` tells whether the cobra took a drug.
    Moved { power_up: bool },
}

/// `pos` is a cell of a field of the given size.
pub open spec fn in_field(pos: Position, width: u32, height: u32) -> bool {
    pos.x < width && pos.y < height
}

/// Every piece of `s` lies on a cell of a field of the given size.
pub open spec fn all_in_field(s: Seq<ThingOnScreen>, width: u32, height: u32) -> bool {
    forall|k: int| 0 <= k < s.len() ==> in_field((#[trigger] s[k]).position, width, height)
}

/// Whether the player asked to quit, after a tick read `key`.
pub open spec fn exit_after(set_exit: bool, key: Option<KeyEvent>) -> bool {
    set_exit || key == Some(KeyEvent::KeyPress(Key::KeyQ))
}

/// Where the cobra heads after a tick read `key`.
pub open spec fn dir_after(dir: Direction, key: Option<KeyEvent>) -> Direction {
    match key {
        Some(k) => if k != KeyEvent::KeyPress(Key::KeyQ) && key_direction(k) is Some {
            key_direction(k)->0
        } else {
            dir
        },
        None => dir,
    }
}

/// Where the head lands on a tick that read `key`.
pub open spec fn head_after(st: GameState, key: Option<KeyEvent>) -> Position {
    step_head(
        st.cobra.body@.last().position,
        dir_after(st.cobra.head_dir, key),
        st.field.height,
        st.field.width,
    )
}

/// The game is over: the cobra is dead with no life left.
pub open spec fn is_game_over(st: GameState) -> bool {
    st.cobra.lives == 0 && st.cobra.state == CobraState::Dead
}

/// A tick that read `key` starts a new game: `R` pressed while the game is
/// over and the player has not asked to quit.
pub open spec fn restarts(st: GameState, key: Option<KeyEvent>) -> bool {
    &&& !st.set_exit
    &&& key == Some(KeyEvent::KeyPress(Key::KeyR))
    &&& is_game_over(st)
}

/// The cobra moves on a tick unless it is dead.
pub open spec fn moves(st: GameState) -> bool {
    st.cobra.state != CobraState::Dead
}

/// The effect of the cobra's move on a tick that read `key`; a dead cobra
/// does not move and feels nothing.
pub open spec fn tick_effect(st: GameState, key: Option<KeyEvent>) -> Option<CobraEffect> {
    if moves(st) {
        move_effect(st.cobra.body@, st.field.edges@, st.field.things@, head_after(st, key))
    } else {
        None
    }
}

/// The things on the field once the cobra has moved on a tick that read `key`.
pub open spec fn things_after_tick(st: GameState, key: Option<KeyEvent>) -> Seq<ThingOnScreen> {
    if moves(st) {
        things_after(st.field.things@, head_after(st, key))
    } else {
        st.field.things@
    }
}

/// The cobra `c` is what the cobra of `st` became by the move of a tick
/// that read `key` (or is unchanged, where it does not move); its lives are
/// settled apart.
pub open spec fn cobra_moved(st: GameState, key: Option<KeyEvent>, c: Cobra) -> bool {
    &&& c.head_dir == dir_after(st.cobra.head_dir, key)
    &&& if moves(st) {
        moved_as(
            st.cobra.body@,
            dir_after(st.cobra.head_dir, key),
            st.cobra.state,
            st.field.edges@,
            st.field.things@,
            st.field.height,
            st.field.width,
            c.body@,
            c.state,
            things_after_tick(st, key),
            tick_effect(st, key),
        )
    } else {
        c.body@ == st.cobra.body@ && c.state == st.cobra.state
    }
}

/// What a tick decides once the cobra has moved with effect `e`, given the
/// lives it had and the food left on the field after the move: a blow-up
/// that takes the last life ends the game.
pub open spec fn outcome_of(e: Option<CobraEffect>, lives: u8, food_left: nat) -> TickOutcome {
    match e {
        Some(CobraEffect::Blow) => if lives <= 1 {
            TickOutcome::GameOver
        } else {
            TickOutcome::Died
        },
        Some(CobraEffect::PowerUp) => TickOutcome::Moved { power_up: true },
        _ => if food_left == 0 {
            TickOutcome::LevelUp
        } else {
            TickOutcome::Moved { power_up: false }
        },
    }
}

/// What a tick that read `key` decides.
pub open spec fn tick_outcome(st: GameState, key: Option<KeyEvent>) -> TickOutcome {
    if exit_after(st.set_exit, key) {
        TickOutcome::Exit
    } else if restarts(st, key) {
        TickOutcome::Restart
    } else {
        outcome_of(tick_effect(st, key), st.cobra.lives, food_count(things_after_tick(st, key)))
    }
}

/// The points a completed level is worth, per level number.
pub const LEVEL_BONUS: u32 = 100;

/// `score` raised by `points`, held at `i32::MAX`.
pub open spec fn raised(score: int, points: int) -> int {
    if score + points > i32::MAX {
        i32::MAX as int
    } else {
        score + points
    }
}

/// The points a tick on which the cobra moved and survived is worth: the
/// level number, doubled on a powered-up tick.
pub open spec fn tick_points(level: u8, power_up: bool) -> int {
    if power_up {
        2 * level
    } else {
        level as int
    }
}

/// The score after a tick that read `key`: a tick on which the cobra moved
/// and survived earns its points, a completed level earns its bonus on top,
/// a new game starts from nothing, and nothing else changes the score.
pub open spec fn score_after_tick(st: GameState, key: Option<KeyEvent>) -> int {
    let earned = if moves(st) { tick_points(st.level.number, false) } else { 0 };
    match tick_outcome(st, key) {
        TickOutcome::Restart => 0,
        TickOutcome::Moved { power_up } => if moves(st) {
            raised(st.score as int, tick_points(st.level.number, power_up))
        } else {
            st.score as int
        },
        TickOutcome::LevelUp => raised(raised(st.score as int, earned), LEVEL_BONUS * st.level.number),
        _ => st.score as int,
    }
}

/// The index of the last piece of `s` lying on `pos` (with an effect left,
/// where `live_only`).
pub open spec fn last_on(s: Seq<ThingOnScreen>, pos: Position, live_only: bool) -> Option<int>
    decreases s.len(),
{
    if s.len() == 0 {
        None
    } else if s.last().position == pos && (!live_only || s.last().effect is Some) {
        Some(s.len() - 1)
    } else {
        last_on(s.drop_last(), pos, live_only)
    }
}

/// What is drawn on the cell `pos` when the things with an effect left are
/// drawn first, then the cobra, then the border, each over what came before.
pub open spec fn top_at(
    things: Seq<ThingOnScreen>,
    body: Seq<ThingOnScreen>,
    edges: Seq<ThingOnScreen>,
    pos: Position,
) -> Option<ThingOnScreen> {
    match last_on(edges, pos, false) {
        Some(k) => Some(edges[k]),
        None => match last_on(body, pos, false) {
            Some(k) => Some(body[k]),
            None => match last_on(things, pos, true) {
                Some(k) => Some(things[k]),
                None => None,
            },
        },
    }
}

/// Drops the reference from a grid cell.
pub open spec fn cell(c: Option<&ThingOnScreen>) -> Option<ThingOnScreen> {
    match c {
        Some(t) => Some(*t),
        None => None,
    }
}

/// The text a drawn cell shows: its markup, or a blank.
pub open spec fn cell_text(c: Option<ThingOnScreen>) -> Seq<char> {
    match c {
        Some(t) => t.value@,
        None => " "@,
    }
}

/// The text of the first `n` cells of row `y` of the game's field.
pub open spec fn row_text(st: GameState, y: u32, n: int) -> Seq<char>
    decreases n,
{
    if n <= 0 {
        Seq::empty()
    } else {
        row_text(st, y, n - 1) + cell_text(
            top_at(st.field.things@, st.cobra.body@, st.field.edges@, Position { x: (n - 1) as u32, y }),
        )
    }
}

impl GameState {
    /// The conditions under which the game runs its ticks: a field at least
    /// three cells wide and one high (its size kept clear of `i32::MAX`,
    /// the range in which the head's step is taken), a cobra of at least one
    /// piece, every piece and thing on the field, and no more things than a
    /// count of them can hold.
    pub open spec fn wf(&self) -> bool {
        &&& 3 <= self.field.width < i32::MAX
        &&& 1 <= self.field.height < i32::MAX
        &&& self.cobra.body@.len() >= 1
        &&& all_in_field(self.cobra.body@, self.field.width, self.field.height)
        &&& all_in_field(self.field.things@, self.field.width, self.field.height)
        &&& all_in_field(self.field.edges@, self.field.width, self.field.height)
        &&& self.field.things@.len() <= i32::MAX
    }

    /// A new game on a terminal of the given size: level one, nothing
    /// scored, three lives, and a field three rows and two columns smaller
    /// than the terminal, bordered and empty.
    pub fn init(height: u32, width: u32) -> (r: Self)
        requires
            height >= 3,
            width >= 4,
        ensures
            r.score == 0,
            r.tick == 0,
            r.level.number == 1,
            r.field.height == height - 3,
            r.field.width == width - 2,
            is_border_of(r.field.edges@, r.field.height, r.field.width),
            r.field.things@.len() == 0,
            is_fresh_body(r.cobra.body@, r.field.height, r.field.width),
            r.cobra.head_dir == Direction::Right,
            r.cobra.state == CobraState::Alive,
            r.cobra.lives == 3,
            !r.set_exit,
            4 <= height && height - 3 < i32::MAX && 5 <= width && width - 2 < i32::MAX ==> r.wf(),
    {
        let field = Field::new_empty(height - 3, width - 2);
        let cobra = Cobra::new(&field, 3);
        Self { score: 0, tick: 0, level: Level::new(1), field, cobra, set_exit: false }
    }

    /// Settles the cobra's blowing up. Losing its last life (or having none)
    /// ends the game: the cobra is dead with no life left, and `true` comes
    /// back. Otherwise the cobra loses a life, starts over, and the level is
    /// laid out anew.
    pub fn kill_cobra(&mut self) -> (game_over: bool)
        requires
            old(self).field.width >= 2,
        ensures
            game_over == (old(self).cobra.lives <= 1),
            game_over ==> {
                &&& final(self).cobra.lives == 0
                &&& final(self).cobra.state == CobraState::Dead
                &&& final(self).cobra.body@ == old(self).cobra.body@
                &&& final(self).cobra.head_dir == old(self).cobra.head_dir
                &&& final(self).field == old(self).field
                &&& final(self).level == old(self).level
                &&& final(self).score == old(self).score
                &&& final(self).tick == old(self).tick
                &&& final(self).set_exit == old(self).set_exit
            },
            !game_over ==> {
                &&& final(self).cobra.lives == old(self).cobra.lives - 1
                &&& is_fresh_body(final(self).cobra.body@, old(self).field.height, old(self).field.width)
                &&& final(self).cobra.head_dir == Direction::Right
                &&& final(self).cobra.state == CobraState::Alive
                &&& laid_out_level(
                    final(self).field.things@,
                    Seq::empty(),
                    old(self).level.number,
                    old(self).field.width,
                    old(self).field.height,
                    final(self).cobra.body@,
                )
                &&& final(self).field.edges@ == old(self).field.edges@
                &&& final(self).field.height == old(self).field.height
                &&& final(self).field.width == old(self).field.width
                &&& final(self).level == old(self).level
                &&& final(self).score == old(self).score
                &&& final(self).tick == old(self).tick
                &&& final(self).set_exit == old(self).set_exit
            },
    {
        if self.cobra.lives <= 1 {
            self.cobra.lives = 0;
            self.cobra.state = CobraState::Dead;
            true
        } else {
            self.cobra.die(&self.field);
            self.reset_level(true);
            false
        }
    }

    /// Clears the field's things and lays out those of the current level
    /// anew, after putting the cobra back in the middle if `reset_cobra`.
    pub fn reset_level(&mut self, reset_cobra: bool)
        requires
            old(self).field.width >= 2,
        ensures
            reset_cobra ==> {
                &&& is_fresh_body(final(self).cobra.body@, old(self).field.height, old(self).field.width)
                &&& final(self).cobra.head_dir == Direction::Right
                &&& final(self).cobra.state == CobraState::Alive
                &&& final(self).cobra.lives == old(self).cobra.lives
            },
            !reset_cobra ==> final(self).cobra == old(self).cobra,
            laid_out_level(
                final(self).field.things@,
                Seq::empty(),
                old(self).level.number,
                old(self).field.width,
                old(self).field.height,
                final(self).cobra.body@,
            ),
            final(self).field.edges@ == old(self).field.edges@,
            final(self).field.height == old(self).field.height,
            final(self).field.width == old(self).field.width,
            final(self).level == old(self).level,
            final(self).score == old(self).score,
            final(self).tick == old(self).tick,
            final(self).set_exit == old(self).set_exit,
    {
        if reset_cobra {
            self.cobra.reset(&self.field);
        }
        self.field.things.clear();
        self.field.gen_things(self.level.number, &self.cobra);
    }

    /// Goes on to the next level and lays it out.
    pub fn level_up(&mut self)
        requires
            old(self).field.width >= 2,
            old(self).level.number < 255,
        ensures
            final(self).level.number == old(self).level.number + 1,
            final(self).cobra == old(self).cobra,
            laid_out_level(
                final(self).field.things@,
                Seq::empty(),
                final(self).level.number,
                old(self).field.width,
                old(self).field.height,
                old(self).cobra.body@,
            ),
            final(self).field.edges@ == old(self).field.edges@,
            final(self).field.height == old(self).field.height,
            final(self).field.width == old(self).field.width,
            final(self).score == old(self).score,
            final(self).tick == old(self).tick,
            final(self).set_exit == old(self).set_exit,
    {
        self.level.number = self.level.number + 1;
        self.reset_level(false);
    }

    /// Starts a new game on the same field: level one, nothing scored, no
    /// tick counted, a fresh cobra with three lives, and the first level laid
    /// out.
    pub fn restart(&mut self)
        requires
            old(self).field.width >= 2,
        ensures
            final(self).score == 0,
            final(self).tick == 0,
            final(self).level.number == 1,
            final(self).cobra.lives == 3,
            final(self).cobra.state == CobraState::Alive,
            final(self).cobra.head_dir == Direction::Right,
            is_fresh_body(final(self).cobra.body@, old(self).field.height, old(self).field.width),
            laid_out_level(
                final(self).field.things@,
                Seq::empty(),
                1,
                old(self).field.width,
                old(self).field.height,
                final(self).cobra.body@,
            ),
            final(self).field.edges@ == old(self).field.edges@,
            final(self).field.height == old(self).field.height,
            final(self).field.width == old(self).field.width,
            final(self).set_exit == old(self).set_exit,
    {
        self.score = 0;
        self.tick = 0;
        self.level = Level::new(1);
        self.cobra = Cobra::new(&self.field, 3);
        self.reset_level(false);
    }

    /// Adds `points` to the score, which stops at `i32::MAX`.
    fn add_points(&mut self, points: u32)
        requires
            points <= i32::MAX,
        ensures
            final(self).score == raised(old(self).score as int, points as int),
            final(self).tick == old(self).tick,
            final(self).level == old(self).level,
            final(self).field == old(self).field,
            final(self).cobra == old(self).cobra,
            final(self).set_exit == old(self).set_exit,
    {
        let p = points as i32;
        if self.score > i32::MAX - p {
            self.score = i32::MAX;
        } else {
            self.score = self.score + p;
        }
    }

    /// The decisions of one tick, given the last key pressed: react to the
    /// key (quit, start a new game after the game is over, or turn); then
    /// move the cobra unless it is dead, and settle what it ran into: a
    /// blow-up costs a life (the last one ends the game), a drug powers the
    /// tick up, and a field without food left goes on to the next level.
    /// A tick on which the cobra moved and survived scores its points, and a
    /// completed level scores its bonus.
    pub fn next_tick(&mut self, key: Option<KeyEvent>) -> (r: TickOutcome)
        requires
            !exit_after(old(self).set_exit, key) ==> old(self).wf(),
            old(self).level.number == 255 ==> tick_outcome(*old(self), key) != TickOutcome::LevelUp,
        ensures
            r == tick_outcome(*old(self), key),
            !exit_after(old(self).set_exit, key) ==> final(self).wf(),
            final(self).set_exit == exit_after(old(self).set_exit, key),
            final(self).score == score_after_tick(*old(self), key),
            final(self).tick == if r == TickOutcome::Restart { 0 } else { old(self).tick },
            final(self).field.edges@ == old(self).field.edges@,
            final(self).field.height == old(self).field.height,
            final(self).field.width == old(self).field.width,
            r == TickOutcome::Exit ==> {
                &&& final(self).cobra.head_dir == dir_after(old(self).cobra.head_dir, key)
                &&& final(self).cobra.body@ == old(self).cobra.body@
                &&& final(self).cobra.state == old(self).cobra.state
                &&& final(self).cobra.lives == old(self).cobra.lives
                &&& final(self).field == old(self).field
                &&& final(self).level == old(self).level
            },
            r == TickOutcome::Restart ==> {
                &&& final(self).level.number == 1
                &&& final(self).cobra.lives == 3
                &&& final(self).cobra.state == CobraState::Alive
                &&& final(self).cobra.head_dir == Direction::Right
                &&& is_fresh_body(final(self).cobra.body@, old(self).field.height, old(self).field.width)
                &&& laid_out_level(
                    final(self).field.things@,
                    Seq::empty(),
                    1,
                    old(self).field.width,
                    old(self).field.height,
                    final(self).cobra.body@,
                )
            },
            r == TickOutcome::Died ==> {
                &&& final(self).cobra.lives == old(self).cobra.lives - 1
                &&& is_fresh_body(final(self).cobra.body@, old(self).field.height, old(self).field.width)
                &&& final(self).cobra.head_dir == Direction::Right
                &&& final(self).cobra.state == CobraState::Alive
                &&& final(self).level == old(self).level
                &&& laid_out_level(
                    final(self).field.things@,
                    Seq::empty(),
                    old(self).level.number,
                    old(self).field.width,
                    old(self).field.height,
                    final(self).cobra.body@,
                )
            },
            r == TickOutcome::GameOver ==> {
                &&& final(self).cobra.lives == 0
                &&& final(self).cobra.state == CobraState::Dead
            },
            (r == TickOutcome::LevelUp || r is Moved) ==> final(self).cobra.lives == old(self).cobra.lives,
            (r == TickOutcome::LevelUp || r is Moved || r == TickOutcome::GameOver) ==> cobra_moved(
                *old(self),
                key,
                final(self).cobra,
            ),
            r == TickOutcome::LevelUp ==> {
                &&& final(self).level.number == old(self).level.number + 1
                &&& laid_out_level(
                    final(self).field.things@,
                    Seq::empty(),
                    final(self).level.number,
                    old(self).field.width,
                    old(self).field.height,
                    final(self).cobra.body@,
                )
            },
            (r is Moved || r == TickOutcome::GameOver) ==> {
                &&& final(self).field.things@ == things_after_tick(*old(self), key)
                &&& final(self).level == old(self).level
            },
    {
        let ghost st0 = *self;
        let restarting = !self.set_exit && matches!(key, Some(KeyEvent::KeyPress(Key::KeyR)))
            && self.cobra.lives == 0 && matches!(self.cobra.state, CobraState::Dead);
        self.handle_keys(key);
        if self.set_exit {
            return TickOutcome::Exit;
        }
        if restarting {
            proof {
                lemma_laid_out_wf(self.field.things@, 1, self.field.width, self.field.height, self.cobra.body@);
            }
            return TickOutcome::Restart;
        }
        let ghost st1 = *self;
        let moved = !matches!(self.cobra.state, CobraState::Dead);
        let mut effect: Option<CobraEffect> = None;
        if moved {
            effect = self.cobra.move_cobra(&mut self.field);
            proof {
                lemma_moved_in_field(st1, st1.cobra.head_dir, self.cobra.body@, self.cobra.state, self.field.things@, effect);
            }
        }
        assert(effect == tick_effect(st0, key));
        assert(self.field.things@ == things_after_tick(st0, key));
        assert(cobra_moved(st0, key, self.cobra));
        assert(self.wf());
        let level = self.level.number as u32;
        match effect {
            Some(CobraEffect::Blow) => {
                if self.kill_cobra() {
                    TickOutcome::GameOver
                } else {
                    proof {
                        lemma_laid_out_wf(self.field.things@, self.level.number, self.field.width, self.field.height, self.cobra.body@);
                    }
                    TickOutcome::Died
                }
            },
            Some(CobraEffect::PowerUp) => {
                self.add_points(2 * level);
                TickOutcome::Moved { power_up: true }
            },
            _ => {
                proof {
                    lemma_food_count_len(self.field.things@);
                }
                if moved {
                    self.add_points(level);
                }
                if self.field.food_left() == 0 {
                    self.add_points(LEVEL_BONUS * level);
                    self.level_up();
                    proof {
                        lemma_laid_out_wf(self.field.things@, self.level.number, self.field.width, self.field.height, self.cobra.body@);
                    }
                    TickOutcome::LevelUp
                } else {
                    TickOutcome::Moved { power_up: false }
                }
            },
        }
    }

    /// The field as a grid of rows, each cell holding what is drawn there:
    /// the things with an effect left, then the cobra over them, then the
    /// border over both.
    pub fn get_field(&self) -> (r: Vec<Vec<Option<&ThingOnScreen>>>)
        requires
            all_in_field(self.cobra.body@, self.field.width, self.field.height),
            all_in_field(self.field.things@, self.field.width, self.field.height),
            all_in_field(self.field.edges@, self.field.width, self.field.height),
        ensures
            r@.len() == self.field.height,
            forall|y: int| 0 <= y < self.field.height ==> (#[trigger] r@[y])@.len() == self.field.width,
            forall|y: int, x: int|
                0 <= y < self.field.height && 0 <= x < self.field.width ==> cell(#[trigger] r@[y]@[x]) == top_at(
                    self.field.things@,
                    self.cobra.body@,
                    self.field.edges@,
                    Position { x: x as u32, y: y as u32 },
                ),
    {
        let ghost things = self.field.things@;
        let ghost body = self.cobra.body@;
        let ghost edges = self.field.edges@;
        let height = self.field.height;
        let width = self.field.width;
        let mut grid: Vec<Vec<Option<&ThingOnScreen>>> = Vec::with_capacity(height as usize);
        let mut i: u32 = 0;
        while i < height
            invariant
                i <= height,
                grid@.len() == i,
                forall|y: int| 0 <= y < i ==> (#[trigger] grid@[y])@.len() == width,
                forall|y: int, x: int| 0 <= y < i && 0 <= x < width ==> (#[trigger] grid@[y]@[x]) is None,
            decreases height - i,
        {
            let mut row: Vec<Option<&ThingOnScreen>> = Vec::with_capacity(width as usize);
            let mut j: u32 = 0;
            while j < width
                invariant
                    j <= width,
                    row@.len() == j,
                    forall|x: int| 0 <= x < j ==> (#[trigger] row@[x]) is None,
                decreases width - j,
            {
                row.push(None);
                j = j + 1;
            }
            grid.push(row);
            i = i + 1;
        }

        let mut k: usize = 0;
        while k < self.field.things.len()
            invariant
                k <= things.len(),
                things == self.field.things@,
                all_in_field(things, width, height),
                grid@.len() == height,
                forall|y: int| 0 <= y < height ==> (#[trigger] grid@[y])@.len() == width,
                forall|y: int, x: int|
                    0 <= y < height && 0 <= x < width ==> cell(#[trigger] grid@[y]@[x]) == match last_on(
                        things.take(k as int),
                        Position { x: x as u32, y: y as u32 },
                        true,
                    ) {
                        Some(m) => Some(things[m]),
                        None => None,
                    },
            decreases things.len() - k,
        {
            proof {
                assert(things.take(k as int + 1).drop_last() == things.take(k as int));
                assert(in_field(things[k as int].position, width, height));
            }
            let thing = &self.field.things[k];
            let (iy, ix) = thing.get_idx();
            if thing.effect.is_some() {
                set_cell(&mut grid, iy, ix, thing);
            }
            k = k + 1;
        }
        assert(things.take(k as int) == things);
        let ghost layer1 = grid@;

        let mut k: usize = 0;
        while k < self.cobra.body.len()
            invariant
                k <= body.len(),
                body == self.cobra.body@,
                things == self.field.things@,
                all_in_field(body, width, height),
                grid@.len() == height,
                forall|y: int| 0 <= y < height ==> (#[trigger] grid@[y])@.len() == width,
                forall|y: int, x: int|
                    0 <= y < height && 0 <= x < width ==> cell(#[trigger] grid@[y]@[x]) == match last_on(
                        body.take(k as int),
                        Position { x: x as u32, y: y as u32 },
                        false,
                    ) {
                        Some(m) => Some(body[m]),
                        None => match last_on(things, Position { x: x as u32, y: y as u32 }, true) {
                            Some(m) => Some(things[m]),
                            None => None,
                        },
                    },
            decreases body.len() - k,
        {
            proof {
                assert(body.take(k as int + 1).drop_last() == body.take(k as int));
                assert(in_field(body[k as int].position, width, height));
            }
            let thing = &self.cobra.body[k];
            let (iy, ix) = thing.get_idx();
            set_cell(&mut grid, iy, ix, thing);
            k = k + 1;
        }
        assert(body.take(k as int) == body);

        let mut k: usize = 0;
        while k < self.field.edges.len()
            invariant
                k <= edges.len(),
                edges == self.field.edges@,
                body == self.cobra.body@,
                things == self.field.things@,
                all_in_field(edges, width, height),
                grid@.len() == height,
                forall|y: int| 0 <= y < height ==> (#[trigger] grid@[y])@.len() == width,
                forall|y: int, x: int|
                    0 <= y < height && 0 <= x < width ==> cell(#[trigger] grid@[y]@[x]) == match last_on(
                        edges.take(k as int),
                        Position { x: x as u32, y: y as u32 },
                        false,
                    ) {
                        Some(m) => Some(edges[m]),
                        None => match last_on(body, Position { x: x as u32, y: y as u32 }, false) {
                            Some(m) => Some(body[m]),
                            None => match last_on(things, Position { x: x as u32, y: y as u32 }, true) {
                                Some(m) => Some(things[m]),
                                None => None,
                            },
                        },
                    },
            decreases edges.len() - k,
        {
            proof {
                assert(edges.take(k as int + 1).drop_last() == edges.take(k as int));
                assert(in_field(edges[k as int].position, width, height));
            }
            let thing = &self.field.edges[k];
            let (iy, ix) = thing.get_idx();
            set_cell(&mut grid, iy, ix, thing);
            k = k + 1;
        }
        assert(edges.take(k as int) == edges);
        grid
    }

    /// The field's rows as text: each cell shows the markup of what is drawn
    /// there (see `get_field`), or a blank.
    pub fn field_lines(&self) -> (r: Vec<String>)
        requires
            all_in_field(self.cobra.body@, self.field.width, self.field.height),
            all_in_field(self.field.things@, self.field.width, self.field.height),
            all_in_field(self.field.edges@, self.field.width, self.field.height),
        ensures
            r@.len() == self.field.height,
            forall|y: int| 0 <= y < self.field.height ==> (#[trigger] r@[y])@ == row_text(*self, y as u32, self.field.width as int),
    {
        let grid = self.get_field();
        let mut lines: Vec<String> = Vec::new();
        let mut y: usize = 0;
        while y < grid.len()
            invariant
                y <= grid@.len(),
                grid@.len() == self.field.height,
                forall|yy: int| 0 <= yy < self.field.height ==> (#[trigger] grid@[yy])@.len() == self.field.width,
                forall|yy: int, x: int|
                    0 <= yy < self.field.height && 0 <= x < self.field.width ==> cell(#[trigger] grid@[yy]@[x]) == top_at(
                        self.field.things@,
                        self.cobra.body@,
                        self.field.edges@,
                        Position { x: x as u32, y: yy as u32 },
                    ),
                lines@.len() == y,
                forall|yy: int| 0 <= yy < y ==> (#[trigger] lines@[yy])@ == row_text(*self, yy as u32, self.field.width as int),
            decreases grid@.len() - y,
        {
            let row = &grid[y];
            let mut line = String::new();
            let mut x: usize = 0;
            while x < row.len()
                invariant
                    y < grid@.len(),
                    *row == grid@[y as int],
                    row@.len() == self.field.width,
                    x <= row@.len(),
                    forall|xx: int| 0 <= xx < self.field.width ==> cell(#[trigger] row@[xx]) == top_at(
                        self.field.things@,
                        self.cobra.body@,
                        self.field.edges@,
                        Position { x: xx as u32, y: y as u32 },
                    ),
                    line@ == row_text(*self, y as u32, x as int),
                decreases row@.len() - x,
            {
                match row[x] {
                    Some(pixel) => line.append(pixel.value.as_str()),
                    None => line.append(" "),
                }
                x = x + 1;
            }
            lines.push(line);
            y = y + 1;
        }
        lines
    }

    /// Whether the tick may be cut short: the last key pressed is an arrow
    /// the way the head already goes, and it is still held down.
    pub fn hurry(&self, key: Option<KeyEvent>, key_is_pressed: bool) -> (r: bool)
        ensures
            r == (key matches Some(k) && key_direction(k) == Some(self.cobra.head_dir) && key_is_pressed),
    {
        if let Some(key) = key {
            let key_dir = self.cobra.dir_from_key(&key);
            if let Some(k) = key_dir {
                if k == self.cobra.head_dir && key_is_pressed {
                    return true;
                }
            }
        }
        false
    }

    /// Counts one more tick.
    pub fn count_tick(&mut self)
        requires
            old(self).tick < i32::MAX,
        ensures
            final(self).tick == old(self).tick + 1,
            final(self).score == old(self).score,
            final(self).level == old(self).level,
            final(self).field == old(self).field,
            final(self).cobra == old(self).cobra,
            final(self).set_exit == old(self).set_exit,
    {
        self.tick = self.tick + 1
    }

    /// Reacts to the last key pressed: `Q` asks to quit, `R` starts a new
    /// game once the game is over (unless the player asked to quit), an arrow
    /// turns the head.
    pub fn handle_keys(&mut self, key: Option<KeyEvent>)
        requires
            restarts(*old(self), key) ==> old(self).field.width >= 2,
        ensures
            final(self).set_exit == exit_after(old(self).set_exit, key),
            restarts(*old(self), key) ==> {
                &&& final(self).score == 0
                &&& final(self).tick == 0
                &&& final(self).level.number == 1
                &&& final(self).cobra.lives == 3
                &&& final(self).cobra.state == CobraState::Alive
                &&& final(self).cobra.head_dir == Direction::Right
                &&& is_fresh_body(final(self).cobra.body@, old(self).field.height, old(self).field.width)
                &&& laid_out_level(
                    final(self).field.things@,
                    Seq::empty(),
                    1,
                    old(self).field.width,
                    old(self).field.height,
                    final(self).cobra.body@,
                )
                &&& final(self).field.edges@ == old(self).field.edges@
                &&& final(self).field.height == old(self).field.height
                &&& final(self).field.width == old(self).field.width
            },
            !restarts(*old(self), key) ==> {
                &&& final(self).cobra.head_dir == dir_after(old(self).cobra.head_dir, key)
                &&& final(self).cobra.body@ == old(self).cobra.body@
                &&& final(self).cobra.state == old(self).cobra.state
                &&& final(self).cobra.lives == old(self).cobra.lives
                &&& final(self).field == old(self).field
                &&& final(self).level == old(self).level
                &&& final(self).score == old(self).score
                &&& final(self).tick == old(self).tick
            },
    {
        if let Some(key) = key {
            let dir = self.cobra.dir_from_key(&key);
            if let KeyEvent::KeyPress(Key::KeyQ) = key {
                self.set_exit = true
            } else if let KeyEvent::KeyPress(Key::KeyR) = key {
                if !self.set_exit && self.cobra.lives == 0 && matches!(self.cobra.state, CobraState::Dead) {
                    self.restart();
                }
            } else if let Some(d) = dir {
                self.cobra.set_direction(d);
            }
        }
    }
}

/// Draws `thing` on the cell in row `iy`, column `ix` of `grid`.
fn set_cell<'a>(grid: &mut Vec<Vec<Option<&'a ThingOnScreen>>>, iy: usize, ix: usize, thing: &'a ThingOnScreen)
    requires
        iy < old(grid)@.len(),
        ix < old(grid)@[iy as int]@.len(),
    ensures
        final(grid)@.len() == old(grid)@.len(),
        forall|y: int| 0 <= y < final(grid)@.len() && y != iy ==> (#[trigger] final(grid)@[y]) == old(grid)@[y],
        final(grid)@[iy as int]@ == old(grid)@[iy as int]@.update(ix as int, Some(thing)),
{
    grid[iy][ix] = Some(thing);
}

/// A move keeps the body and the things on the field.
pub proof fn lemma_moved_in_field(
    st: GameState,
    dir: Direction,
    body1: Seq<ThingOnScreen>,
    state1: CobraState,
    things1: Seq<ThingOnScreen>,
    e: Option<CobraEffect>,
)
    requires
        st.wf(),
        moved_as(
            st.cobra.body@,
            dir,
            st.cobra.state,
            st.field.edges@,
            st.field.things@,
            st.field.height,
            st.field.width,
            body1,
            state1,
            things1,
            e,
        ),
    ensures
        body1.len() >= 1,
        all_in_field(body1, st.field.width, st.field.height),
        all_in_field(things1, st.field.width, st.field.height),
        things1.len() == st.field.things@.len(),
{
    let body0 = st.cobra.body@;
    let n = body0.len() as int;
    let neck = body0[n - 1].position;
    let head = step_head(neck, dir, st.field.height, st.field.width);
    let d: int = if crate::cobra::keeps_tail(e) { 0 } else { 1 };
    assert(in_field(body0[n - 1].position, st.field.width, st.field.height));
    assert(in_field(head, st.field.width, st.field.height));
    assert forall|k: int| 0 <= k < body1.len() implies in_field((#[trigger] body1[k]).position, st.field.width, st.field.height) by {
        if k + d < n - 1 {
            assert(body1[k] == body0[k + d]);
            assert(in_field(body0[k + d].position, st.field.width, st.field.height));
        }
    }
    lemma_first_on_bounds(st.field.things@, head);
    assert forall|k: int| 0 <= k < things1.len() implies in_field((#[trigger] things1[k]).position, st.field.width, st.field.height) by {
        assert(in_field(st.field.things@[k].position, st.field.width, st.field.height));
    }
}

/// Things laid out for a level lie on the field and are few.
pub proof fn lemma_laid_out_wf(
    things: Seq<ThingOnScreen>,
    level: u8,
    width: u32,
    height: u32,
    body: Seq<ThingOnScreen>,
)
    requires
        laid_out_level(things, Seq::empty(), level, width, height, body),
    ensures
        all_in_field(things, width, height),
        things.len() <= 771,
{
    lemma_plan_len_bound(level);
    let placed = choose|placed: int|
        0 <= placed <= plan_len(level) && #[trigger] laid_out(things, Seq::empty(), placed, level, width, height, body)
            && (placed < plan_len(level) ==> !has_free_cell(width, height, body, things));
    assert forall|k: int| 0 <= k < things.len() implies in_field((#[trigger] things[k]).position, width, height) by {
        assert(is_free(width, height, body, things.take(k), things[k].position));
    }
}

} // verus!
