use vstd::prelude::*;
use crate::field::Field;
use crate::keys::{Key, KeyEvent};
use crate::position::{CobraEffect, Direction, Position};
use crate::thing::{ThingKind, ThingOnScreen};

verus! {

/// How the cobra is doing.
#[derive(Clone, Copy, PartialEq, Eq, Structural, Debug)]
pub enum CobraState {
    Alive,
    PoweredUp,
    Dead,
}

/// The cobra: its body from tail (first) to head (last), where the head is
/// going, how it is doing, and the lives it has left.
pub struct Cobra {
    pub body: Vec<ThingOnScreen>,
    pub head_dir: Direction,
    pub state: CobraState,
    pub lives: u8,
}

/// Drops the reference from an optional neighbour cell.
pub open spec fn opt_pos(p: Option<&Position>) -> Option<Position> {
    match p {
        Some(q) => Some(*q),
        None => None,
    }
}

/// The line-drawing code of a body piece at `pos` whose neighbours towards
/// the tail and towards the head are `prev` and `next`.
pub open spec fn body_code(prev: Option<Position>, pos: Position, next: Option<Position>) -> Seq<char> {
    match (prev, next) {
        (Some(pp), Some(np)) => if pp.x != np.x && pp.y == np.y {
            "#2501"@
        } else if pp.x == np.x && pp.y != np.y {
            "#2503"@
        } else if (pp.x == pos.x && pp.y > pos.y && np.x > pos.x && np.y == pos.y) || (pp.x < pos.x
            && pp.y == pos.y && np.x == pos.x && np.y > pos.y) {
            "#2517"@
        } else if (pp.x == pos.x && pp.y < pos.y && np.x > pos.x && np.y == pos.y) || (pp.x > pos.x
            && pp.y == pos.y && np.x == pos.x && np.y < pos.y) {
            "#250F"@
        } else if (pp.x < pos.x && pp.y == pos.y && np.x == pos.x && np.y < pos.y) || (pp.x == pos.x
            && pp.y < pos.y && np.x < pos.x && np.y == pos.y) {
            "#2513"@
        } else if (pp.x < pos.x && pp.y == pos.y && np.x == pos.x && np.y > pos.y) || (pp.x == pos.x
            && pp.y > pos.y && np.x < pos.x && np.y == pos.y) {
            "#251B"@
        } else {
            Seq::empty()
        },
        (Some(pp), None) => if pp.y == pos.y {
            "#2501"@
        } else {
            "#2503"@
        },
        (None, Some(np)) => if np.y == pos.y {
            "#2501"@
        } else {
            "#2503"@
        },
        (None, None) => Seq::empty(),
    }
}

/// The markup of a body piece.
pub open spec fn body_markup(prev: Option<Position>, pos: Position, next: Option<Position>) -> Seq<char> {
    "@G"@ + body_code(prev, pos, next)
}

/// `t` is a body piece at `pos` drawn with `markup`.
pub open spec fn is_body_piece(t: ThingOnScreen, pos: Position, markup: Seq<char>) -> bool {
    &&& t.position == pos
    &&& t.kind == ThingKind::Cobra
    &&& t.effect is None
    &&& t.value@ == markup
}

/// Some piece of `s` lies on `pos`.
pub open spec fn occupies(s: Seq<ThingOnScreen>, pos: Position) -> bool {
    exists|i: int| 0 <= i < s.len() && (#[trigger] s[i]).position == pos
}

/// The three-piece horizontal body a cobra starts with, centred on the
/// middle of a field of the given size.
pub open spec fn is_fresh_body(body: Seq<ThingOnScreen>, height: u32, width: u32) -> bool {
    let c = Position { x: width / 2, y: height / 2 };
    &&& body.len() == 3
    &&& is_body_piece(body[0], Position { x: (c.x - 1) as u32, y: c.y }, "@G#2501"@)
    &&& is_body_piece(body[1], c, "@G#2501"@)
    &&& is_body_piece(body[2], Position { x: (c.x + 1) as u32, y: c.y }, "@G#2501"@)
}

/// The direction a key press asks for, if any.
pub open spec fn key_direction(key: KeyEvent) -> Option<Direction> {
    match key {
        KeyEvent::KeyPress(Key::UpArrow) => Some(Direction::Up),
        KeyEvent::KeyPress(Key::DownArrow) => Some(Direction::Down),
        KeyEvent::KeyPress(Key::RightArrow) => Some(Direction::Right),
        KeyEvent::KeyPress(Key::LeftArrow) => Some(Direction::Left),
        _ => None,
    }
}

/// Where the head goes from `neck` when heading `dir` on a field of the
/// given size: one cell on, but never past the first or last row or column.
pub open spec fn step_head(neck: Position, dir: Direction, height: u32, width: u32) -> Position {
    match dir {
        Direction::Up => Position { x: neck.x, y: if neck.y == 0 { 0 } else { (neck.y - 1) as u32 } },
        Direction::Down => Position {
            x: neck.x,
            y: if neck.y + 1 <= height - 1 { (neck.y + 1) as u32 } else { (height - 1) as u32 },
        },
        Direction::Right => Position {
            x: if neck.x + 1 <= width - 1 { (neck.x + 1) as u32 } else { (width - 1) as u32 },
            y: neck.y,
        },
        Direction::Left => Position { x: if neck.x == 0 { 0 } else { (neck.x - 1) as u32 }, y: neck.y },
    }
}

/// The index of the first piece of `s` lying on `pos`.
pub open spec fn first_on(s: Seq<ThingOnScreen>, pos: Position) -> Option<int>
    decreases s.len(),
{
    if s.len() == 0 {
        None
    } else {
        match first_on(s.drop_last(), pos) {
            Some(k) => Some(k),
            None => if s.last().position == pos {
                Some(s.len() - 1)
            } else {
                None
            },
        }
    }
}

/// What moving the head onto `head` does: running into the cobra's own
/// body or into the border blows the cobra up; otherwise the first thing
/// lying on the head gives its own effect, if any.
pub open spec fn move_effect(
    body: Seq<ThingOnScreen>,
    edges: Seq<ThingOnScreen>,
    things: Seq<ThingOnScreen>,
    head: Position,
) -> Option<CobraEffect> {
    if occupies(body, head) || occupies(edges, head) {
        Some(CobraEffect::Blow)
    } else {
        match first_on(things, head) {
            Some(k) => things[k].effect,
            None => None,
        }
    }
}

/// After a move with this effect the tail stays where it was.
pub open spec fn keeps_tail(e: Option<CobraEffect>) -> bool {
    e == Some(CobraEffect::Grow) || e == Some(CobraEffect::Blow)
}

/// The state the cobra is in after a move with this effect.
pub open spec fn state_after(e: Option<CobraEffect>, state: CobraState) -> CobraState {
    match e {
        Some(CobraEffect::Blow) => CobraState::Dead,
        Some(CobraEffect::PowerUp) => CobraState::PoweredUp,
        _ => state,
    }
}

/// `t` with its effect used up.
pub open spec fn used_up(t: ThingOnScreen) -> ThingOnScreen {
    ThingOnScreen { position: t.position, value: t.value, effect: None, kind: t.kind }
}

/// The things after the head reached `head`: the first one lying there is used up.
pub open spec fn things_after(things: Seq<ThingOnScreen>, head: Position) -> Seq<ThingOnScreen> {
    match first_on(things, head) {
        Some(k) => things.update(k, used_up(things[k])),
        None => things,
    }
}

/// One move of a cobra with body `body0`, heading `dir`, in state `state0`,
/// on a field with the given border, things and size, ends with body
/// `body1`, state `state1` and things `things1`, and has effect `e`.
pub open spec fn moved_as(
    body0: Seq<ThingOnScreen>,
    dir: Direction,
    state0: CobraState,
    edges: Seq<ThingOnScreen>,
    things0: Seq<ThingOnScreen>,
    height: u32,
    width: u32,
    body1: Seq<ThingOnScreen>,
    state1: CobraState,
    things1: Seq<ThingOnScreen>,
    e: Option<CobraEffect>,
) -> bool {
    let n = body0.len() as int;
    let neck = body0[n - 1].position;
    let head = step_head(neck, dir, height, width);
    let d: int = if keeps_tail(e) { 0 } else { 1 };
    &&& e == move_effect(body0, edges, things0, head)
    &&& body1.len() == n + 1 - d
    &&& forall|k: int| 0 <= k && k + d < n - 1 ==> body1[k] == body0[k + d]
    &&& n - 1 - d >= 0 ==> is_body_piece(body1[n - 1 - d], neck, body_markup(Some(neck), neck, Some(head)))
    &&& is_body_piece(body1[n - d], head, body_markup(Some(neck), head, None))
    &&& state1 == state_after(e, state0)
    &&& things1 == things_after(things0, head)
}

/// A first hit found in a prefix is the first hit of the whole sequence.
pub proof fn lemma_first_on_prefix(s: Seq<ThingOnScreen>, n: int, pos: Position)
    requires
        0 <= n <= s.len(),
        first_on(s.take(n), pos) is Some,
    ensures
        first_on(s, pos) == first_on(s.take(n), pos),
        0 <= first_on(s, pos)->0 < n,
    decreases s.len() - n,
{
    lemma_first_on_bounds(s.take(n), pos);
    if n < s.len() {
        assert(s.take(n + 1).drop_last() == s.take(n));
        lemma_first_on_prefix(s, n + 1, pos);
    } else {
        assert(s.take(n) == s);
    }
}

/// The first hit is an index of the sequence, lying on `pos`.
pub proof fn lemma_first_on_bounds(s: Seq<ThingOnScreen>, pos: Position)
    ensures
        first_on(s, pos) matches Some(k) ==> 0 <= k < s.len() && s[k].position == pos,
    decreases s.len(),
{
    if s.len() > 0 {
        lemma_first_on_bounds(s.drop_last(), pos);
    }
}

/// The horizontal body piece is drawn with `@G#2501`.
pub proof fn lemma_straight_markup()
    ensures
        "@G"@ + "#2501"@ == "@G#2501"@,
{
    reveal_strlit("@G");
    reveal_strlit("#2501");
    reveal_strlit("@G#2501");
    assert("@G"@ + "#2501"@ =~= "@G#2501"@);
}

impl Cobra {
    /// A cobra with the given lives, freshly placed in the middle of `field`.
    pub fn new(field: &Field, lives: u8) -> (r: Self)
        requires
            field.width >= 2,
        ensures
            is_fresh_body(r.body@, field.height, field.width),
            r.head_dir == Direction::Right,
            r.state == CobraState::Alive,
            r.lives == lives,
    {
        let body: Vec<ThingOnScreen> = Vec::new();
        let mut cobra = Self { body, head_dir: Direction::Right, state: CobraState::Alive, lives };
        cobra.reset(field);
        cobra
    }

    /// The markup of a body piece at `pos` between `prev_pos` (towards the
    /// tail) and `next_pos` (towards the head).
    pub fn get_value(prev_pos: Option<&Position>, pos: &Position, next_pos: Option<&Position>) -> (r: String)
        ensures
            r@ == body_markup(opt_pos(prev_pos), *pos, opt_pos(next_pos)),
    {
        let mut value = String::from_str("@G");
        match (prev_pos, next_pos) {
            (Some(pp), Some(np)) => {
                if pp.x != np.x && pp.y == np.y {
                    value.append("#2501");
                } else if pp.x == np.x && pp.y != np.y {
                    value.append("#2503");
                } else if (pp.x == pos.x && pp.y > pos.y && np.x > pos.x && np.y == pos.y) || (pp.x
                    < pos.x && pp.y == pos.y && np.x == pos.x && np.y > pos.y) {
                    value.append("#2517");
                } else if (pp.x == pos.x && pp.y < pos.y && np.x > pos.x && np.y == pos.y) || (pp.x
                    > pos.x && pp.y == pos.y && np.x == pos.x && np.y < pos.y) {
                    value.append("#250F");
                } else if (pp.x < pos.x && pp.y == pos.y && np.x == pos.x && np.y < pos.y) || (pp.x
                    == pos.x && pp.y < pos.y && np.x < pos.x && np.y == pos.y) {
                    value.append("#2513");
                } else if (pp.x < pos.x && pp.y == pos.y && np.x == pos.x && np.y > pos.y) || (pp.x
                    == pos.x && pp.y > pos.y && np.x < pos.x && np.y == pos.y) {
                    value.append("#251B");
                }
            },
            (Some(pp), None) => {
                if pp.y == pos.y {
                    value.append("#2501");
                } else {
                    value.append("#2503");
                }
            },
            (None, Some(np)) => {
                if np.y == pos.y {
                    value.append("#2501");
                } else {
                    value.append("#2503");
                }
            },
            (None, None) => {},
        }
        assert(value@ == body_markup(opt_pos(prev_pos), *pos, opt_pos(next_pos)));
        value
    }

    /// Loses one life and starts over in the middle of `field`.
    pub fn die(&mut self, field: &Field)
        requires
            old(self).lives > 0,
            field.width >= 2,
        ensures
            final(self).lives == old(self).lives - 1,
            is_fresh_body(final(self).body@, field.height, field.width),
            final(self).head_dir == Direction::Right,
            final(self).state == CobraState::Alive,
    {
        self.lives = self.lives - 1;
        self.reset(field);
    }

    /// Puts the cobra back in the middle of `field`, heading right, alive,
    /// with a body of three pieces; its lives stay.
    pub fn reset(&mut self, field: &Field)
        requires
            field.width >= 2,
        ensures
            is_fresh_body(final(self).body@, field.height, field.width),
            final(self).head_dir == Direction::Right,
            final(self).state == CobraState::Alive,
            final(self).lives == old(self).lives,
    {
        self.body.clear();
        self.head_dir = Direction::Right;
        self.state = CobraState::Alive;
        let center_pos = field.get_center();
        let mut head_pos = center_pos;
        let mut tail_pos = center_pos;
        let body = ThingOnScreen::from_kind_at_pos(ThingKind::Cobra, center_pos);
        head_pos.x = head_pos.x + 1;
        let head = ThingOnScreen::get_cobra_pixel(Some(&body.position), head_pos, None);
        tail_pos.x = tail_pos.x - 1;
        let tail = ThingOnScreen::get_cobra_pixel(None, tail_pos, Some(&body.position));
        proof {
            lemma_straight_markup();
        }
        self.body.push(tail);
        self.body.push(body);
        self.body.push(head);
    }

    /// Whether some piece of the body lies on `pos`.
    pub fn collide(&self, pos: &Position) -> (r: bool)
        ensures
            r == occupies(self.body@, *pos),
    {
        let mut i: usize = 0;
        while i < self.body.len()
            invariant
                i <= self.body@.len(),
                forall|k: int| 0 <= k < i ==> (#[trigger] self.body@[k]).position != *pos,
            decreases self.body@.len() - i,
        {
            if pos.x == self.body[i].position.x && pos.y == self.body[i].position.y {
                return true;
            }
            i = i + 1;
        }
        false
    }

    /// The direction a key press asks for, if any.
    pub fn dir_from_key(&self, key: &KeyEvent) -> (r: Option<Direction>)
        ensures
            r == key_direction(*key),
    {
        match key {
            KeyEvent::KeyPress(Key::UpArrow) => Some(Direction::Up),
            KeyEvent::KeyPress(Key::DownArrow) => Some(Direction::Down),
            KeyEvent::KeyPress(Key::RightArrow) => Some(Direction::Right),
            KeyEvent::KeyPress(Key::LeftArrow) => Some(Direction::Left),
            _ => None,
        }
    }

    /// Moves the head one cell on in its direction and settles what it ran
    /// into, using up the first thing lying there. The tail follows unless
    /// the cobra grew or blew up.
    pub fn move_cobra(&mut self, field: &mut Field) -> (r: Option<CobraEffect>)
        requires
            old(self).body@.len() >= 1,
            old(field).width <= i32::MAX,
            old(field).height <= i32::MAX,
            old(self).body@.last().position.x < i32::MAX,
            old(self).body@.last().position.y < i32::MAX,
            old(self).head_dir == Direction::Down ==> old(field).height >= 1,
            old(self).head_dir == Direction::Right ==> old(field).width >= 1,
        ensures
            moved_as(
                old(self).body@,
                old(self).head_dir,
                old(self).state,
                old(field).edges@,
                old(field).things@,
                old(field).height,
                old(field).width,
                final(self).body@,
                final(self).state,
                final(field).things@,
                r,
            ),
            final(self).head_dir == old(self).head_dir,
            final(self).lives == old(self).lives,
            final(field).edges@ == old(field).edges@,
            final(field).height == old(field).height,
            final(field).width == old(field).width,
    {
        let ghost old_body = self.body@;
        let ghost old_things = field.things@;
        let neck_i = self.body.len() - 1;
        let neck_pos = self.body[neck_i].position;
        let new_neck_pos = neck_pos;
        let mut head_pos = neck_pos;

        // Move head
        match self.head_dir {
            Direction::Up => head_pos.y = if head_pos.y == 0 { 0 } else { head_pos.y - 1 },
            Direction::Down => {
                let last_row = field.height - 1;
                head_pos.y = if head_pos.y + 1 <= last_row { head_pos.y + 1 } else { last_row }
            },
            Direction::Right => {
                let last_col = field.width - 1;
                head_pos.x = if head_pos.x + 1 <= last_col { head_pos.x + 1 } else { last_col }
            },
            Direction::Left => head_pos.x = if head_pos.x == 0 { 0 } else { head_pos.x - 1 },
        }
        assert(head_pos == step_head(neck_pos, self.head_dir, field.height, field.width));

        // Check for self collision
        let on_body = self.collide(&head_pos);

        // Check for edge collision
        let mut on_edge = false;
        let mut i: usize = 0;
        while i < field.edges.len()
            invariant
                i <= field.edges@.len(),
                on_edge == exists|k: int| 0 <= k < i && (#[trigger] field.edges@[k]).position == head_pos,
            decreases field.edges@.len() - i,
        {
            if field.edges[i].collide(&head_pos, false) {
                on_edge = true;
            }
            i = i + 1;
        }
        let mut effect: Option<CobraEffect> = if on_body || on_edge {
            Some(CobraEffect::Blow)
        } else {
            None
        };

        // Check for thing collision
        let mut hit: Option<usize> = None;
        let mut j: usize = 0;
        while j < field.things.len() && hit.is_none()
            invariant
                j <= field.things@.len(),
                field.things@ == old_things,
                hit is None ==> first_on(old_things.take(j as int), head_pos) is None,
                hit matches Some(k) ==> first_on(old_things, head_pos) == Some(k as int),
            decreases field.things@.len() - j,
        {
            proof {
                assert(old_things.take(j as int + 1).drop_last() == old_things.take(j as int));
                assert(old_things.take(j as int + 1).last() == old_things[j as int]);
            }
            if field.things[j].collide(&head_pos, false) {
                proof {
                    lemma_first_on_prefix(old_things, j as int + 1, head_pos);
                }
                hit = Some(j);
            }
            j = j + 1;
        }
        match hit {
            Some(k) => {
                proof {
                    lemma_first_on_bounds(old_things, head_pos);
                }
                if !(on_body || on_edge) {
                    effect = field.things[k].effect;
                }
                // Consumes thing effect
                field.things[k].effect = None;
            },
            None => {
                assert(old_things.take(j as int) == old_things);
            },
        }
        assert(field.things@ == things_after(old_things, head_pos));

        // Create new neck as can change depending on move Direction
        let new_head = ThingOnScreen::get_cobra_pixel(Some(&neck_pos), head_pos, None);
        let new_neck = ThingOnScreen::get_cobra_pixel(
            Some(&self.body[neck_i].position),
            new_neck_pos,
            Some(&new_head.position),
        );
        self.body[neck_i] = new_neck;
        self.body.push(new_head);
        match effect {
            Some(CobraEffect::Blow) => self.state = CobraState::Dead,
            Some(CobraEffect::PowerUp) => {
                self.state = CobraState::PoweredUp;
                self.body.remove(0);
            },
            Some(CobraEffect::Grow) => (),
            // move cobra
            _ => {
                self.body.remove(0);
            },
        }
        effect
    }

    /// Turns the head towards `direction`.
    pub fn set_direction(&mut self, direction: Direction)
        ensures
            final(self).head_dir == direction,
            final(self).body@ == old(self).body@,
            final(self).state == old(self).state,
            final(self).lives == old(self).lives,
    {
        self.head_dir = direction
    }
}

} // verus!
