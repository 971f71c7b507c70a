use vstd::prelude::*;
use crate::cobra::{body_markup, is_body_piece, opt_pos, Cobra};

use crate::field::{has_free_cell, is_free, Field};
use crate::position::{CobraEffect, Position};

verus! {

/// The sorts of things that can be drawn on the field.
#[derive(Clone, Copy, PartialEq, Eq, Structural, Debug)]
pub enum ThingKind {
    Food,
    Drug,
    Rock,
    Cobra,
    Edge,
}

/// One drawable thing: where it is, the markup that draws it, what it does
/// to a cobra that touches it (if anything) and what it is.
pub struct ThingOnScreen {
    pub position: Position,
    pub value: String,
    pub effect: Option<CobraEffect>,
    pub kind: ThingKind,
}

/// The effect a freshly made thing of this kind carries: food grows the
/// cobra, a drug powers it up, rocks and the border blow it up.
pub open spec fn kind_effect(kind: ThingKind) -> Option<CobraEffect> {
    match kind {
        ThingKind::Food => Some(CobraEffect::Grow),
        ThingKind::Drug => Some(CobraEffect::PowerUp),
        ThingKind::Rock => Some(CobraEffect::Blow),
        ThingKind::Edge => Some(CobraEffect::Blow),
        ThingKind::Cobra => None,
    }
}

/// The markup a freshly made thing of this kind is drawn with.
pub open spec fn kind_markup(kind: ThingKind) -> Seq<char> {
    match kind {
        ThingKind::Food => "@Y#25C9"@,
        ThingKind::Drug => "@M#2605"@,
        ThingKind::Rock => "@W#2620"@,
        ThingKind::Cobra => "@G#2501"@,
        ThingKind::Edge => Seq::empty(),
    }
}

/// `t` is what `from_kind_at_pos` makes of `kind`, wherever it lies.
pub open spec fn is_fresh_thing(t: ThingOnScreen, kind: ThingKind) -> bool {
    &&& t.kind == kind
    &&& t.effect == kind_effect(kind)
    &&& t.value@ == kind_markup(kind)
}

/// The line-drawing code of the border piece at `(x, y)` on a field of the
/// given size, or `None` where the cell is not on the border.
pub open spec fn edge_code(x: u32, y: u32, height: u32, width: u32) -> Option<Seq<char>> {
    if x == 0 && y == 0 {
        Some("#2554"@)
    } else if x == width - 1 && y == height - 1 {
        Some("#255D"@)
    } else if x == 0 && y == height - 1 {
        Some("#255A"@)
    } else if y == 0 && x == width - 1 {
        Some("#2557"@)
    } else if x == 0 || x == width - 1 {
        Some("#2551"@)
    } else if y == 0 || y == height - 1 {
        Some("#2550"@)
    } else {
        None
    }
}

/// What `get_edge` gives for a border cell.
pub open spec fn is_edge_at(e: ThingOnScreen, x: u32, y: u32, height: u32, width: u32) -> bool {
    &&& edge_code(x, y, height, width) is Some
    &&& e.position == Position { x, y }
    &&& e.kind == ThingKind::Edge
    &&& e.effect == Some(CobraEffect::Blow)
    &&& e.value@ == "@W"@ + edge_code(x, y, height, width)->0
}

impl ThingOnScreen {
    /// A thing of the given kind at the given position.
    pub fn from_kind_at_pos(kind: ThingKind, position: Position) -> (r: Self)
        ensures
            r.position == position,
            r.kind == kind,
            r.effect == kind_effect(kind),
            r.value@ == kind_markup(kind),
    {
        match kind {
            ThingKind::Food => Self {
                position,
                kind,
                effect: Some(CobraEffect::Grow),
                value: String::from_str("@Y#25C9"),
            },
            ThingKind::Drug => Self {
                position,
                kind,
                effect: Some(CobraEffect::PowerUp),
                value: String::from_str("@M#2605"),
            },
            ThingKind::Rock => Self {
                position,
                kind,
                effect: Some(CobraEffect::Blow),
                value: String::from_str("@W#2620"),
            },
            ThingKind::Cobra => Self {
                position,
                kind,
                effect: None,
                value: String::from_str("@G#2501"),
            },
            ThingKind::Edge => Self {
                position,
                kind,
                effect: Some(CobraEffect::Blow),
                value: String::new(),
            },
        }
    }

    /// The border piece at `(x, y)` of a field of the given size, or `None`
    /// where that cell is not on the border.
    pub fn get_edge(x: u32, y: u32, height: u32, width: u32) -> (r: Option<Self>)
        ensures
            r is Some <==> edge_code(x, y, height, width) is Some,
            r matches Some(e) ==> is_edge_at(e, x, y, height, width),
    {
        let last_col = (x as u64) + 1 == width as u64;
        let last_row = (y as u64) + 1 == height as u64;
        let code: Option<&str> = if x == 0 && y == 0 {
            Some("#2554")
        } else if last_col && last_row {
            Some("#255D")
        } else if x == 0 && last_row {
            Some("#255A")
        } else if y == 0 && last_col {
            Some("#2557")
        } else if x == 0 || last_col {
            Some("#2551")
        } else if y == 0 || last_row {
            Some("#2550")
        } else {
            None
        };
        match code {
            Some(c) => {
                let mut value = String::from_str("@W");
                value.append(c);
                Some(
                    Self {
                        effect: Some(CobraEffect::Blow),
                        position: Position { x, y },
                        kind: ThingKind::Edge,
                        value,
                    },
                )
            },
            None => None,
        }
    }

    /// A body piece at `position` between `prev_pos` (towards the tail) and
    /// `next_pos` (towards the head).
    pub fn get_cobra_pixel(prev_pos: Option<&Position>, position: Position, next_pos: Option<&Position>) -> (r: Self)
        ensures
            is_body_piece(r, position, body_markup(opt_pos(prev_pos), position, opt_pos(next_pos))),
    {
        let value = Cobra::get_value(prev_pos, &position, next_pos);
        Self { position, kind: ThingKind::Cobra, effect: None, value }
    }

    /// The (row, column) index of the thing in a grid of the field.
    pub fn get_idx(&self) -> (r: (usize, usize))
        ensures
            r.0 == self.position.y,
            r.1 == self.position.x,
    {
        (self.position.y as usize, self.position.x as usize)
    }

    /// A fresh thing of the given kind on a free cell of `field` chosen at
    /// random, or `None` where the field has no free cell.
    pub fn gen_at_the_field(kind: ThingKind, field: &Field, cobra: &Cobra) -> (r: Option<Self>)
        ensures
            r is Some <==> has_free_cell(field.width, field.height, cobra.body@, field.things@),
            r matches Some(t) ==> is_fresh_thing(t, kind) && is_free(
                field.width,
                field.height,
                cobra.body@,
                field.things@,
                t.position,
            ),
    {
        match Position::gen_without_collision(field, cobra) {
            Some(position) => Some(Self::from_kind_at_pos(kind, position)),
            None => None,
        }
    }

    /// Whether `pos` hits the thing: on the same cell, or, with `any_axis`,
    /// in the same row or the same column.
    pub fn collide(&self, pos: &Position, any_axis: bool) -> (r: bool)
        ensures
            r == if any_axis {
                pos.x == self.position.x || pos.y == self.position.y
            } else {
                pos.x == self.position.x && pos.y == self.position.y
            },
    {
        if any_axis {
            pos.x == self.position.x || pos.y == self.position.y
        } else {
            pos.x == self.position.x && pos.y == self.position.y
        }
    }
}

} // verus!
