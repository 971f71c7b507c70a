use cobrinha::cobra::{Cobra, CobraState};
use cobrinha::field::Field;
use cobrinha::position::{CobraEffect, Direction, Position};
use cobrinha::thing::{ThingKind, ThingOnScreen};

fn pos(x: u32, y: u32) -> Position {
    Position { x, y }
}

fn cells(c: &Cobra) -> Vec<(u32, u32)> {
    c.body.iter().map(|t| (t.position.x, t.position.y)).collect()
}

/// A field of the given size without a border, so that only the cobra and
/// the things decide a move.
fn bare_field(height: u32, width: u32) -> Field {
    Field { edges: Vec::new(), things: Vec::new(), height, width }
}

#[test]
fn new_cobra_lies_in_the_middle() {
    let f = Field::new_empty(10, 20);
    let c = Cobra::new(&f, 3);
    assert_eq!(cells(&c), vec![(9, 5), (10, 5), (11, 5)]);
    assert!(c.body.iter().all(|t| t.value == "@G#2501" && t.kind == ThingKind::Cobra && t.effect.is_none()));
    assert_eq!(c.head_dir, Direction::Right);
    assert_eq!(c.state, CobraState::Alive);
    assert_eq!(c.lives, 3);
}

#[test]
fn collide_with_body() {
    let f = Field::new_empty(10, 20);
    let c = Cobra::new(&f, 3);
    assert!(c.collide(&pos(10, 5)));
    assert!(!c.collide(&pos(12, 5)));
}

#[test]
fn die_costs_a_life_and_resets() {
    let mut f = bare_field(10, 20);
    let mut c = Cobra::new(&f, 2);
    c.set_direction(Direction::Up);
    assert_eq!(c.move_cobra(&mut f), None);
    c.die(&f);
    assert_eq!(c.lives, 1);
    assert_eq!(cells(&c), vec![(9, 5), (10, 5), (11, 5)]);
    assert_eq!(c.head_dir, Direction::Right);
    assert_eq!(c.state, CobraState::Alive);
}

#[test]
fn plain_move_shifts_the_body() {
    let mut f = bare_field(10, 20);
    let mut c = Cobra::new(&f, 3);
    assert_eq!(c.move_cobra(&mut f), None);
    assert_eq!(cells(&c), vec![(10, 5), (11, 5), (12, 5)]);
    // the old head is redrawn with itself as the previous cell
    assert_eq!(c.body[1].value, "@G#2501");
    assert_eq!(c.body[2].value, "@G#2501");
    c.set_direction(Direction::Down);
    assert_eq!(c.move_cobra(&mut f), None);
    assert_eq!(cells(&c), vec![(11, 5), (12, 5), (12, 6)]);
    assert_eq!(c.body[1].value, "@G#2503");
    assert_eq!(c.body[2].value, "@G#2503");
}

#[test]
fn head_stops_at_the_field_side() {
    let mut f = bare_field(3, 4);
    let mut c = Cobra::new(&f, 3);
    // body (1,1) (2,1) (3,1); going right the head stays at column 3,
    // which is a piece of the body: the cobra blows up
    assert_eq!(c.move_cobra(&mut f), Some(CobraEffect::Blow));
    assert_eq!(c.state, CobraState::Dead);
    assert_eq!(cells(&c), vec![(1, 1), (2, 1), (3, 1), (3, 1)]);
}

#[test]
fn up_from_the_top_row_stays() {
    let mut f = bare_field(10, 20);
    let mut c = Cobra {
        body: vec![ThingOnScreen::from_kind_at_pos(ThingKind::Cobra, pos(4, 0))],
        head_dir: Direction::Up,
        state: CobraState::Alive,
        lives: 1,
    };
    // a one-piece cobra landing on its own cell blows up
    assert_eq!(c.move_cobra(&mut f), Some(CobraEffect::Blow));
    assert_eq!(cells(&c), vec![(4, 0), (4, 0)]);
}

#[test]
fn food_grows_the_cobra_and_is_used_up() {
    let mut f = bare_field(10, 20);
    f.things.push(ThingOnScreen::from_kind_at_pos(ThingKind::Food, pos(12, 5)));
    let mut c = Cobra::new(&f, 3);
    assert_eq!(f.food_left(), 1);
    assert_eq!(c.move_cobra(&mut f), Some(CobraEffect::Grow));
    assert_eq!(cells(&c), vec![(9, 5), (10, 5), (11, 5), (12, 5)]);
    assert_eq!(c.state, CobraState::Alive);
    assert_eq!(f.things[0].effect, None);
    assert_eq!(f.food_left(), 0);
}

#[test]
fn rock_blows_the_cobra_up() {
    let mut f = bare_field(10, 20);
    f.things.push(ThingOnScreen::from_kind_at_pos(ThingKind::Rock, pos(12, 5)));
    let mut c = Cobra::new(&f, 3);
    assert_eq!(c.move_cobra(&mut f), Some(CobraEffect::Blow));
    assert_eq!(c.state, CobraState::Dead);
    assert_eq!(c.body.len(), 4);
}

#[test]
fn drug_powers_up() {
    let mut f = bare_field(10, 20);
    f.things.push(ThingOnScreen::from_kind_at_pos(ThingKind::Drug, pos(12, 5)));
    let mut c = Cobra::new(&f, 3);
    assert_eq!(c.move_cobra(&mut f), Some(CobraEffect::PowerUp));
    assert_eq!(c.state, CobraState::PoweredUp);
    assert_eq!(cells(&c), vec![(10, 5), (11, 5), (12, 5)]);
}

#[test]
fn used_up_thing_clears_the_effect() {
    let mut f = bare_field(10, 20);
    let mut eaten = ThingOnScreen::from_kind_at_pos(ThingKind::Rock, pos(12, 5));
    eaten.effect = None;
    f.things.push(eaten);
    let mut c = Cobra::new(&f, 3);
    assert_eq!(c.move_cobra(&mut f), None);
    assert_eq!(c.state, CobraState::Alive);
}

#[test]
fn running_into_itself_kills() {
    let mut f = Field::new_empty(5, 7);
    let mut c = Cobra::new(&f, 3);
    c.set_direction(Direction::Left);
    // the head (4,2) turns back onto the middle piece (3,2)
    assert_eq!(c.move_cobra(&mut f), Some(CobraEffect::Blow));
    assert_eq!(c.state, CobraState::Dead);
    assert_eq!(cells(&c), vec![(2, 2), (3, 2), (4, 2), (3, 2)]);
}

#[test]
fn the_border_kills() {
    let mut f = Field::new_empty(5, 7);
    let mut c = Cobra::new(&f, 3);
    assert_eq!(c.move_cobra(&mut f), None);
    assert_eq!(c.state, CobraState::Alive);
    // the next cell (6,2) is in the last column: the border
    assert_eq!(c.move_cobra(&mut f), Some(CobraEffect::Blow));
    assert_eq!(c.state, CobraState::Dead);
}

#[test]
fn blow_up_wins_over_a_thing_on_the_border() {
    let mut f = Field::new_empty(5, 7);
    f.things.push(ThingOnScreen::from_kind_at_pos(ThingKind::Food, pos(6, 2)));
    let mut c = Cobra::new(&f, 3);
    assert_eq!(c.move_cobra(&mut f), None);
    assert_eq!(c.move_cobra(&mut f), Some(CobraEffect::Blow));
    // the food there is used up all the same
    assert_eq!(f.things[0].effect, None);
}

#[test]
fn food_counting() {
    let mut f = bare_field(10, 20);
    f.things.push(ThingOnScreen::from_kind_at_pos(ThingKind::Food, pos(1, 1)));
    f.things.push(ThingOnScreen::from_kind_at_pos(ThingKind::Rock, pos(2, 1)));
    f.things.push(ThingOnScreen::from_kind_at_pos(ThingKind::Food, pos(3, 1)));
    let mut eaten = ThingOnScreen::from_kind_at_pos(ThingKind::Food, pos(4, 1));
    eaten.effect = None;
    f.things.push(eaten);
    assert_eq!(f.food_left(), 2);
}
