use cobrinha::cobra::Cobra;
use cobrinha::field::Field;
use cobrinha::keys::{Key, KeyEvent};
use cobrinha::level::Level;
use cobrinha::position::{CobraEffect, Direction, Position};
use cobrinha::thing::{ThingKind, ThingOnScreen};

fn pos(x: u32, y: u32) -> Position {
    Position { x, y }
}

#[test]
fn fresh_things_carry_their_markup_and_effect() {
    let food = ThingOnScreen::from_kind_at_pos(ThingKind::Food, pos(1, 2));
    assert_eq!(food.value, "@Y#25C9");
    assert_eq!(food.effect, Some(CobraEffect::Grow));
    assert_eq!(food.position, pos(1, 2));
    let drug = ThingOnScreen::from_kind_at_pos(ThingKind::Drug, pos(0, 0));
    assert_eq!(drug.value, "@M#2605");
    assert_eq!(drug.effect, Some(CobraEffect::PowerUp));
    let rock = ThingOnScreen::from_kind_at_pos(ThingKind::Rock, pos(0, 0));
    assert_eq!(rock.value, "@W#2620");
    assert_eq!(rock.effect, Some(CobraEffect::Blow));
    let piece = ThingOnScreen::from_kind_at_pos(ThingKind::Cobra, pos(0, 0));
    assert_eq!(piece.value, "@G#2501");
    assert_eq!(piece.effect, None);
    let edge = ThingOnScreen::from_kind_at_pos(ThingKind::Edge, pos(0, 0));
    assert_eq!(edge.value, "");
    assert_eq!(edge.effect, Some(CobraEffect::Blow));
    assert_eq!(edge.kind, ThingKind::Edge);
}

#[test]
fn border_pieces_by_cell() {
    // a field 3 rows high and 4 columns wide
    assert_eq!(ThingOnScreen::get_edge(0, 0, 3, 4).unwrap().value, "@W#2554");
    assert_eq!(ThingOnScreen::get_edge(3, 2, 3, 4).unwrap().value, "@W#255D");
    assert_eq!(ThingOnScreen::get_edge(0, 2, 3, 4).unwrap().value, "@W#255A");
    assert_eq!(ThingOnScreen::get_edge(3, 0, 3, 4).unwrap().value, "@W#2557");
    assert_eq!(ThingOnScreen::get_edge(0, 1, 3, 4).unwrap().value, "@W#2551");
    assert_eq!(ThingOnScreen::get_edge(3, 1, 3, 4).unwrap().value, "@W#2551");
    assert_eq!(ThingOnScreen::get_edge(1, 0, 3, 4).unwrap().value, "@W#2550");
    assert_eq!(ThingOnScreen::get_edge(2, 2, 3, 4).unwrap().value, "@W#2550");
    assert!(ThingOnScreen::get_edge(1, 1, 3, 4).is_none());
    assert!(ThingOnScreen::get_edge(2, 1, 3, 4).is_none());
    let e = ThingOnScreen::get_edge(3, 1, 3, 4).unwrap();
    assert_eq!(e.position, pos(3, 1));
    assert_eq!(e.kind, ThingKind::Edge);
    assert_eq!(e.effect, Some(CobraEffect::Blow));
}

#[test]
fn border_of_a_small_field_goes_column_by_column() {
    let edges = Field::get_edges(3, 4);
    let cells: Vec<(u32, u32)> = edges.iter().map(|e| (e.position.x, e.position.y)).collect();
    assert_eq!(
        cells,
        vec![(0, 0), (0, 1), (0, 2), (1, 0), (1, 2), (2, 0), (2, 2), (3, 0), (3, 1), (3, 2)]
    );
    let f = Field::new_empty(3, 4);
    assert_eq!(f.edges.len(), 10);
    assert!(f.things.is_empty());
    assert_eq!(f.get_center(), pos(2, 1));
}

#[test]
fn empty_field_has_no_border() {
    assert!(Field::get_edges(0, 5).is_empty());
    assert!(Field::get_edges(5, 0).is_empty());
}

#[test]
fn body_markup_by_neighbours() {
    let p = pos(5, 5);
    // straight pieces
    assert_eq!(Cobra::get_value(Some(&pos(4, 5)), &p, Some(&pos(6, 5))), "@G#2501");
    assert_eq!(Cobra::get_value(Some(&pos(5, 4)), &p, Some(&pos(5, 6))), "@G#2503");
    // corners
    assert_eq!(Cobra::get_value(Some(&pos(5, 6)), &p, Some(&pos(6, 5))), "@G#2517");
    assert_eq!(Cobra::get_value(Some(&pos(5, 4)), &p, Some(&pos(6, 5))), "@G#250F");
    assert_eq!(Cobra::get_value(Some(&pos(4, 5)), &p, Some(&pos(5, 4))), "@G#2513");
    assert_eq!(Cobra::get_value(Some(&pos(4, 5)), &p, Some(&pos(5, 6))), "@G#2517");
    assert_eq!(Cobra::get_value(Some(&pos(5, 6)), &p, Some(&pos(4, 5))), "@G#251B");
    // neither straight nor a corner
    assert_eq!(Cobra::get_value(Some(&p), &p, Some(&pos(6, 5))), "@G#2501");
    assert_eq!(Cobra::get_value(Some(&p), &p, Some(&pos(5, 6))), "@G#2503");
    assert_eq!(Cobra::get_value(Some(&p), &p, Some(&p)), "@G");
    // head and tail
    assert_eq!(Cobra::get_value(Some(&pos(4, 5)), &p, None), "@G#2501");
    assert_eq!(Cobra::get_value(Some(&pos(5, 4)), &p, None), "@G#2503");
    assert_eq!(Cobra::get_value(None, &p, Some(&pos(6, 5))), "@G#2501");
    assert_eq!(Cobra::get_value(None, &p, Some(&pos(5, 6))), "@G#2503");
    assert_eq!(Cobra::get_value(None, &p, None), "@G");
    let piece = ThingOnScreen::get_cobra_pixel(None, p, Some(&pos(5, 6)));
    assert_eq!(piece.value, "@G#2503");
    assert_eq!(piece.kind, ThingKind::Cobra);
    assert_eq!(piece.effect, None);
}

#[test]
fn collide_on_cell_or_line() {
    let t = ThingOnScreen::from_kind_at_pos(ThingKind::Rock, pos(3, 4));
    assert!(t.collide(&pos(3, 4), false));
    assert!(!t.collide(&pos(3, 5), false));
    assert!(t.collide(&pos(3, 9), true));
    assert!(t.collide(&pos(0, 4), true));
    assert!(!t.collide(&pos(0, 0), true));
    assert_eq!(t.get_idx(), (4, 3));
}

#[test]
fn level_speed_values() {
    assert_eq!(Level::new(1).speed(false), 2000);
    assert_eq!(Level::new(1).speed(true), 4000);
    assert_eq!(Level::new(3).speed(false), 6000);
    assert_eq!(Level::new(3).speed(true), 12000);
    assert_eq!(Level::new(255).speed(true), 1020000);
    assert_eq!(Level::new(0).speed(true), 0);
}

#[test]
fn drug_doubles_the_speed() {
    assert_eq!(Level::new(1).speed(true), 2 * Level::new(1).speed(false));
    assert_eq!(Level::new(7).speed(true), 2 * Level::new(7).speed(false));
}

#[test]
fn faster_each_level_on_values() {
    assert!(Level::new(2).speed(false) > Level::new(1).speed(false));
    assert!(Level::new(2).speed(true) > Level::new(1).speed(true));
}

#[test]
fn keys_to_directions() {
    let f = Field::new_empty(10, 20);
    let c = Cobra::new(&f, 3);
    assert_eq!(c.dir_from_key(&KeyEvent::KeyPress(Key::UpArrow)), Some(Direction::Up));
    assert_eq!(c.dir_from_key(&KeyEvent::KeyPress(Key::DownArrow)), Some(Direction::Down));
    assert_eq!(c.dir_from_key(&KeyEvent::KeyPress(Key::RightArrow)), Some(Direction::Right));
    assert_eq!(c.dir_from_key(&KeyEvent::KeyPress(Key::LeftArrow)), Some(Direction::Left));
    assert_eq!(c.dir_from_key(&KeyEvent::KeyRelease(Key::UpArrow)), None);
    assert_eq!(c.dir_from_key(&KeyEvent::KeyPress(Key::KeyQ)), None);
    assert_eq!(c.dir_from_key(&KeyEvent::KeyPress(Key::KeyR)), None);
    assert_eq!(c.dir_from_key(&KeyEvent::Other), None);
}
