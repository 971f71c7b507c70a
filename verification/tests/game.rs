use cobrinha::cobra::{Cobra, CobraState};
use cobrinha::field::Field;
use cobrinha::game::{GameState, TickOutcome};
use cobrinha::keys::{Key, KeyEvent};
use cobrinha::level::Level;
use cobrinha::position::{Direction, Position};
use cobrinha::thing::{ThingKind, ThingOnScreen};

fn pos(x: u32, y: u32) -> Position {
    Position { x, y }
}

fn kinds(f: &Field) -> Vec<ThingKind> {
    f.things.iter().map(|t| t.kind).collect()
}

fn assert_laid_out_apart(f: &Field, c: &Cobra) {
    for (i, t) in f.things.iter().enumerate() {
        assert!(t.position.x < f.width && t.position.y < f.height);
        assert!(!c.collide(&t.position));
        for u in &f.things[..i] {
            assert_ne!(u.position, t.position);
        }
    }
}

#[test]
fn init_sets_up_a_new_game() {
    let g = GameState::init(24, 80);
    assert_eq!(g.score, 0);
    assert_eq!(g.tick, 0);
    assert_eq!(g.level.number, 1);
    assert_eq!(g.field.height, 21);
    assert_eq!(g.field.width, 78);
    assert_eq!(g.field.edges.len(), 2 * 78 + 2 * 19);
    assert!(g.field.things.is_empty());
    assert_eq!(g.cobra.lives, 3);
    assert_eq!(g.cobra.body.len(), 3);
    assert_eq!(g.cobra.body[1].position, pos(39, 10));
    assert!(!g.set_exit);
}

#[test]
fn level_one_lays_out_rocks_food_and_a_drug() {
    let mut f = Field::new_empty(20, 40);
    let c = Cobra::new(&f, 3);
    f.gen_things(1, &c);
    let mut expected = vec![ThingKind::Rock; 6];
    expected.extend(vec![ThingKind::Food; 2]);
    expected.push(ThingKind::Drug);
    assert_eq!(kinds(&f), expected);
    assert_laid_out_apart(&f, &c);
    assert_eq!(f.food_left(), 2);
}

#[test]
fn level_two_lays_out_more_rocks_and_more_food() {
    let mut f = Field::new_empty(20, 40);
    let c = Cobra::new(&f, 3);
    f.gen_things(2, &c);
    let mut expected = vec![ThingKind::Rock; 7];
    expected.extend(vec![ThingKind::Food; 4]);
    expected.push(ThingKind::Drug);
    assert_eq!(kinds(&f), expected);
    assert_laid_out_apart(&f, &c);
    assert_eq!(f.food_left(), 4);
}

#[test]
fn full_field_lays_out_what_fits() {
    // a field of 2 x 3 cells, the cobra on three of them: three free cells
    let mut f = Field::new_empty(2, 3);
    let c = Cobra::new(&f, 3);
    f.gen_things(1, &c);
    assert_eq!(kinds(&f), vec![ThingKind::Rock; 3]);
    assert_laid_out_apart(&f, &c);
    assert!(Position::gen_without_collision(&f, &c).is_none());
    assert!(ThingOnScreen::gen_at_the_field(ThingKind::Food, &f, &c).is_none());
}

#[test]
fn free_cell_is_found_when_only_one_is_left() {
    let mut f = Field::new_empty(2, 3);
    let c = Cobra::new(&f, 3);
    f.things.push(ThingOnScreen::from_kind_at_pos(ThingKind::Rock, pos(0, 0)));
    f.things.push(ThingOnScreen::from_kind_at_pos(ThingKind::Rock, pos(1, 0)));
    // the cobra lies on row 1; (2, 0) is the one free cell
    for _ in 0..20 {
        assert_eq!(Position::gen_without_collision(&f, &c), Some(pos(2, 0)));
    }
    let t = ThingOnScreen::gen_at_the_field(ThingKind::Drug, &f, &c).unwrap();
    assert_eq!(t.position, pos(2, 0));
    assert_eq!(t.value, "@M#2605");
}

#[test]
fn random_cells_spread_over_the_field() {
    let f = Field::new_empty(50, 50);
    let first = Position::new(&f);
    let mut seen_other = false;
    for _ in 0..64 {
        let p = Position::new(&f);
        assert!(p.x < 50 && p.y < 50);
        if p != first {
            seen_other = true;
        }
    }
    assert!(seen_other);
}

#[test]
fn quit_key_ends_the_tick() {
    let mut g = GameState::init(24, 80);
    let before: Vec<Position> = g.cobra.body.iter().map(|t| t.position).collect();
    assert_eq!(g.next_tick(Some(KeyEvent::KeyPress(Key::KeyQ))), TickOutcome::Exit);
    assert!(g.set_exit);
    let after: Vec<Position> = g.cobra.body.iter().map(|t| t.position).collect();
    assert_eq!(before, after);
}

#[test]
fn arrow_key_turns_the_head() {
    let mut g = GameState::init(24, 80);
    g.handle_keys(Some(KeyEvent::KeyPress(Key::UpArrow)));
    assert_eq!(g.cobra.head_dir, Direction::Up);
    g.handle_keys(Some(KeyEvent::KeyRelease(Key::DownArrow)));
    assert_eq!(g.cobra.head_dir, Direction::Up);
    g.handle_keys(None);
    assert_eq!(g.cobra.head_dir, Direction::Up);
    assert!(!g.set_exit);
}

#[test]
fn empty_field_goes_to_the_next_level() {
    // nothing laid out yet: no food is left, so the tick levels up
    let mut g = GameState::init(24, 80);
    assert_eq!(g.next_tick(None), TickOutcome::LevelUp);
    assert_eq!(g.level.number, 2);
    let mut expected = vec![ThingKind::Rock; 7];
    expected.extend(vec![ThingKind::Food; 4]);
    expected.push(ThingKind::Drug);
    assert_eq!(kinds(&g.field), expected);
    assert_eq!(g.cobra.body[2].position, pos(41, 10));
    // one point for the tick, a hundred for the level
    assert_eq!(g.score, 101);
}

#[test]
fn tick_with_food_left_moves_on() {
    let mut g = GameState::init(24, 80);
    g.field.things.push(ThingOnScreen::from_kind_at_pos(ThingKind::Food, pos(5, 5)));
    assert_eq!(g.next_tick(None), TickOutcome::Moved { power_up: false });
    assert_eq!(g.cobra.body[2].position, pos(41, 10));
    assert_eq!(g.level.number, 1);
    assert_eq!(g.score, 1);
    assert_eq!(g.next_tick(None), TickOutcome::Moved { power_up: false });
    assert_eq!(g.score, 2);
}

#[test]
fn eating_the_last_food_levels_up() {
    let mut g = GameState::init(24, 80);
    g.field.things.push(ThingOnScreen::from_kind_at_pos(ThingKind::Food, pos(41, 10)));
    assert_eq!(g.next_tick(None), TickOutcome::LevelUp);
    assert_eq!(g.level.number, 2);
    assert_eq!(g.cobra.body.len(), 4);
    assert_eq!(g.field.food_left(), 4);
    assert_eq!(g.score, 101);
}

#[test]
fn drug_powers_the_tick_up() {
    let mut g = GameState::init(24, 80);
    g.field.things.push(ThingOnScreen::from_kind_at_pos(ThingKind::Food, pos(5, 5)));
    g.field.things.push(ThingOnScreen::from_kind_at_pos(ThingKind::Drug, pos(41, 10)));
    assert_eq!(g.next_tick(None), TickOutcome::Moved { power_up: true });
    assert_eq!(g.cobra.state, CobraState::PoweredUp);
    // a powered-up tick scores double
    assert_eq!(g.score, 2);
    // a powered-up cobra keeps moving
    assert_eq!(g.next_tick(None), TickOutcome::Moved { power_up: false });
    assert_eq!(g.cobra.body[2].position, pos(42, 10));
    assert_eq!(g.cobra.body.len(), 3);
    assert_eq!(g.score, 3);
}

#[test]
fn rock_costs_a_life() {
    let mut g = GameState::init(24, 80);
    g.field.things.push(ThingOnScreen::from_kind_at_pos(ThingKind::Rock, pos(41, 10)));
    assert_eq!(g.next_tick(None), TickOutcome::Died);
    assert_eq!(g.cobra.lives, 2);
    assert_eq!(g.cobra.state, CobraState::Alive);
    assert_eq!(g.cobra.body.len(), 3);
    assert_eq!(g.cobra.body[2].position, pos(40, 10));
    assert_eq!(kinds(&g.field).len(), 9);
    assert_laid_out_apart(&g.field, &g.cobra);
    assert_eq!(g.score, 0);
}

#[test]
fn losing_the_last_life_ends_the_game() {
    let mut g = GameState::init(24, 80);
    g.cobra.lives = 1;
    g.field.things.push(ThingOnScreen::from_kind_at_pos(ThingKind::Food, pos(5, 5)));
    g.field.things.push(ThingOnScreen::from_kind_at_pos(ThingKind::Rock, pos(41, 10)));
    assert_eq!(g.next_tick(None), TickOutcome::GameOver);
    assert_eq!(g.cobra.lives, 0);
    assert_eq!(g.cobra.state, CobraState::Dead);
    assert_eq!(g.level.number, 1);
    assert_eq!(g.field.things.len(), 2);
    // a dead cobra stays put and scores nothing
    let body: Vec<Position> = g.cobra.body.iter().map(|t| t.position).collect();
    assert_eq!(g.next_tick(None), TickOutcome::Moved { power_up: false });
    let again: Vec<Position> = g.cobra.body.iter().map(|t| t.position).collect();
    assert_eq!(body, again);
    assert_eq!(g.score, 0);
}

#[test]
fn three_lives_three_deaths() {
    let mut g = GameState::init(24, 80);
    assert!(!g.kill_cobra());
    assert!(!g.kill_cobra());
    assert!(g.kill_cobra());
    assert_eq!(g.cobra.lives, 0);
    assert_eq!(g.cobra.state, CobraState::Dead);
}

#[test]
fn r_restarts_after_game_over() {
    let mut g = GameState::init(24, 80);
    g.cobra.lives = 1;
    g.field.things.push(ThingOnScreen::from_kind_at_pos(ThingKind::Food, pos(5, 5)));
    g.field.things.push(ThingOnScreen::from_kind_at_pos(ThingKind::Rock, pos(41, 10)));
    assert_eq!(g.next_tick(None), TickOutcome::GameOver);
    g.count_tick();
    g.score = 57;
    g.level.number = 4;
    assert_eq!(g.next_tick(Some(KeyEvent::KeyPress(Key::KeyR))), TickOutcome::Restart);
    assert_eq!(g.cobra.lives, 3);
    assert_eq!(g.cobra.state, CobraState::Alive);
    assert_eq!(g.level.number, 1);
    assert_eq!(g.score, 0);
    assert_eq!(g.tick, 0);
    assert_eq!(kinds(&g.field).len(), 9);
    assert_laid_out_apart(&g.field, &g.cobra);
}

#[test]
fn r_does_nothing_while_playing() {
    let mut g = GameState::init(24, 80);
    g.handle_keys(Some(KeyEvent::KeyPress(Key::KeyR)));
    assert_eq!(g.cobra.lives, 3);
    assert!(g.field.things.is_empty());
    assert_eq!(g.cobra.head_dir, Direction::Right);
    assert_eq!(g.level.number, 1);
}

#[test]
fn kill_cobra_with_lives_left_resets() {
    let mut g = GameState::init(24, 80);
    assert!(!g.kill_cobra());
    assert_eq!(g.cobra.lives, 2);
    assert_eq!(g.field.things.len(), 9);
    g.cobra.lives = 0;
    assert!(g.kill_cobra());
    assert_eq!(g.cobra.lives, 0);
}

#[test]
fn level_up_lays_out_the_next_level() {
    let mut g = GameState::init(24, 80);
    g.level_up();
    assert_eq!(g.level.number, 2);
    assert_eq!(g.field.food_left(), 4);
    g.reset_level(true);
    assert_eq!(g.level.number, 2);
    assert_eq!(g.field.things.len(), 12);
}

#[test]
fn hurry_when_holding_the_heading_key() {
    let g = GameState::init(24, 80);
    assert!(g.hurry(Some(KeyEvent::KeyPress(Key::RightArrow)), true));
    assert!(!g.hurry(Some(KeyEvent::KeyPress(Key::RightArrow)), false));
    assert!(!g.hurry(Some(KeyEvent::KeyPress(Key::UpArrow)), true));
    assert!(!g.hurry(None, true));
}

#[test]
fn ticks_are_counted() {
    let mut g = GameState::init(24, 80);
    g.count_tick();
    g.count_tick();
    assert_eq!(g.tick, 2);
}

#[test]
fn field_is_drawn_border_over_cobra_over_things() {
    // terminal 6 x 9 gives a field 3 rows by 7 columns; cobra on row 1
    let mut g = GameState::init(6, 9);
    g.field.things.push(ThingOnScreen::from_kind_at_pos(ThingKind::Food, pos(1, 1)));
    g.field.things.push(ThingOnScreen::from_kind_at_pos(ThingKind::Rock, pos(3, 1)));
    let mut eaten = ThingOnScreen::from_kind_at_pos(ThingKind::Drug, pos(5, 1));
    eaten.effect = None;
    g.field.things.push(eaten);
    let grid = g.get_field();
    assert_eq!(grid.len(), 3);
    assert!(grid.iter().all(|row| row.len() == 7));
    assert_eq!(grid[1][1].unwrap().kind, ThingKind::Food);
    assert_eq!(grid[1][3].unwrap().kind, ThingKind::Cobra);
    assert!(grid[1][5].is_none());
    assert_eq!(grid[1][0].unwrap().kind, ThingKind::Edge);
    let lines = g.field_lines();
    assert_eq!(
        lines,
        vec![
            "@W#2554@W#2550@W#2550@W#2550@W#2550@W#2550@W#2557".to_string(),
            "@W#2551@Y#25C9@G#2501@G#2501@G#2501 @W#2551".to_string(),
            "@W#255A@W#2550@W#2550@W#2550@W#2550@W#2550@W#255D".to_string(),
        ]
    );
}

#[test]
fn level_keeps_its_number() {
    assert_eq!(Level::new(7).number, 7);
}
