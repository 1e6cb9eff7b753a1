use terror_maze::commands::{AudioCommand, Color, DrawCommand};
use terror_maze::game::GameState;
use terror_maze::geometry::{Point, Rect};

const STEP: i32 = 65536;

fn white(left: i32, top: i32, width: i32, height: i32) -> DrawCommand {
    DrawCommand::FillRect(Rect::from_units(left, top, width, height), Color::White)
}

fn walls_in_white() -> Vec<DrawCommand> {
    vec![
        white(0, 0, 900, 30),
        white(0, 80, 800, 30),
        white(800, 80, 30, 230),
        white(880, 0, 30, 370),
        white(0, 280, 800, 30),
        white(70, 340, 825, 30),
        white(0, 300, 30, 500),
        white(70, 350, 30, 400),
        white(70, 740, 830, 30),
        white(0, 800, 900, 30),
    ]
}

#[test]
fn frame_of_a_new_game() {
    let game = GameState::new();
    let mut expected = vec![DrawCommand::Clear(Color::Black)];
    expected.extend(walls_in_white());
    expected.push(white(0, 50, 20, 20));
    expected.push(DrawCommand::Present);
    assert_eq!(game.draw(), expected);
}

#[test]
fn frame_shows_the_marker_where_the_pointer_took_it() {
    let mut game = GameState::new();
    game.on_pointer_move(10 * STEP, 60 * STEP);
    game.on_pointer_move(400 * STEP, 150 * STEP);
    let frame = game.draw();
    assert_eq!(frame.len(), 13);
    assert_eq!(frame[11], white(390, 140, 20, 20));
    assert_eq!(
        frame[11],
        DrawCommand::FillRect(Rect::marker(Point::from_units(400, 150)), Color::White)
    );
}

#[test]
fn frame_with_the_scare_has_the_image_in_place_of_the_marker() {
    let mut game = GameState::new();
    game.on_pointer_move(10 * STEP, 60 * STEP);
    game.on_pointer_move(870 * STEP, 790 * STEP);
    assert_eq!(game.update(), Some(AudioCommand::PlayScream));
    let mut expected = vec![DrawCommand::Clear(Color::Black)];
    expected.extend(walls_in_white());
    expected.push(DrawCommand::ScareImage);
    expected.push(DrawCommand::Present);
    assert_eq!(game.draw(), expected);
}

#[test]
fn frame_before_the_goal_check_still_shows_the_marker() {
    let mut game = GameState::new();
    game.on_pointer_move(10 * STEP, 60 * STEP);
    game.on_pointer_move(870 * STEP, 790 * STEP);
    let frame = game.draw();
    assert_eq!(frame[11], white(860, 780, 20, 20));
    assert!(!frame.contains(&DrawCommand::ScareImage));
}

#[test]
fn drawing_leaves_the_game_as_it_is() {
    let mut game = GameState::new();
    game.on_pointer_move(10 * STEP, 60 * STEP);
    game.on_pointer_move(400 * STEP, 150 * STEP);
    let first = game.draw();
    let second = game.draw();
    assert_eq!(first, second);
    assert!(game.is_moving());
    assert!(!game.show_scare());
    assert_eq!(game.position(), Point::from_units(400, 150));
}

#[test]
fn frame_begins_with_a_black_screen_and_ends_with_present() {
    let game = GameState::new();
    let frame = game.draw();
    assert_eq!(frame[0], DrawCommand::Clear(Color::Black));
    assert_eq!(frame[frame.len() - 1], DrawCommand::Present);
    assert_eq!(frame.iter().filter(|c| matches!(c, DrawCommand::Present)).count(), 1);
    assert_eq!(frame.iter().filter(|c| matches!(c, DrawCommand::Clear(_))).count(), 1);
}
