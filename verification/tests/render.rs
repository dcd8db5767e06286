use rong::geometry::{Point, Screen, Vector};
use rong::render::{push_decimal, score_label, Color, Rectangle};
use rong::state::MainState;

const PX: i64 = 1_000_000;

#[test]
fn push_decimal_writes_digits_after_what_is_there() {
    let mut text = String::from("n=");
    push_decimal(&mut text, 0);
    assert_eq!(text, "n=0");
    push_decimal(&mut text, 1234567890);
    assert_eq!(text, "n=01234567890");
    let mut all = String::new();
    push_decimal(&mut all, u32::MAX);
    assert_eq!(all, "4294967295");
}

#[test]
fn push_decimal_agrees_with_the_standard_formatting() {
    for n in (0..100_000u32).chain([999_999, 1_000_000, 4_294_967_294]) {
        let mut text = String::new();
        push_decimal(&mut text, n);
        assert_eq!(text, format!("{}", n));
    }
}

#[test]
fn score_label_has_three_spaces_between_the_scores() {
    assert_eq!(score_label(0, 0), "0   0");
    assert_eq!(score_label(3, 12), "3   12");
    assert_eq!(score_label(10, 9), "10   9");
    assert_eq!(score_label(u32::MAX, 100), "4294967295   100");
}

#[test]
fn draw_shows_rackets_ball_and_score() {
    let screen = Screen { width: 800, height: 600 };
    let mut s = MainState::with_serve(screen, Vector { x: 200, y: 200 });
    s.player_1_pos.y = 100 * PX;
    s.ball_pos = Point { x: 7, y: -9 };
    s.player_1_score = 2;
    s.player_2_score = 11;
    let before = s;
    let scene = s.draw(screen);
    assert_eq!(s, before);
    assert_eq!(scene.background, Color::Black);
    assert_eq!(scene.foreground, Color::White);
    assert_eq!(
        scene.player_1,
        Rectangle { center: Point { x: 15 * PX, y: 100 * PX }, width: 30 * PX, height: 150 * PX }
    );
    assert_eq!(
        scene.player_2,
        Rectangle { center: Point { x: 785 * PX, y: 300 * PX }, width: 30 * PX, height: 150 * PX }
    );
    assert_eq!(
        scene.ball,
        Rectangle { center: Point { x: 7, y: -9 }, width: 30 * PX, height: 30 * PX }
    );
    assert_eq!(scene.score.text, "2   11");
    assert_eq!(scene.score.position, Point { x: 400 * PX, y: 300 * PX });
}

#[test]
fn draw_puts_the_score_in_the_middle_of_the_screen_it_is_given() {
    let s = MainState::with_serve(Screen { width: 800, height: 600 }, Vector { x: 200, y: 200 });
    let scene = s.draw(Screen { width: 1024, height: 769 });
    assert_eq!(scene.score.position, Point { x: 512 * PX, y: 384_500_000 });
    assert_eq!(scene.score.text, "0   0");
    assert_eq!(scene.ball.center, Point { x: 400 * PX, y: 300 * PX });
}
