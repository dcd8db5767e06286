use rong::geometry::Point;
use rong::racket::move_racket;
use rong::units::{clamp, displace, PLAYER_SPEED, RACKET_HEIGHT_HALF, UNITS_PER_PIXEL};

const PX: i64 = UNITS_PER_PIXEL;

fn racket(y_pixels: i64) -> Point {
    Point { x: 15 * PX, y: y_pixels * PX }
}

#[test]
fn clamp_leaves_a_value_in_range_alone() {
    let mut v: i64 = 5;
    clamp(&mut v, 0, 10);
    assert_eq!(v, 5);
    let mut v: i64 = 0;
    clamp(&mut v, 0, 10);
    assert_eq!(v, 0);
    let mut v: i64 = 10;
    clamp(&mut v, 0, 10);
    assert_eq!(v, 10);
}

#[test]
fn clamp_raises_a_low_value() {
    let mut v: i64 = -3;
    clamp(&mut v, 0, 10);
    assert_eq!(v, 0);
    let mut v: i64 = i64::MIN;
    clamp(&mut v, -7, 7);
    assert_eq!(v, -7);
}

#[test]
fn clamp_lowers_a_high_value() {
    let mut v: i64 = 11;
    clamp(&mut v, 0, 10);
    assert_eq!(v, 10);
    let mut v: i64 = i64::MAX;
    clamp(&mut v, -7, 7);
    assert_eq!(v, 7);
}

#[test]
fn clamp_with_an_empty_range_gives_a_bound() {
    let mut v: i64 = 5;
    clamp(&mut v, 7, 3);
    assert_eq!(v, 7);
    let mut v: i64 = 7;
    clamp(&mut v, 7, 3);
    assert_eq!(v, 3);
    let mut v: i64 = 15;
    clamp(&mut v, 7, 3);
    assert_eq!(v, 3);
}

#[test]
fn displace_is_start_plus_speed_times_time() {
    assert_eq!(displace(100, 600, 100_000), 60_000_100);
    assert_eq!(displace(100, -600, 100_000), -59_999_900);
    assert_eq!(displace(-5, 200, 0), -5);
    assert_eq!(displace(7, 0, u64::MAX), 7);
}

#[test]
fn displace_stops_at_the_ends_of_the_range() {
    assert_eq!(displace(i64::MAX - 1, 1, 5), i64::MAX);
    assert_eq!(displace(i64::MIN + 1, -1, 5), i64::MIN);
    assert_eq!(displace(0, i64::MAX, u64::MAX), i64::MAX);
    assert_eq!(displace(0, i64::MIN, u64::MAX), i64::MIN);
    assert_eq!(displace(i64::MIN, i64::MIN, u64::MAX), i64::MIN);
    assert_eq!(displace(i64::MAX, i64::MAX, u64::MAX), i64::MAX);
    assert_eq!(displace(i64::MAX, -1, 1), i64::MAX - 1);
}

#[test]
fn up_key_for_a_tenth_of_a_second_raises_the_racket_by_sixty_pixels() {
    let mut pos = racket(300);
    move_racket(&mut pos, true, false, 100_000, 600);
    assert_eq!(pos, racket(240));
}

#[test]
fn up_key_stops_at_half_a_racket_from_the_top() {
    let mut pos = racket(100);
    move_racket(&mut pos, true, false, 100_000, 600);
    assert_eq!(pos, racket(75));
    move_racket(&mut pos, true, false, 100_000, 600);
    assert_eq!(pos, racket(75));
}

#[test]
fn down_key_lowers_the_racket_and_stops_at_the_bottom() {
    let mut pos = racket(300);
    move_racket(&mut pos, false, true, 100_000, 600);
    assert_eq!(pos, racket(360));
    move_racket(&mut pos, false, true, 1_000_000, 600);
    assert_eq!(pos, racket(525));
}

#[test]
fn racket_speed_is_six_hundred_pixels_a_second() {
    assert_eq!(PLAYER_SPEED, 600);
    let mut pos = racket(300);
    move_racket(&mut pos, false, true, 1, 600);
    assert_eq!(pos.y, 300 * PX + 600);
    move_racket(&mut pos, true, false, 2, 600);
    assert_eq!(pos.y, 300 * PX - 600);
}

#[test]
fn no_key_leaves_the_racket_where_it_is() {
    let mut pos = racket(300);
    move_racket(&mut pos, false, false, 100_000, 600);
    assert_eq!(pos, racket(300));
    let mut edge = racket(75);
    move_racket(&mut edge, false, false, 16_667, 600);
    assert_eq!(edge, racket(75));
}

#[test]
fn no_key_still_brings_a_stray_racket_back() {
    let mut high = racket(10);
    move_racket(&mut high, false, false, 100_000, 600);
    assert_eq!(high, racket(75));
    let mut low = racket(590);
    move_racket(&mut low, false, false, 100_000, 600);
    assert_eq!(low, racket(525));
}

#[test]
fn both_keys_cancel() {
    let mut pos = racket(300);
    move_racket(&mut pos, true, true, 100_000, 600);
    assert_eq!(pos, racket(300));
    let mut edge = racket(75);
    move_racket(&mut edge, true, true, 100_000, 600);
    assert_eq!(edge, racket(75));
}

#[test]
fn a_frame_of_no_time_moves_nothing() {
    let mut pos = racket(300);
    move_racket(&mut pos, true, false, 0, 600);
    assert_eq!(pos, racket(300));
    move_racket(&mut pos, false, true, 0, 600);
    assert_eq!(pos, racket(300));
    let mut stray = racket(0);
    move_racket(&mut stray, false, true, 0, 600);
    assert_eq!(stray, racket(75));
}

#[test]
fn racket_never_moves_sideways() {
    let mut pos = Point { x: -123, y: 300 * PX };
    move_racket(&mut pos, true, false, 50_000, 600);
    assert_eq!(pos.x, -123);
    move_racket(&mut pos, false, true, 5_000_000, 600);
    assert_eq!(pos.x, -123);
}

#[test]
fn racket_stays_on_screen_for_all_keys_and_times() {
    let heights: [u32; 4] = [150, 151, 600, 1080];
    let starts: [i64; 7] = [i64::MIN, -1, 0, 75 * PX, 300 * PX, 2000 * PX, i64::MAX];
    let times: [u64; 6] = [0, 1, 16_667, 100_000, 10_000_000, u64::MAX];
    let keys = [(false, false), (true, false), (false, true), (true, true)];
    for h in heights {
        for y in starts {
            for dt in times {
                for (up, down) in keys {
                    let mut pos = Point { x: 0, y };
                    move_racket(&mut pos, up, down, dt, h);
                    assert!(pos.y >= RACKET_HEIGHT_HALF);
                    assert!(pos.y <= i64::from(h) * PX - RACKET_HEIGHT_HALF);
                }
            }
        }
    }
}

#[test]
fn screen_lower_than_a_racket_pins_the_racket_to_a_bound() {
    let mut pos = racket(10);
    move_racket(&mut pos, false, false, 0, 100);
    assert_eq!(pos.y, 75 * PX);
    move_racket(&mut pos, false, false, 0, 100);
    assert_eq!(pos.y, 25 * PX);
    move_racket(&mut pos, false, false, 0, 100);
    assert_eq!(pos.y, 75 * PX);
}

#[test]
fn very_long_frame_ends_at_an_edge() {
    let mut pos = racket(300);
    move_racket(&mut pos, true, false, u64::MAX, 600);
    assert_eq!(pos, racket(75));
    move_racket(&mut pos, false, true, u64::MAX, 600);
    assert_eq!(pos, racket(525));
}
