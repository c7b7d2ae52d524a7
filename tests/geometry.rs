use voxel_pong::color::Rgb;
use voxel_pong::game::ball::Ball;
use voxel_pong::game::pad::{deltas, draw_pad, OutOfBounds, SIZE};
use voxel_pong::game::player::Player;
use voxel_pong::game::render;
use voxel_pong::odd::Odd;
use voxel_pong::voxelbox::{Draw, Voxelbox, DEEPTH, HEIGHT, LED_COUNT, WIDTH};

fn cell(frame: &[u8], x: usize, y: usize, z: usize) -> (u8, u8, u8) {
    let k = (z * HEIGHT as usize + y) * WIDTH as usize + x;
    (frame[3 * k], frame[3 * k + 1], frame[3 * k + 2])
}

#[test]
fn footprint_of_span_five_is_a_diamond() {
    let d = deltas(Odd::new_panics(SIZE));
    let expected: Vec<(i8, i8)> = vec![
        (0, -2),
        (-1, -1),
        (0, -1),
        (1, -1),
        (-2, 0),
        (-1, 0),
        (0, 0),
        (1, 0),
        (2, 0),
        (-1, 1),
        (0, 1),
        (1, 1),
        (0, 2),
    ];
    assert_eq!(d, expected);
}

#[test]
fn footprint_of_small_spans() {
    assert_eq!(deltas(Odd::new_panics(1)), vec![(0, 0)]);
    assert_eq!(
        deltas(Odd::new_panics(3)),
        vec![(0, -1), (-1, 0), (0, 0), (1, 0), (0, 1)]
    );
    assert_eq!(deltas(Odd::new_panics(255)).len(), 128 * 128 + 127 * 127);
}

#[test]
fn draw_pad_reports_the_axis_out_of_range() {
    let mut vbox = Voxelbox::new(String::from("127.0.0.1"), 5005);
    let c = Rgb::green();
    assert!(matches!(draw_pad(&mut vbox, c, WIDTH, 10, 6), Err(OutOfBounds::X)));
    assert!(matches!(draw_pad(&mut vbox, c, 0, 10, 1), Err(OutOfBounds::Y)));
    assert!(matches!(draw_pad(&mut vbox, c, 0, 10, DEEPTH - 2), Err(OutOfBounds::Y)));
    assert!(matches!(draw_pad(&mut vbox, c, 0, 1, 6), Err(OutOfBounds::Z)));
    assert!(matches!(draw_pad(&mut vbox, c, 0, HEIGHT - 2, 6), Err(OutOfBounds::Z)));
    assert!(vbox.frame().iter().all(|&b| b == 0));
    assert!(draw_pad(&mut vbox, c, 0, 10, 6).is_ok());
    let frame = vbox.frame();
    assert_eq!(cell(&frame, 0, 10, 6), (22, 163, 74));
    assert_eq!(cell(&frame, 0, 12, 6), (22, 163, 74));
    assert_eq!(cell(&frame, 0, 11, 7), (22, 163, 74));
    assert_eq!(cell(&frame, 0, 12, 7), (0, 0, 0));
    assert_eq!(cell(&frame, 1, 10, 6), (0, 0, 0));
}

#[test]
fn frame_has_one_triple_per_cell_depth_outermost() {
    let mut vbox = Voxelbox::new(String::from("10.0.0.2"), 7000);
    assert_eq!(vbox.ip(), "10.0.0.2");
    assert_eq!(vbox.port(), 7000);
    let frame = vbox.frame();
    assert_eq!(frame.len(), 3 * LED_COUNT);
    assert_eq!(LED_COUNT, WIDTH as usize * HEIGHT as usize * DEEPTH as usize);
    vbox.set_led(1, 0, 0, Rgb::new(1, 2, 3));
    vbox.set_led(0, 1, 0, Rgb::new(4, 5, 6));
    vbox.set_led(0, 0, 1, Rgb::new(7, 8, 9));
    let frame = vbox.frame();
    assert_eq!(&frame[3..6], &[1, 2, 3]);
    assert_eq!(&frame[60..63], &[4, 5, 6]);
    assert_eq!(&frame[1200..1203], &[7, 8, 9]);
    vbox.reset_leds();
    assert!(vbox.frame().iter().all(|&b| b == 0));
}

#[test]
fn render_draws_paddles_then_ball() {
    let mut vbox = Voxelbox::new(String::from("127.0.0.1"), 5005);
    let paddle_1 = Player::player_1();
    let paddle_2 = Player::player_2();
    let ball = Ball::default();
    render(&mut vbox, &paddle_1, &paddle_2, &ball);
    let frame = vbox.frame();
    assert_eq!(cell(&frame, 10, 10, 6), (219, 39, 119));
    assert_eq!(cell(&frame, 11, 9, 5), (219, 39, 119));
    assert_eq!(cell(&frame, 12, 10, 6), (0, 0, 0));
    assert_eq!(cell(&frame, 0, 10, 6), (22, 163, 74));
    assert_eq!(cell(&frame, 1, 8, 6), (22, 163, 74));
    assert_eq!(cell(&frame, 19, 10, 4), (234, 179, 8));
    assert_eq!(cell(&frame, 18, 10, 8), (234, 179, 8));
    assert_eq!(cell(&frame, 0, 0, 0), (0, 0, 0));
    let lit = (0..LED_COUNT)
        .filter(|k| frame[3 * k..3 * k + 3] != [0, 0, 0])
        .count();
    assert_eq!(lit, 27 + 2 * 2 * 13);
}

#[test]
fn ball_and_paddle_cells() {
    let ball = Ball::default();
    let cells = ball.draw();
    assert_eq!(cells.len(), 28);
    assert_eq!(cells[0], (10, 10, 6));
    assert_eq!(cells[1], (9, 9, 5));
    assert_eq!(cells[27], (11, 11, 7));
    assert_eq!(ball.color(), Rgb::pink());
    let p = Player::player_2();
    let cells = p.draw();
    assert_eq!(cells.len(), 26);
    assert_eq!(cells[0], (19, 10, 4));
    assert_eq!(cells[1], (18, 10, 4));
    assert_eq!(p.color(), Rgb::yellow());
}

#[test]
fn rgb_converts_to_a_triple() {
    let t: (u8, u8, u8) = Rgb::new(1, 2, 3).into();
    assert_eq!(t, (1, 2, 3));
    assert_eq!(Rgb::black(), Rgb::new(0, 0, 0));
}
