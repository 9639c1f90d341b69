use handmade_hero::framebuffer::produce_frame;
use handmade_hero::game::{Game, PixelBuffer, prepare_sound_buffer};
use handmade_hero::geometry::FrameGeometry;
use handmade_hero::input::KeyState;

#[test]
fn frame_length_is_height_times_width_times_bpp() {
    let geometry = FrameGeometry::new(16, 8, 4).expect("well formed");
    let mut game = Game::new();
    let frame = produce_frame(&geometry, &mut game, &KeyState::new());
    assert_eq!(frame.data.len(), 8 * 16 * 4);
    assert_eq!(frame.width, 16);
    assert_eq!(frame.height, 8);
    assert_eq!(frame.stride, 64);
}

#[test]
fn rendered_pattern_reads_back_identically() {
    let geometry = FrameGeometry::new(16, 8, 4).expect("well formed");
    let mut game = Game::new();
    let frame = produce_frame(&geometry, &mut game, &KeyState::new());
    for y in 0..8usize {
        for x in 0..16usize {
            let p = y * 64 + x * 4;
            assert_eq!(frame.data[p], x as u8, "blue component is the x gradient");
            assert_eq!(frame.data[p + 1], y as u8, "green component is the y gradient");
            assert_eq!(frame.data[p + 2], 0, "red component is cleared");
            assert_eq!(frame.data[p + 3], 0, "the fourth byte keeps the pool's zero");
        }
    }
    let again = frame.data.clone();
    assert_eq!(frame.data, again, "the view is idempotent");
}

#[test]
fn identical_frames_without_input() {
    let geometry = FrameGeometry::new(16, 8, 4).expect("well formed");
    let mut game = Game::new();
    let idle = KeyState::new();
    let first = produce_frame(&geometry, &mut game, &idle);
    let second = produce_frame(&geometry, &mut game, &idle);
    assert_eq!(first.data, second.data);
}

#[test]
fn wrapping_gradient_beyond_one_byte() {
    let geometry = FrameGeometry::new(300, 1, 4).expect("well formed");
    let mut game = Game::new();
    let frame = produce_frame(&geometry, &mut game, &KeyState::new());
    assert_eq!(frame.data[299 * 4], (299 % 256) as u8);
}

#[test]
fn held_keys_scroll_the_offsets() {
    let geometry = FrameGeometry::new(4, 4, 4).expect("well formed");
    let mut game = Game::new();
    let right = KeyState { up: false, left: false, right: true, down: false };
    produce_frame(&geometry, &mut game, &right);
    assert_eq!(game.x_offset, 25);
    assert_eq!(game.pitch_offset, 1);
    produce_frame(&geometry, &mut game, &right);
    assert_eq!(game.x_offset, 50);
    assert_eq!(game.pitch_offset, 2);

    let left = KeyState { up: false, left: true, right: false, down: false };
    produce_frame(&geometry, &mut game, &left);
    assert_eq!(game.x_offset, 25);
    assert_eq!(game.pitch_offset, 1);
}

#[test]
fn offsets_wrap_around() {
    let mut game = Game::new();
    let mut buffer = PixelBuffer {
        data: vec![0u8; 16 * 4 * 4],
        height: 4,
        width: 4,
        stride: 16,
    };
    let left = KeyState { up: false, left: true, right: false, down: false };
    game.update_and_render(&mut buffer, &left);
    assert_eq!(game.x_offset, 231, "25 below zero wraps");
    assert_eq!(game.pitch_offset, -1, "the tone bends down one step");
}

#[test]
fn pitch_offset_is_clamped() {
    let geometry = FrameGeometry::new(4, 4, 4).expect("well formed");
    let mut game = Game::new();
    let up = KeyState { up: true, left: false, right: false, down: false };
    for _ in 0..300 {
        produce_frame(&geometry, &mut game, &up);
    }
    assert_eq!(game.pitch_offset, 250, "the tone offset never exceeds its range");

    let down = KeyState { up: false, left: false, right: false, down: true };
    for _ in 0..600 {
        produce_frame(&geometry, &mut game, &down);
    }
    assert_eq!(game.pitch_offset, -250);
}

#[test]
fn opposing_keys_prefer_left_and_up() {
    let geometry = FrameGeometry::new(4, 4, 4).expect("well formed");
    let mut game = Game::new();
    let all = KeyState { up: true, left: true, right: true, down: true };
    produce_frame(&geometry, &mut game, &all);
    assert_eq!(game.x_offset, 231, "left wins over right");
    assert_eq!(game.y_offset, 231, "up wins over down");
}

#[test]
fn sound_buffer_is_sized_and_zeroed() {
    let buffer = prepare_sound_buffer(512, 48000, 2);
    assert_eq!(buffer.data.len(), 512);
    assert!(buffer.data.iter().all(|b| *b == 0));
    assert_eq!(buffer.bytes_per_sample, 4);
    assert_eq!(buffer.sample_rate, 48000);
    assert_eq!(buffer.num_channels, 2);
}
