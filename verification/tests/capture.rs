use conway_life::capture::{
    capture_frame, capture_palette, create_gif_frame, BACKGROUND_INDEX, FOREGROUND_INDEX,
};
use conway_life::game_of_life::GameOfLife;
use conway_life::patterns::Pattern;

#[test]
fn indices_are_zero_and_one() {
    assert_eq!(BACKGROUND_INDEX, 0);
    assert_eq!(FOREGROUND_INDEX, 1);
}

#[test]
fn palette_is_black_then_white() {
    assert_eq!(capture_palette(), vec![0, 0, 0, 255, 255, 255]);
}

#[test]
fn gif_frame_is_row_major() {
    let mut game = GameOfLife::new(3, 2);
    game.set_cell(1, 0, true);
    game.set_cell(0, 1, true);
    game.set_cell(2, 1, true);
    assert_eq!(create_gif_frame(&game, 3, 2), vec![0, 1, 0, 1, 0, 1]);
}

#[test]
fn gif_frame_of_a_dead_grid_is_all_background() {
    let game = GameOfLife::new(80, 60);
    let data = create_gif_frame(&game, 80, 60);
    assert_eq!(data.len(), 4800);
    assert!(data.iter().all(|&index| index == 0));
}

#[test]
fn gif_frame_of_a_full_grid_is_all_foreground() {
    let mut game = GameOfLife::new(4, 5);
    for y in 0..5 {
        for x in 0..4 {
            game.set_cell(x, y, true);
        }
    }
    assert_eq!(create_gif_frame(&game, 4, 5), vec![1; 20]);
}

#[test]
fn gif_frame_larger_than_the_grid_is_padded_with_background() {
    let mut game = GameOfLife::new(2, 2);
    game.set_cell(1, 1, true);
    game.set_cell(0, 0, true);
    assert_eq!(create_gif_frame(&game, 3, 3), vec![1, 0, 0, 0, 1, 0, 0, 0, 0]);
}

#[test]
fn gif_frame_smaller_than_the_grid_is_cut() {
    let mut game = GameOfLife::new(3, 3);
    game.set_cell(2, 0, true);
    game.set_cell(1, 1, true);
    game.set_cell(0, 2, true);
    assert_eq!(create_gif_frame(&game, 2, 2), vec![0, 0, 0, 1]);
}

#[test]
fn gif_frame_without_pixels_is_empty() {
    let game = GameOfLife::new(3, 3);
    assert_eq!(create_gif_frame(&game, 0, 3), vec![]);
    assert_eq!(create_gif_frame(&game, 3, 0), vec![]);
    assert_eq!(create_gif_frame(&game, 0, 0), vec![]);
}

#[test]
fn gif_frame_of_the_widest_row() {
    let mut game = GameOfLife::new(70000, 1);
    game.set_cell(65534, 0, true);
    game.set_cell(65535, 0, true);
    let data = create_gif_frame(&game, u16::MAX, 1);
    assert_eq!(data.len(), 65535);
    assert_eq!(data[65534], 1);
    assert_eq!(data.iter().filter(|&&index| index == 1).count(), 1);
}

#[test]
fn captured_frame_holds_the_indexed_pixels() {
    let mut game = GameOfLife::new(5, 3);
    game.initialize_with_pattern(Pattern::Blinker, 1, 0);
    let frame = capture_frame(&game, 5, 3);
    assert_eq!(frame.width, 5);
    assert_eq!(frame.height, 3);
    assert_eq!(frame.top, 0);
    assert_eq!(frame.left, 0);
    assert_eq!(frame.transparent, None);
    assert!(frame.palette.is_none());
    assert_eq!(&frame.buffer[..], &[0, 0, 0, 0, 0, 0, 1, 1, 1, 0, 0, 0, 0, 0, 0][..]);
    assert_eq!(&frame.buffer[..], &create_gif_frame(&game, 5, 3)[..]);
}

#[test]
fn captured_frame_without_pixels() {
    let game = GameOfLife::new(5, 3);
    let frame = capture_frame(&game, 0, 7);
    assert_eq!(frame.width, 0);
    assert_eq!(frame.height, 7);
    assert!(frame.buffer.is_empty());
}

#[test]
fn captured_frames_make_a_gif() {
    let mut game = GameOfLife::new(4, 4);
    game.initialize_with_pattern(Pattern::Block, 1, 1);
    game.set_cell(3, 3, true);
    let first = create_gif_frame(&game, 4, 4);
    let palette = capture_palette();

    let mut bytes: Vec<u8> = Vec::new();
    {
        let mut encoder = gif::Encoder::new(&mut bytes, 4, 4, &palette).unwrap();
        encoder.set_repeat(gif::Repeat::Infinite).unwrap();
        encoder.write_frame(&capture_frame(&game, 4, 4)).unwrap();
        game.update();
        encoder.write_frame(&capture_frame(&game, 4, 4)).unwrap();
    }
    let second = create_gif_frame(&game, 4, 4);
    assert_ne!(first, second);

    let mut options = gif::DecodeOptions::new();
    options.set_color_output(gif::ColorOutput::Indexed);
    let mut decoder = options.read_info(&bytes[..]).unwrap();
    assert_eq!(decoder.width(), 4);
    assert_eq!(decoder.height(), 4);
    assert_eq!(decoder.global_palette(), Some(&[0u8, 0, 0, 255, 255, 255][..]));
    let frame = decoder.read_next_frame().unwrap().unwrap();
    assert_eq!(&frame.buffer[..], &first[..]);
    let frame = decoder.read_next_frame().unwrap().unwrap();
    assert_eq!(&frame.buffer[..], &second[..]);
    assert!(decoder.read_next_frame().unwrap().is_none());
}
