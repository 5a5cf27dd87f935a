use conway_life::capture::create_gif_frame;
use conway_life::framebuffer::{Color, Framebuffer};
use conway_life::game_of_life::GameOfLife;
use conway_life::orchestrator::{refresh, setup_sun_pattern};
use conway_life::patterns::get_pattern_coordinates;
use conway_life::patterns::Pattern;
use conway_life::run_loop::{Action, CaptureState, RunLoop};

const GREEN: Color = Color { r: 0, g: 228, b: 48, a: 255 };

fn cells_of(game: &GameOfLife) -> Vec<(u32, u32)> {
    let mut cells = Vec::new();
    for y in 0..game.height() {
        for x in 0..game.width() {
            if game.is_alive(x, y) {
                cells.push((x, y));
            }
        }
    }
    cells
}

fn shown(framebuffer: &Framebuffer) -> Vec<Option<Color>> {
    let mut pixels = Vec::new();
    for y in 0..framebuffer.height() {
        for x in 0..framebuffer.width() {
            pixels.push(framebuffer.pixel(x, y));
        }
    }
    pixels
}

fn painting_of(game: &GameOfLife) -> Vec<Option<Color>> {
    let mut pixels = Vec::new();
    for y in 0..game.height() {
        for x in 0..game.width() {
            pixels.push(Some(if game.is_alive(x, y) { Color::white() } else { Color::black() }));
        }
    }
    pixels
}

#[test]
fn refresh_without_tick_only_presents() {
    let mut run = RunLoop::new(2, 5);
    let mut game = GameOfLife::new(4, 3);
    game.initialize_with_pattern(Pattern::Blinker, 0, 0);
    let mut framebuffer = Framebuffer::new(4, 3);
    refresh(&mut run, &mut game, &mut framebuffer, 4, 3);
    let before = cells_of(&game);

    let refreshed = refresh(&mut run, &mut game, &mut framebuffer, 4, 3);
    assert_eq!(refreshed.action, Action::Present);
    assert!(refreshed.frame.is_none());
    assert_eq!(cells_of(&game), before);
    assert_eq!(shown(&framebuffer), painting_of(&game));
    assert_eq!(run.frames_captured(), 1);
}

#[test]
fn refresh_on_a_tick_captures_the_grid_after_the_step() {
    let mut run = RunLoop::new(2, 5);
    let mut game = GameOfLife::new(4, 3);
    game.initialize_with_pattern(Pattern::Blinker, 0, 0);
    let mut framebuffer = Framebuffer::new(4, 3);

    let refreshed = refresh(&mut run, &mut game, &mut framebuffer, 4, 3);
    assert_eq!(refreshed.action, Action::Capture);
    assert_eq!(cells_of(&game), vec![(1, 1)]);
    let frame = refreshed.frame.unwrap();
    assert_eq!((frame.width, frame.height), (4, 3));
    assert_eq!(&frame.buffer[..], &[0, 0, 0, 0, 0, 1, 0, 0, 0, 0, 0, 0][..]);
    assert_eq!(shown(&framebuffer), painting_of(&game));
    assert_eq!(framebuffer.pixel(1, 1), Some(Color::white()));
    assert_eq!(run.frames_captured(), 1);
}

#[test]
fn refresh_resets_the_background_to_black() {
    let mut run = RunLoop::new(1, 5);
    let mut game = GameOfLife::new(2, 2);
    let mut framebuffer = Framebuffer::new(2, 2);
    framebuffer.set_background_color(GREEN);
    refresh(&mut run, &mut game, &mut framebuffer, 2, 2);
    assert_eq!(framebuffer.background_color(), Color::black());
    assert_eq!(shown(&framebuffer), vec![Some(Color::black()); 4]);
}

#[test]
fn last_capture_ends_the_run_without_presenting() {
    let mut run = RunLoop::new(1, 2);
    let mut game = GameOfLife::new(3, 3);
    game.initialize_with_pattern(Pattern::Blinker, 0, 0);
    let mut framebuffer = Framebuffer::new(3, 3);

    let first = refresh(&mut run, &mut game, &mut framebuffer, 3, 3);
    assert_eq!(first.action, Action::Capture);
    assert_eq!(cells_of(&game), vec![(1, 1)]);
    assert_eq!(&first.frame.unwrap().buffer[..], &[0, 0, 0, 0, 1, 0, 0, 0, 0][..]);
    let presented = shown(&framebuffer);
    assert_eq!(presented, painting_of(&game));

    let last = refresh(&mut run, &mut game, &mut framebuffer, 3, 3);
    assert_eq!(last.action, Action::Finish);
    assert_eq!(cells_of(&game), vec![]);
    assert_eq!(&last.frame.unwrap().buffer[..], &[0; 9][..]);
    // The framebuffer still shows the generation before.
    assert_eq!(shown(&framebuffer), presented);
    assert_eq!(framebuffer.pixel(1, 1), Some(Color::white()));
    assert_eq!(run.state(), CaptureState::Stopped);
    assert_eq!(run.frames_captured(), 2);
}

#[test]
fn refresh_after_the_run_does_nothing() {
    let mut run = RunLoop::new(1, 1);
    let mut game = GameOfLife::new(3, 3);
    game.initialize_with_pattern(Pattern::Block, 0, 0);
    let mut framebuffer = Framebuffer::new(3, 3);
    framebuffer.set_background_color(GREEN);
    assert_eq!(refresh(&mut run, &mut game, &mut framebuffer, 3, 3).action, Action::Finish);
    let cells = cells_of(&game);
    let pixels = shown(&framebuffer);

    for _ in 0..5 {
        let refreshed = refresh(&mut run, &mut game, &mut framebuffer, 3, 3);
        assert_eq!(refreshed.action, Action::Halt);
        assert!(refreshed.frame.is_none());
        assert_eq!(cells_of(&game), cells);
        assert_eq!(shown(&framebuffer), pixels);
        assert_eq!(framebuffer.background_color(), GREEN);
        assert_eq!(run.frames_captured(), 1);
    }
}

#[test]
fn refresh_with_a_cap_of_zero_advances_without_capture() {
    let mut run = RunLoop::new(2, 0);
    let mut game = GameOfLife::new(3, 3);
    game.initialize_with_pattern(Pattern::Blinker, 0, 0);
    let mut framebuffer = Framebuffer::new(3, 3);
    let refreshed = refresh(&mut run, &mut game, &mut framebuffer, 3, 3);
    assert_eq!(refreshed.action, Action::Advance);
    assert!(refreshed.frame.is_none());
    assert_eq!(cells_of(&game), vec![(1, 1)]);
    assert_eq!(shown(&framebuffer), painting_of(&game));
}

#[test]
fn whole_run_captures_every_generation_once() {
    let mut run = RunLoop::new(3, 4);
    let mut game = GameOfLife::new(80, 60);
    game.initialize_with_pattern(Pattern::Sun, 34, 24);
    let mut framebuffer = Framebuffer::new(80, 60);
    let mut model = GameOfLife::new(80, 60);
    model.initialize_with_pattern(Pattern::Sun, 34, 24);

    let mut frames: Vec<Vec<u8>> = Vec::new();
    let mut expected: Vec<Vec<u8>> = Vec::new();
    let mut refreshes = 0;
    while run.is_recording() {
        let refreshed = refresh(&mut run, &mut game, &mut framebuffer, 80, 60);
        if refreshes % 3 == 0 {
            model.update();
            expected.push(create_gif_frame(&model, 80, 60));
        }
        refreshes += 1;
        assert_eq!(cells_of(&game), cells_of(&model));
        if let Some(frame) = refreshed.frame {
            frames.push(frame.buffer.to_vec());
        }
    }
    assert_eq!(refreshes, 10);
    assert_eq!(frames.len(), 4);
    assert_eq!(frames, expected);
}

#[test]
fn default_setup_stamps_the_sun_in_the_middle() {
    let mut game = GameOfLife::new(80, 60);
    game.set_cell(0, 0, true);
    setup_sun_pattern(&mut game);
    let mut expected: Vec<(u32, u32)> =
        get_pattern_coordinates(Pattern::Sun).into_iter().map(|(dx, dy)| (34 + dx, 24 + dy)).collect();
    expected.push((0, 0));
    expected.sort_by_key(|&(x, y)| (y, x));
    assert_eq!(cells_of(&game), expected);
    assert!(game.is_alive(39, 29));
}

#[test]
fn default_setup_on_a_small_grid_drops_what_does_not_fit() {
    let mut game = GameOfLife::new(40, 30);
    setup_sun_pattern(&mut game);
    // Of the sun at (34, 24) to (44, 34) the columns up to 39 and the rows up
    // to 29 are on the grid.
    assert_eq!(
        cells_of(&game),
        vec![(34, 24), (39, 24), (35, 25), (39, 25), (36, 26), (39, 26), (38, 28), (39, 28), (34, 29),
            (35, 29), (36, 29), (38, 29), (39, 29)]
    );
}
