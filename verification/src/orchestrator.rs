//! What a run does with its grid: it seeds it once, and on every display
//! refresh the run loop decides and the grid, the capture and the framebuffer
//! follow.

use vstd::prelude::*;
use crate::capture::{capture_frame, indexed_frame, indexed_pixels};
use crate::framebuffer::{Color, Framebuffer};
use crate::game_of_life::GameOfLife;
use crate::generation::Generation;
use crate::patterns::{create_sun_pattern, Pattern};
use crate::run_loop::{Action, RunLoop};

verus! {

/// Seeds the grid with the default pattern at its default place.
pub fn setup_sun_pattern(game: &mut GameOfLife)
    requires
        old(game).well_formed(),
    ensures
        final(game).well_formed(),
        final(game)@ == old(game)@.seeded(Pattern::Sun.cells(), 34, 24),
{
    let (pattern, x, y) = create_sun_pattern();
    game.initialize_with_pattern(pattern, x, y);
}

/// What one display refresh came to: what the run loop called for, and the
/// frame to append to the capture, if it called for one.
pub struct Refresh {
    pub action: Action,
    pub frame: Option<gif::Frame<'static>>,
}

/// The frame that an action appends to the capture when the grid holds `g`:
/// the frame of `g` if the action captures, and none otherwise.
pub open spec fn captured(action: Action, g: Generation, width: u16, height: u16) -> Option<
    gif::Frame<'static>,
> {
    if action.captures() {
        Some(indexed_frame(width, height, indexed_pixels(g, width as nat, height as nat), None))
    } else {
        None
    }
}

/// Carries out one display refresh.
///
/// The run loop takes note of the refresh. On a tick the grid advances by one
/// generation, and where the tick is captured the frame is made of the grid
/// after that step. Unless the run is over, the grid is then painted onto the
/// framebuffer over a black background.
pub fn refresh(
    run: &mut RunLoop,
    game: &mut GameOfLife,
    framebuffer: &mut Framebuffer,
    width: u16,
    height: u16,
) -> (refresh: Refresh)
    requires
        old(game).well_formed(),
        old(framebuffer).well_formed(),
    ensures
        final(game).well_formed(),
        final(framebuffer).well_formed(),
        refresh.action == old(run)@.action(),
        final(run)@ == old(run)@.step(),
        final(run)@.well_formed(),
        final(game)@ == if refresh.action.advances() {
            old(game)@.next()
        } else {
            old(game)@
        },
        refresh.frame == captured(refresh.action, final(game)@, width, height),
        final(framebuffer)@ == if refresh.action.presents() {
            old(framebuffer)@.with_background(Color::black()).painted(final(game)@)
        } else {
            old(framebuffer)@
        },
{
    let action = run.refresh();
    match action {
        Action::Present => {
            present(game, framebuffer);
            Refresh { action, frame: None }
        },
        Action::Advance => {
            game.update();
            present(game, framebuffer);
            Refresh { action, frame: None }
        },
        Action::Capture => {
            game.update();
            let frame = capture_frame(game, width, height);
            present(game, framebuffer);
            Refresh { action, frame: Some(frame) }
        },
        Action::Finish => {
            game.update();
            let frame = capture_frame(game, width, height);
            Refresh { action, frame: Some(frame) }
        },
        Action::Halt => Refresh { action, frame: None },
    }
}

/// Paints the grid onto the framebuffer over a black background.
fn present(game: &GameOfLife, framebuffer: &mut Framebuffer)
    requires
        game.well_formed(),
        old(framebuffer).well_formed(),
    ensures
        final(framebuffer).well_formed(),
        final(framebuffer)@ == old(framebuffer)@.with_background(Color::black()).painted(game@),
{
    framebuffer.set_background_color(Color::black());
    game.render(framebuffer);
}

} // verus!
