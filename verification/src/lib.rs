//! Conway's Game of Life on a bounded grid, without births: the grid and its
//! update rule, seed patterns, the rasters that show a generation on screen or
//! in a GIF capture, and the decisions of the loop that paces a run.

pub mod generation;
pub mod patterns;
pub mod framebuffer;
pub mod game_of_life;
pub mod capture;
pub mod run_loop;
pub mod orchestrator;
mod rows;
