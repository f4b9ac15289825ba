//! Redraw scheduling and frame production for an immediate-mode interface
//! that is rasterized on the CPU and presented on a layer-shell surface.
//!
//! The library decides and the program around it acts. On every turn of the
//! event loop the program reports what the compositor and the seat said
//! (configure, frame callback, closed, capabilities, input) to the
//! [`layer_shell::FrameDriver`], asks it for the timeout of the next wait and
//! whether a frame is owed, and, where one is, takes the input of the pass,
//! the layout of the buffer and the requests that present it from the driver.
//!
//! - [`scheduler`] holds the wake time of the next repaint.
//! - [`inbox`] is the locked cell through which other contexts ask for one.
//! - [`egui_state`] accumulates the input of the next pass.
//! - [`buffer`] sizes a frame and cuts its pixels out of the pool's memory.
//! - [`layer_shell`] holds the driver, the surface's requests and options,
//!   and the seat's devices.
//! - [`clock`] counts time.
//! - [`outside`] lists what is assumed of code that is not verified here.

pub mod buffer;
pub mod clock;
pub mod egui_state;
pub mod inbox;
pub mod layer_shell;
pub mod outside;
pub mod scheduler;
