//! The layer surface's side of the driver: what the application asks of the
//! surface, the frame driver itself, the requests it makes of the surface,
//! and the seat's devices with the rules that put their events in the
//! interface engine's terms.

pub mod adapter;
pub mod frame;
pub mod options;
pub mod seat;
pub mod surface;

pub use frame::FrameDriver;
pub use options::LayerShellOptions;
