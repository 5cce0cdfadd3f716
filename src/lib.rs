//! Driver logic for a 250×122 bi-color e-paper panel.
//!
//! The panel state (an in-memory bitmap with one byte per pixel) and the
//! controller's command protocol are modelled here. The protocol is produced
//! as a list of bus operations, and a [`Session`] decides, operation by
//! operation, what the transport does next and when a failure ends the run.
//! Performing each operation on real hardware is left to the caller.

pub mod framebuffer;
pub mod protocol;
pub mod session;

pub use framebuffer::{cell_index, Pixel, BUFFER_LEN, GDEH0213B72, HEIGHT, WIDTH};
pub use protocol::{
    flush_ops, init_ops, push_command, push_command_and_data, push_data, BusOp, Level,
};
pub use session::Session;
