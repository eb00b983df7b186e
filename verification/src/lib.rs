//! Decision logic of a live inspector for niri's touch gesture recognizer.
//!
//! The inspector subscribes to niri's IPC event stream, keeps the latest
//! recognition frame and gesture history, and shows threshold bars for the
//! swipe / pinch / rotation / arc metrics. This crate holds the parts that
//! decide: the subscription protocol, the mapping from niri events to
//! inspector messages, the state of each threshold bar, and the texts that
//! the panel shows after each message. Sockets, threads and widgets live in
//! the program around it.
//!
//! Metric values (distances, angles) are carried as a type parameter `M`:
//! the logic here routes them but never computes with them.

pub mod text;
pub mod ipc;
pub mod session;
pub mod bar;
pub mod ui;

pub use text::decimal_string;
pub use ipc::{FrameSnapshot, IpcMsg, NiriEvent, event_message, disconnect_message};
pub use ui::UiState;
