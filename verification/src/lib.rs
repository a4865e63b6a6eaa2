//! Per-cycle filters that turn noisy, intermittently arriving sensor and
//! network evidence into debounced, temporally qualified decision signals,
//! and that decide when to broadcast an inter-robot network message.
//!
//! The heart of the crate is time-windowed multi-source signal detection and
//! consensus broadcast: a rising-edge debounce timer, a per-agent table of
//! time-tagged evidence, a bounded most-recent-first queue of local detection
//! outcomes, and the pure decision functions that combine them each control
//! tick. All elapsed-time computation guards against a non-monotonic clock and
//! surfaces the fault as an error instead of panicking.

pub mod button_filter;
pub mod clock;
pub mod correlator;
pub mod detection_queue;
pub mod edge_timer;
pub mod filtered_whistle;
pub mod image_receiver;
pub mod joints;
pub mod messages;
pub mod players;
pub mod referee_pose_detection_filter;
