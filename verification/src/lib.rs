//! Candidate overlay of an input method: the geometry of the candidate
//! window, the drawing plan of one repaint, the hand-off of a pending layout
//! to the repaint, the commands that drive the native window, and the
//! activation state machine that ties the overlay to a host editing session.
//!
//! Nothing here touches the operating system. Every function takes plain
//! values and returns plain values; the caller performs the commands and
//! reports the outcomes back.

pub mod activation;
pub mod global;
pub mod candidate_list;
pub mod layout;
pub mod mailbox;
pub mod paint;
