//! Logic core of a set of GTK convenience widgets.
//!
//! The one stateful component worth verifying is the debounced,
//! UUID-validating text entry: every non-empty edit restarts a one-shot
//! timer, and when the timer fires with no further edit the buffer either
//! holds a canonical UUID string or is cleared.  This crate holds that
//! state machine, the canonical-format parser it validates against, and
//! the small decision kernels of the remaining widgets; the toolkit glue
//! around them lives outside the verified library.

pub mod revealing;
pub mod selection;
pub mod uuid_entry;
pub mod uuid_format;
