//! The file-reading core: encoding resolution, result formatting, and the
//! reader's generation-guarded state machine.
pub mod codec;
pub mod reader;
