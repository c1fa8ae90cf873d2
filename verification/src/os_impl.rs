//! The platform backends: the POSIX mapping model, the Windows mapping
//! model, and the Linux memory-map reader.

pub mod linux;
pub mod unix;
pub mod windows;
