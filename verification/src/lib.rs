pub mod atomic;
pub mod fs;
pub mod handle;
pub mod process;
pub mod result;
pub mod sync;
pub mod sys;
pub mod thread;
pub mod time;
pub mod uuid;
