pub mod arch_ctl;
pub mod config;
pub mod debug;
pub mod device;
pub mod dispatch;
pub mod error;
pub mod event;
pub mod except;
pub mod fs;
pub mod handle;
pub mod info;
pub mod io;
pub mod ipc;
pub mod isolation;
pub mod kmgmt;
pub mod kstr;
pub mod option;
pub mod permission;
pub mod process;
pub mod result;
pub mod socket;
pub mod thread;
pub mod time;
