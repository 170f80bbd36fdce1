pub mod mutex;
pub mod event;
pub mod once;
