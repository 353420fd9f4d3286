pub mod types;
pub mod json;
pub mod time;
pub mod ids;
pub mod bus;
pub mod api;
pub mod store;
pub mod compat;
