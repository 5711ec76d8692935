pub mod handler;
pub mod laws;
pub mod model;
pub mod store;
pub mod structs;
pub mod telegram;
pub mod text;
pub mod utils;
