pub mod cli;
pub mod connection;
pub mod crud;
pub mod json;
pub mod laws;
pub mod models;
pub mod sampledata;
pub mod store;
pub mod tables;
pub mod text;
