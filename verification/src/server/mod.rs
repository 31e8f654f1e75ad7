pub mod config;
pub mod images;
pub mod models;
pub mod paths;
pub mod plans;
pub mod requests;
