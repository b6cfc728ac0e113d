pub mod adapters;
pub mod backend;
pub mod builder;
pub mod checker;
pub mod config;
pub mod desktop;
pub mod fetcher;
pub mod json;
pub mod models;
pub mod parse;
pub mod parser;
pub mod sources;
pub mod text;
pub mod ui;
