pub mod args;
pub mod definitions;
pub mod processor;
pub mod scanner;
pub mod stats;
pub mod ui;

pub use args::Args;
