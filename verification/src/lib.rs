pub mod assets;
pub mod config;
pub mod export;
pub mod export_plan;
pub mod flow;
pub mod instruction;
pub mod interaction;
pub mod model;
pub mod shell;
pub mod text;
pub mod window;
