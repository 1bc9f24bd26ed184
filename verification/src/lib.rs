pub mod text;
pub mod alias;
pub mod json;
pub mod state;
pub mod protocol;
pub mod handlers;
pub mod rebuild;
pub mod pkg;
pub mod manifest;
