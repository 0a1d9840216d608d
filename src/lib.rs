pub mod bridge;
pub mod error;
pub mod identifier;
pub mod library;
pub mod loading;
pub mod naming;
pub mod output;
pub mod text;
