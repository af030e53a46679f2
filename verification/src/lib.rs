//! Git Monitor: the verified core of a terminal monitor for git repositories.
pub mod actions;
pub mod command;
pub mod config;
pub mod display;
pub mod feedback;
pub mod git;
pub mod input;
pub mod menu;
pub mod navigation;
pub mod text;
