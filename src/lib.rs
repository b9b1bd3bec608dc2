pub mod backend;
pub mod cache;
pub mod commands;
pub mod gateway;
pub mod menu;
pub mod model;
pub mod session;
pub mod validation;
