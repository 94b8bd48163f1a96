//! Core logic of a small-business management service: the records it keeps
//! and their stored rows, session checks, what saving or deleting a record
//! comes to, notification routing to chat rooms, and the requests of the
//! outside accounting service.

pub mod akaunting;
pub mod board;
pub mod bot;
pub mod entity;
pub mod file;
pub mod home;
pub mod kinds;
pub mod matrix;
pub mod milestone;
pub mod note;
pub mod organization;
pub mod project;
pub mod rows;
pub mod save;
pub mod service_item;
pub mod task;
pub mod text;
pub mod user;
