//! Rendering and hit-testing core of a project organizer's search view: a
//! list of projects, servers, notes, websites and the like is laid out on one
//! canvas, and every paint pass rebuilds the table of areas that the pointer
//! can act on. Notes are rendered with their links tracked by text offset.

pub mod badge;
pub mod geometry;
pub mod history;
pub mod item;
pub mod models;
pub mod notes;
pub mod paint;
pub mod project_list;
pub mod resolve;
pub mod scroll;
pub mod text;
pub mod view;
