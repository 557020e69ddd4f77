//! The networked client: its menus, its chat, and how it reacts to keys and
//! to what the server sends. The network and the screen stay outside; the
//! client hands in what happened and gets back what to send and to draw.

pub mod ui;
pub mod renderer;
pub mod draw;
pub mod app;
