//! The decisions of a pomodoro timer daemon and of its clients: when a period ends and what
//! follows it, what is broadcast and announced, how messages are framed, and what a status bar
//! is shown. Sockets, files, sound and the desktop are left to the program around it.

pub mod args;
pub mod command;
pub mod config;
pub mod connection;
pub mod cycle;
pub mod daemon;
pub mod message;
pub mod path;
pub mod promises;
pub mod protocol;
pub mod serving;
pub mod text;
pub mod time;
pub mod timer;
pub mod waybar;
