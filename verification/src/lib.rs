//! Core logic of a headless system-tray daemon: the commands that the HTTP
//! panel, the TCP control socket and the tray menu hand to the main thread,
//! the main thread's state machine, and the text protocols around them.
//!
//! Everything that performs I/O (sockets, SQLite, the tray itself) lives in
//! the application around this library; the functions here decide what is
//! done and what is answered.

pub mod commands;
pub mod text;
pub mod tcp_protocol;
pub mod controller;
pub mod menu;
pub mod icon;
pub mod storage;
pub mod http_api;
