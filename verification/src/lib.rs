//! A client for the game of Go: the driver of its QUIC connection, and what
//! its scenes decide.
//!
//! The connection side is a state machine without I/O in it. [`driver`]
//! names one operation at a time, on the socket, the readiness notifier or
//! the QUIC engine, and takes its outcome back as an [`event`]; [`invariants`]
//! states what holds of every run. [`exchange`] encodes the request and reads
//! the response, [`identity`] makes the connection identifier, and
//! [`settings`] holds the fixed parameters.
//!
//! The game side is plain data and rules over it: the backend's records in
//! [`dto`], the scene's knowledge in [`game_data`], the board in [`board`],
//! the panels in [`hud`], and a move as it is requested in [`game_request`]
//! and [`game_step`].

pub mod board;
pub mod driver;
pub mod dto;
pub mod event;
pub mod exchange;
pub mod game_data;
pub mod game_request;
pub mod game_step;
pub mod hud;
pub mod identity;
pub mod invariants;
pub mod settings;
pub mod text;
pub mod util;
