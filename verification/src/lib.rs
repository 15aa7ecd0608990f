//! Decision logic of a scheduled greeting and prize-draw bot.
//!
//! The crate holds the rules of the bot as verified functions on plain
//! values: who may win a draw, what each outgoing message says, how an
//! inbound command is routed. Network, storage and timers are reached
//! through the interfaces of [`capability`], which the embedding program
//! implements.

pub mod capability;
pub mod commands;
pub mod config;
pub mod date;
pub mod draw;
pub mod greeting;
pub mod ollama;
pub mod recipient;
pub mod registry;
pub mod router;
pub mod scheduler;
pub mod start;
pub mod template;
pub mod text;
pub mod weather;
pub mod wttr;
