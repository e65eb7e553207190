//! Core of an interactive terminal chat client: conversation model, backend
//! response handling, the session relay engine, the event multiplexer's
//! admission policy and the application state machine.

pub mod text;
pub mod models;
pub mod events;
pub mod backend;
pub mod session;
pub mod mux;
pub mod config;
pub mod chat;
pub mod tools;
