//! Core of a terminal banking client: the token lifecycle, the view stack with
//! its keyboard routing, the transfer form and the hold-to-quit gesture.
//!
//! Nothing here touches the terminal, the network or the disk. Every function
//! maps plain values to plain values; the binary around this crate performs
//! the requests, reads the keys and paints the screen.

pub mod accounts;
pub mod api;
pub mod auth;
pub mod callback;
pub mod config;
pub mod cursor;
pub mod input;
pub mod keys;
pub mod navigation;
pub mod quit;
pub mod state;
pub mod text;
pub mod token;
pub mod transfers;
