//! Adapter for a WIFI station interface driven over an AT-command link.
//!
//! The adapter issues the two commands that join an access point through a
//! command channel, translates transport failures into a closed error
//! taxonomy, and folds unsolicited status notifications into its view of the
//! connection state.

pub mod adapter;
pub mod commands;
pub mod urc;
