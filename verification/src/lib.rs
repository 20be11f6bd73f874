//! Core of a virtual-desktop switcher that runs behind global hotkeys and a
//! notification-area icon.
//!
//! The library holds the three parts of the program that carry real state and
//! policy, each verified against its contract:
//!
//! - [`registry`]: the focus registry, which remembers per desktop which
//!   window last held foreground focus;
//! - [`controller`]: the desktop-switch controller, which performs one
//!   user-requested switch to completion, with a bounded completion poll and a
//!   best-effort focus restoration;
//! - [`router`]: the event router, which turns each inbound platform event
//!   into one of a small closed set of intents, plus the fixed hotkey and
//!   context-menu tables.
//!
//! The platform's virtual-desktop subsystem and the window/notification
//! binding are collaborators that only an unverified driver can reach; the
//! controller therefore speaks to them through explicit [`controller::Action`]
//! requests and [`controller::Answer`] replies, so that every decision taken
//! on the platform's answers is made, and proved, here.
pub mod controller;
pub mod registry;
pub mod router;

