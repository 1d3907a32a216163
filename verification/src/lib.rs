//! Widget composition model and poll-driven event-loop core of an
//! on-screen overlay: a declarative widget tree is turned into live
//! runtime widgets (pruning the branches whose backing hardware or
//! service is missing), and the leaves feed one multiplexed blocking
//! wait that triggers whole-surface redraws.
//!
//! Everything here works on plain values. The process edges — dbus
//! round trips, sysfs reads, the actual `poll(2)` call, rendering —
//! live outside this crate and hand in their observations as data.

pub mod cmd;
pub mod color;
pub mod config;
pub mod time;
pub mod wait;
pub mod widget;
pub mod widgets;
