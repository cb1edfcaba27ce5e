//! Core logic of the Kiri desktop session: the `d5` session manager
//! (notifications, configuration, bus handles, the session leader) and the
//! decisions of the `gyaku` compositor and the `kiri` launcher.
//!
//! Only the `d5` program is built around this library. The compositor and the
//! launcher are not: their glue works on smithay's objects (seats, spaces,
//! renderers, backends), and this crate does not depend on smithay. What they
//! decide on plain values (backend choice, input routing, seat devices, pointer
//! buttons, grabs, commits, window events, frames) stands in [`compositor`],
//! verified; each decision's documentation says what it leaves to that glue.

pub mod bus;
pub mod cli;
pub mod compositor;
pub mod config;
pub mod notify;
pub mod service;
pub mod session;
