//! Address handling for listeners that serve TCP and Unix domain sockets
//! side by side.
//!
//! The library holds the decisions that a dual listener makes before and
//! after it talks to the operating system: how an address string is
//! classified, which socket a listener binds, how Unix socket paths are
//! validated, and how the results of many listeners are combined.

pub mod dual;
pub mod laws;
pub mod listener;
pub mod multi;
pub mod parse;

pub use dual::{AddrError, BindTarget, DualAddr, DualAddrView, ErrorKind, Platform, SockAddr, ToDualAddr, UdsAddr};
pub use listener::{DuplexAddr, ToDuplexAddr};
pub use multi::{MultiAddr, collect_results};
