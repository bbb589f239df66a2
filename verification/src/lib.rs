//! A verified core for a small embedded notifier: a bit-banged word
//! transport between a host and its wireless co-processor, the bring-up
//! state machine that takes the co-processor from power-on to steady
//! servicing, a name-resolution adapter, and the resilient loop that
//! periodically delivers one chat notification and absorbs transient
//! network failures.
//!
//! Everything that touches real hardware or a real network (GPIO lines,
//! the IP stack, TLS, timers) is kept outside this crate; the logic here
//! is exercised against simulated lines and scripted collaborators, and
//! every function carries a proved contract.

pub mod bits;
pub mod bringup;
pub mod errors;
pub mod notifier;
pub mod pool;
pub mod request;
pub mod resolver;
pub mod transport;
