//! Core of a personal interval-timer daemon: a pausable, cancellable
//! countdown (`Timer`) and a phase-sequencing orchestrator (`Controller`)
//! that runs the work / break / long-break cycle.
//!
//! All state lives in plain values; the current instant enters every
//! time-dependent operation as an explicit argument (a millisecond count on a
//! monotonic clock), and each mutating operation returns the actions the
//! caller must perform: events to deliver to registered handlers, an
//! expiration to schedule, a pending schedule to cancel. The process around
//! the library owns the clock, the locks, the sleep tasks and the control
//! socket, and feeds their outcomes back in.


pub mod controller;
pub mod protocol;
pub mod timer;
