//! A logging sink for the kernel's message buffer.
//!
//! The crate holds the rules of the sink: which records pass the severity
//! ceiling, which priority code a severity is sent under, the exact bytes of a
//! record on the wire, the order in which the device is locked, written,
//! flushed and released, and the registration of one sink as the active logger.
//! Every rule is stated as a contract and proved.
//!
//! The device itself is never touched here. A sink answers a record with a
//! [`Delivery`], which names one [`Command`] at a time; whoever owns the device
//! carries each command out and reports its [`Outcome`].

pub mod delivery;
pub mod record;
pub mod registry;
pub mod severity;
pub mod sink;

pub use delivery::{Command, Delivery, Outcome};
pub use record::{format_record, Record};
pub use registry::{init, init_with_level, Registry, SetLoggerError};
pub use severity::Severity;
pub use sink::{KernelLog, DEVICE};
