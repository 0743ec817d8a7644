//! Energy sampling around a workload.
//!
//! The library holds the rules of a measurement run and leaves the access to
//! the machine to its caller. Nothing in it opens a file or touches a
//! register: each operation says what the caller has to read or write, and
//! takes the outcome as plain values.
//!
//! - [`vendor`]: the two CPU families with their register addresses and the
//!   columns of their output files.
//! - [`msr`] and [`driver`]: the register reader. A register is read by a
//!   request that depends on the access path; the answer is eight bytes,
//!   least significant first. The driver path has a one-time setup.
//! - [`calibration`]: the power-unit register, read once and kept.
//! - [`governor`]: the bound on the number of sampling iterations.
//! - [`session`]: the start/stop cycle. A `start` that samples hands out the
//!   registers to read and waits for the start snapshot; a `stop` pairs that
//!   snapshot with the end snapshot.
//! - [`record`], [`row`], [`csv_line`] and [`decimal`]: snapshots, records
//!   and the rows of the output file, written and read back.
//! - [`sink`]: the output file's name, and what is appended to it: the
//!   header once, then one row for each record.
//! - [`clock`]: the wall clock in milliseconds.

pub mod calibration;
pub mod clock;
pub mod csv_line;
pub mod decimal;
pub mod driver;
pub mod error;
pub mod governor;
pub mod msr;
pub mod record;
pub mod row;
pub mod session;
pub mod sink;
pub mod vendor;
