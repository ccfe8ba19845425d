//! Combinators that merge several asynchronous operations into one: wait for
//! all of them (join), or for the first of them (race, race-same). The
//! operations are driven by polling alone; nothing here allocates.

pub mod either;
pub mod join;
pub mod maybe_done;
pub mod model;
pub mod operands;
pub mod operation;
pub mod race;
pub mod race_same;
pub mod slots;

pub use either::{
    Either, Either10, Either11, Either12, Either13, Either14, Either15, Either16, Either3,
    Either4, Either5, Either6, Either7, Either8, Either9,
};
pub use join::{Join, Joined};
pub use maybe_done::MaybeDone;
pub use operation::{Clock, Operand, Operation, Poll};
pub use race::{Race, Raced};
pub use race_same::{RaceSame, RacedSame};
