//! A time-bounded crowdfunding escrow: campaign and pledge records, their
//! fixed-width encodings, and the four lifecycle handlers, each a pure
//! decision from the supplied accounts to a plan of effects for the host.
pub mod address;
pub mod codec;
pub mod error;
pub mod instructions;
pub mod ledger;
pub mod processor;
pub mod state;

pub use error::{FundraiserError, ProcessError};
pub use instructions::FundraiserInstructions;
pub use processor::{checker, contribute, initialize, process_instruction, refund};
pub use state::{Contributor, Fundraiser};
