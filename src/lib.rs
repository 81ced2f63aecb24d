//! The top-staker crowning rule of a proof-of-work token protocol.
//!
//! A shared `Config` record names the account with the largest known stake.
//! `crown` decides, for one candidate `Proof`, whether it takes that place,
//! and `process_crown` runs the account gates in front of that decision.
pub mod error;
pub mod state;
pub mod crown;

pub use error::OreError;
pub use state::{Address, Config, Proof, ONE_MINUTE};
pub use crown::{
    can_crown, crown, load_any_proof, load_config, load_signer, process_crown, AccountData,
    AccountRecord, CrownError,
};
