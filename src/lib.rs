//! The state-transition logic of a permissioned ledger whose identities are
//! certificates issued by trusted authorities.
pub mod types;
pub mod codec;
pub mod crypto;
pub mod ledger;
pub mod runtime;
pub mod laws;

pub use ledger::{DISTRIBUTION_TERM, MAX_VOTE_BALANCE_PER_TERM};
pub use runtime::Module;
pub use types::{
    Account, AccountId, Authentication, Event, SignedData, Tx, TxCreateAccount, TxError, TxMint,
    TxSend, TxVote, TxWrite,
};
