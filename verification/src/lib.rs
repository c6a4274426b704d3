//! Reputation ledger for token scanners.
//!
//! Every wallet owns at most one fisher record. A record counts the scans
//! ("catches") its owner reported, how many of them spotted a big fish, and the
//! reputation earned so far; the rank is always the tier of that reputation.
//!
//! * [`rank`]: the rank tiers and the rule that derives them from reputation.
//! * [`error`]: the reasons a request is turned down.
//! * [`account`]: one record and its transitions.
//! * [`ledger`]: the requests, and what each yields on a ledger seen as a map
//!   from wallet to record.
//! * [`store`]: the ledger in memory and the functions that serve the
//!   requests on it.
//! * [`laws`]: theorems that relate the requests to one another.

pub mod account;
pub mod error;
pub mod laws;
pub mod ledger;
pub mod rank;
pub mod store;

pub use account::{FisherAccount, FisherStats, WalletKey};
pub use error::ErrorCode;
pub use ledger::{GetFisherStats, InitializeFisher, RecordCatch};
pub use rank::FisherRank;
pub use store::{get_fisher_stats, initialize_fisher, record_catch, CatchEvent, FisherStore};
