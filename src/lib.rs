//! Value-custody state machines for peer wagering, pooled tournaments and subscriptions.
//!
//! Each transition checks the caller and the record's stage, then returns the token
//! payments it needs together with the record's new state. The two are one unit: the
//! caller performs every payment and stores the new record, or does neither. On failure
//! a transition returns its error and leaves the record as it was.

pub mod key;
pub mod token;
pub mod escrow;
pub mod tournament;
pub mod subscription;
pub mod wager;
