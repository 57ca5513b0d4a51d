//! Verified core of the Wormhole Core Bridge program's legacy guardian set update and account
//! handling.

pub mod error;
pub mod governance;
pub mod guardian_set;
pub mod guardian_set_update;
pub mod legacy;
pub mod model;
