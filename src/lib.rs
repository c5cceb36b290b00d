pub mod address;
pub mod ledger;
pub mod escrow;
pub mod laws;

pub use address::{record_address, Owner, Pubkey};
pub use escrow::{make, refund, take, MakeContext, RefundContext, TakeContext};
pub use ledger::{EscrowError, EscrowState, Ledger};
