//! A pharmacy point-of-sale data store: typed entities, write-time validation
//! of their invariants, GST line arithmetic in integer paise, atomic sale
//! recording with invoice sequencing, and the ordered schema migration ledger.
use vstd::prelude::*;

pub mod laws;
pub mod migration;
pub mod model;
pub mod store;
pub mod tax;
