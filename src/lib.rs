//! A table-driven DRG grouper: a clinical case is assigned a major
//! diagnostic category (MDC), then an adjacent group (ADRG), then a final
//! severity-refined group (DRG).
use vstd::prelude::*;

pub mod adrg;
pub mod case;
pub mod codes;
pub mod drg;
pub mod fields;
pub mod grouper;
pub mod load;
pub mod mdc;
pub mod rules;
pub mod tables;

verus! {

} // verus!
