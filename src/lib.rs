use vstd::prelude::*;

pub mod attestation;
pub mod deck;
pub mod record;
pub mod score;
pub mod session;

verus! {

} // verus!
