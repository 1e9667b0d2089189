//! The scaffold a new command module is grown from.
use vstd::prelude::*;

verus! {

/// The response a scaffolded command returns.
#[derive(Debug)]
pub struct CreateTemplateResponse {
    pub id: String,
    pub message: String,
}

} // verus!
