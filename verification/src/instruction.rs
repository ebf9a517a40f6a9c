//! The arguments of each instruction, as a client sends them.

use vstd::prelude::*;

verus! {

#[derive(Clone, Debug, PartialEq, Eq)]
pub struct CreateEscrow {
    pub amount: u64,
    pub timeout_duration: i64,
    pub description: String,
}

#[derive(Clone, Copy, Debug, PartialEq, Eq)]
pub struct AcceptEscrow {}

#[derive(Clone, Copy, Debug, PartialEq, Eq)]
pub struct ConfirmDelivery {}

#[derive(Clone, Copy, Debug, PartialEq, Eq)]
pub struct CancelEscrow {}

#[derive(Clone, Copy, Debug, PartialEq, Eq)]
pub struct ResolveTimeout {}

} // verus!
