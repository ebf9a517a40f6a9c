//! What the command line asks for: one command with its arguments, and where
//! to send it.

use vstd::prelude::*;

verus! {

/// The timeout of a new escrow where none is given: 24 hours, in seconds.
pub const DEFAULT_TIMEOUT: i64 = 86400;

/// A command line: the command, the node to talk to and the wallet to sign
/// with.
#[derive(Clone, Debug, PartialEq, Eq)]
pub struct Cli {
    pub command: Commands,
    /// The address of the node.
    pub rpc_url: String,
    /// The path of the file that holds the wallet's key pair.
    pub keypair: String,
}

/// The commands.
#[derive(Clone, Debug, PartialEq, Eq)]
pub enum Commands {
    /// Create a new escrow.
    Create(CreateArgs),
    /// Accept an existing escrow.
    Accept(AcceptArgs),
    /// Confirm delivery and release the funds.
    Confirm(ConfirmArgs),
    /// Cancel an escrow before acceptance.
    Cancel(CancelArgs),
    /// Resolve the timeout of an escrow.
    ResolveTimeout(ResolveTimeoutArgs),
    /// Show an escrow.
    Info(InfoArgs),
}

impl Commands {
    /// What is said when work on the command begins.
    pub open spec fn announcement_text(self) -> Seq<char> {
        match self {
            Commands::Create(_) => "Creating escrow..."@,
            Commands::Accept(_) => "Accepting escrow..."@,
            Commands::Confirm(_) => "Confirming delivery..."@,
            Commands::Cancel(_) => "Cancelling escrow..."@,
            Commands::ResolveTimeout(_) => "Resolving timeout..."@,
            Commands::Info(_) => "Getting escrow info..."@,
        }
    }

    /// What to say when work on the command begins.
    pub fn announcement(&self) -> (r: &'static str)
        ensures
            r@ == self.announcement_text(),
    {
        match self {
            Commands::Create(_) => "Creating escrow...",
            Commands::Accept(_) => "Accepting escrow...",
            Commands::Confirm(_) => "Confirming delivery...",
            Commands::Cancel(_) => "Cancelling escrow...",
            Commands::ResolveTimeout(_) => "Resolving timeout...",
            Commands::Info(_) => "Getting escrow info...",
        }
    }
}

#[derive(Clone, Debug, PartialEq, Eq)]
pub struct CreateArgs {
    /// The asset, in base58.
    pub mint: String,
    /// The amount to escrow.
    pub amount: u64,
    /// The timeout, in seconds from now.
    pub timeout: i64,
    pub description: String,
}

#[derive(Clone, Debug, PartialEq, Eq)]
pub struct AcceptArgs {
    /// The address of the escrow, in base58.
    pub escrow: String,
}

#[derive(Clone, Debug, PartialEq, Eq)]
pub struct ConfirmArgs {
    /// The address of the escrow, in base58.
    pub escrow: String,
    /// The address of the seller's account, in base58.
    pub seller_token_account: String,
}

#[derive(Clone, Debug, PartialEq, Eq)]
pub struct CancelArgs {
    /// The address of the escrow, in base58.
    pub escrow: String,
}

#[derive(Clone, Debug, PartialEq, Eq)]
pub struct ResolveTimeoutArgs {
    /// The address of the escrow, in base58.
    pub escrow: String,
    /// The address of the seller's account, in base58.
    pub seller_token_account: String,
}

#[derive(Clone, Debug, PartialEq, Eq)]
pub struct InfoArgs {
    /// The address of the escrow, in base58.
    pub escrow: String,
}

} // verus!
