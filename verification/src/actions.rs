use vstd::prelude::*;
use crate::pda::SigningAuthority;

verus! {

/// One externally performed step that a handler decided on. The engine
/// validates, orders and fully determines these; the surrounding runtime
/// carries each one out against the live ledger in the order given.
pub enum LedgerAction {
    /// Allocate the escrow record account (owner: this program, record
    /// sized), funded by `payer` and signed on behalf of the derived
    /// address in `signer`.
    CreateEscrowAccount { payer: [u8; 32], lamports: u64, signer: SigningAuthority },
    /// Create the deterministic holding account `account` for `mint` under
    /// `authority`, funded by `payer`.
    CreateAssociatedAccount {
        payer: [u8; 32],
        account: [u8; 32],
        mint: [u8; 32],
        authority: [u8; 32],
    },
    /// Move `amount` from `from` to `to` on the asset ledger, authorized by
    /// the signing party `authority`.
    Transfer { from: [u8; 32], to: [u8; 32], authority: [u8; 32], amount: u64 },
    /// Move `amount` from `from` to `to` on the asset ledger, authorized on
    /// behalf of the escrow's derived address.
    SignedTransfer { from: [u8; 32], to: [u8; 32], amount: u64, signer: SigningAuthority },
    /// Close the emptied holding account `account` on behalf of the
    /// escrow's derived address, sending its deposit to `destination`.
    CloseTokenAccount { account: [u8; 32], destination: [u8; 32], signer: SigningAuthority },
    /// Close the record account `account` of this program, sending its
    /// deposit to `destination`.
    CloseRecordAccount { account: [u8; 32], destination: [u8; 32] },
}

} // verus!
