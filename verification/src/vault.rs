use vstd::prelude::*;
use crate::account::Account;

verus! {

/// Failure conditions of the single-owner balance vault.
#[derive(Clone, Copy, Debug, PartialEq, Eq, Structural)]
pub enum VaultError {
    /// A deposit into a vault that already holds funds.
    VaultAlreadyExists,
    /// A deposit at or below the storage-deposit floor, or a withdrawal
    /// from an empty vault.
    InvalidAmount,
}

/// The accounts of one vault action: the owner (who signs), the owner's
/// keyless vault derived from their address, and the storage-allocation
/// program.
pub struct VaultAction {
    pub signer: Account,
    pub vault: Account,
    pub system_program: Account,
}

/// On which inputs a deposit is refused: the vault must be empty, and the
/// deposit must exceed the storage-deposit floor so the vault stays
/// resident.
pub open spec fn vault_deposit_check(vault: Account, amount: u64, rent_minimum: u64) -> Option<
    VaultError,
> {
    if vault.lamports != 0 {
        Some(VaultError::VaultAlreadyExists)
    } else if amount <= rent_minimum {
        Some(VaultError::InvalidAmount)
    } else {
        None
    }
}

impl VaultAction {
    /// Move `amount` from the owner into their (empty) vault.
    /// `rent_minimum` is the storage-deposit floor the runtime quotes for
    /// an empty account. The owner must hold the amount; the surrounding
    /// runtime's transfer refuses an underfunded payer before this engine
    /// is reached.
    pub fn deposit(&mut self, amount: u64, rent_minimum: u64) -> (r: Result<(), VaultError>)
        requires
            amount <= old(self).signer.lamports,
        ensures
            r is Ok <==> vault_deposit_check(old(self).vault, amount, rent_minimum) is None,
            r matches Err(e) ==> vault_deposit_check(old(self).vault, amount, rent_minimum)
                == Some(e),
            r is Err ==> *final(self) == *old(self),
            r is Ok ==> {
                &&& final(self).signer.lamports == old(self).signer.lamports - amount
                &&& final(self).vault.lamports == amount
                &&& final(self).signer.address == old(self).signer.address
                &&& final(self).signer.owner == old(self).signer.owner
                &&& final(self).signer.is_signer == old(self).signer.is_signer
                &&& final(self).signer.data@ == old(self).signer.data@
                &&& final(self).vault.address == old(self).vault.address
                &&& final(self).vault.owner == old(self).vault.owner
                &&& final(self).vault.is_signer == old(self).vault.is_signer
                &&& final(self).vault.data@ == old(self).vault.data@
                &&& final(self).system_program == old(self).system_program
            },
    {
        if self.vault.lamports != 0 {
            return Err(VaultError::VaultAlreadyExists);
        }
        if amount <= rent_minimum {
            return Err(VaultError::InvalidAmount);
        }
        self.signer.lamports = self.signer.lamports - amount;
        self.vault.lamports = amount;
        Ok(())
    }

    /// Move the vault's whole balance back to the owner, authorized on
    /// behalf of the vault's derived address. An empty vault is refused.
    /// The balances must fit when combined; on the host ledger the total
    /// in circulation guarantees that.
    pub fn withdraw(&mut self) -> (r: Result<(), VaultError>)
        requires
            old(self).signer.lamports + old(self).vault.lamports <= u64::MAX,
        ensures
            r is Ok <==> old(self).vault.lamports != 0,
            r matches Err(e) ==> e == VaultError::InvalidAmount && *final(self) == *old(self),
            r is Ok ==> {
                &&& final(self).signer.lamports == old(self).signer.lamports + old(
                    self,
                ).vault.lamports
                &&& final(self).vault.lamports == 0
                &&& final(self).signer.address == old(self).signer.address
                &&& final(self).signer.owner == old(self).signer.owner
                &&& final(self).signer.is_signer == old(self).signer.is_signer
                &&& final(self).signer.data@ == old(self).signer.data@
                &&& final(self).vault.address == old(self).vault.address
                &&& final(self).vault.owner == old(self).vault.owner
                &&& final(self).vault.is_signer == old(self).vault.is_signer
                &&& final(self).vault.data@ == old(self).vault.data@
                &&& final(self).system_program == old(self).system_program
            },
    {
        if self.vault.lamports == 0 {
            return Err(VaultError::InvalidAmount);
        }
        self.signer.lamports = self.signer.lamports + self.vault.lamports;
        self.vault.lamports = 0;
        Ok(())
    }
}

} // verus!
