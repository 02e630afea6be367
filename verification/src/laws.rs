use vstd::prelude::*;
use crate::account::{is_vacant, Account};
use crate::addr::{spec_program_id, spec_system_program_id};
use crate::errors::EscrowError;
use crate::make::{make_post, Make};
use crate::pda::spec_escrow_address;
use crate::refund::{refund_check, refund_setup_check};
use crate::state::{spec_record_bump, spec_record_maker, spec_record_seed};
use crate::take::take_check;

verus! {

/// The escrow address is a function of the stored fields alone: two
/// addresses both derived from the same (maker, nonce, salt) are the same
/// address, so a valid record pins its account down uniquely.
pub proof fn lemma_escrow_address_unique(
    maker: Seq<u8>,
    seed: u64,
    bump: u8,
    a1: Seq<u8>,
    a2: Seq<u8>,
)
    requires
        spec_escrow_address(maker, seed, bump) == Some(a1),
        spec_escrow_address(maker, seed, bump) == Some(a2),
    ensures
        a1 == a2,
{
}

/// Round-trip derivation at creation: a record written by a successful
/// Make re-derives, from its own stored maker, nonce and salt, exactly the
/// address of the account that holds it.
pub proof fn lemma_make_round_trip(
    data: Seq<u8>,
    accs: Seq<Account>,
    record_lamports: u64,
    vault_lamports: u64,
    m: Make,
)
    requires
        make_post(data, accs, record_lamports, vault_lamports, m),
    ensures
        spec_escrow_address(
            spec_record_maker(m.accounts.escrow.data@),
            spec_record_seed(m.accounts.escrow.data@),
            spec_record_bump(m.accounts.escrow.data@),
        ) == Some(m.accounts.escrow.address@),
{
}

/// Round-trip derivation at consumption: Take accepts only a record
/// account whose address re-derives from the supplied maker and the
/// record's stored nonce and salt.
pub proof fn lemma_take_round_trip(accs: Seq<Account>, ata_lamports: u64)
    requires
        take_check(accs, ata_lamports) is None,
    ensures
        spec_escrow_address(
            accs[1].address@,
            spec_record_seed(accs[2].data@),
            spec_record_bump(accs[2].data@),
        ) == Some(accs[2].address@),
{
}

/// Round-trip derivation at cancellation: Refund accepts only a record
/// account whose address re-derives from the signing maker and the
/// record's stored nonce and salt.
pub proof fn lemma_refund_round_trip(accs: Seq<Account>, ata_lamports: u64)
    requires
        refund_check(accs, ata_lamports) is None,
    ensures
        spec_escrow_address(
            accs[0].address@,
            spec_record_seed(accs[1].data@),
            spec_record_bump(accs[1].data@),
        ) == Some(accs[1].address@),
{
}

/// The two program identities involved in the program-owned check differ,
/// so an account released to the storage-allocation program never passes
/// as a record account again.
proof fn lemma_system_is_not_this_program()
    ensures
        spec_system_program_id() != spec_program_id(),
{
    assert(spec_program_id()[0] == 0x0fu8);
    assert(spec_system_program_id()[0] == 0u8);
}

/// Single use: a consumed escrow cannot be consumed again. Closing leaves
/// the record account vacant (closed_out implies is_vacant), and on a
/// vacant record account every further Take or Refund fails; with the
/// signature present the reported condition is exactly the ownership one.
pub proof fn lemma_single_use(accs_take: Seq<Account>, accs_refund: Seq<Account>, ata_lamports: u64)
    requires
        accs_take.len() == 12,
        is_vacant(accs_take[2]),
        accs_refund.len() == 8,
        is_vacant(accs_refund[1]),
    ensures
        take_check(accs_take, ata_lamports) is Some,
        refund_check(accs_refund, ata_lamports) is Some,
        accs_take[0].is_signer ==> take_check(accs_take, ata_lamports) == Some(
            EscrowError::InvalidAccountOwner,
        ),
        accs_refund[0].is_signer ==> refund_check(accs_refund, ata_lamports) == Some(
            EscrowError::InvalidAccountOwner,
        ),
{
    lemma_system_is_not_this_program();
}

/// Single use, composed with completion: the record account a successful
/// Take leaves behind can be handed to a later Take or Refund, and that
/// later instruction fails.
pub proof fn lemma_no_double_take(
    accs: Seq<Account>,
    ata_lamports: u64,
    t: crate::take::Take,
    accs_take: Seq<Account>,
    accs_refund: Seq<Account>,
    later_lamports: u64,
)
    requires
        crate::take::take_post(accs, ata_lamports, t),
        accs_take.len() == 12,
        accs_take[2] == t.accounts.escrow,
        accs_refund.len() == 8,
        accs_refund[1] == t.accounts.escrow,
    ensures
        take_check(accs_take, later_lamports) is Some,
        refund_check(accs_refund, later_lamports) is Some,
{
    lemma_single_use(accs_take, accs_refund, later_lamports);
}

/// Single use, composed with cancellation: the record account a successful
/// Refund leaves behind can be handed to a later Take or Refund, and that
/// later instruction fails.
pub proof fn lemma_no_take_after_refund(
    accs: Seq<Account>,
    ata_lamports: u64,
    t: crate::refund::Refund,
    accs_take: Seq<Account>,
    accs_refund: Seq<Account>,
    later_lamports: u64,
)
    requires
        crate::refund::refund_post(accs, ata_lamports, t),
        accs_take.len() == 12,
        accs_take[2] == t.accounts.escrow,
        accs_refund.len() == 8,
        accs_refund[1] == t.accounts.escrow,
    ensures
        take_check(accs_take, later_lamports) is Some,
        refund_check(accs_refund, later_lamports) is Some,
{
    lemma_single_use(accs_take, accs_refund, later_lamports);
}

/// Authorization: a Refund whose signer is not the record's stored maker
/// fails, never succeeds, whatever else holds of the accounts.
pub proof fn lemma_refund_authorization(accs: Seq<Account>, ata_lamports: u64)
    requires
        spec_record_maker(accs[1].data@) != accs[0].address@,
    ensures
        refund_check(accs, ata_lamports) is Some,
        refund_setup_check(accs, ata_lamports) is None ==> refund_check(accs, ata_lamports)
            == Some(EscrowError::InvalidAccountData),
{
}

} // verus!
