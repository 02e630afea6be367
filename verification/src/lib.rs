//! A trustless two-party asset-swap escrow engine.
//!
//! A maker locks an amount of one asset and names the amount of another
//! asset that completes the trade; a taker may complete it atomically, or
//! the maker may cancel and reclaim the locked asset. This crate holds the
//! engine: the binary record codec, the account validation layer, the
//! deterministic-address derivation and signing-authority capability, the
//! instruction decoders, the three handlers and the entry dispatcher, all
//! operating on a model of the host ledger's accounts. The surrounding
//! runtime converts live accounts into the model, runs the engine, and
//! carries out the decided actions.

use vstd::prelude::*;
use vstd::slice::slice_subrange;

pub mod account;
pub mod actions;
pub mod addr;
pub mod amm;
pub mod checks;
pub mod errors;
pub mod laws;
pub mod ledger;
pub mod make;
pub mod pda;
pub mod refund;
pub mod state;
pub mod take;
pub mod vault;

use account::Account;
use errors::EscrowError;
use make::{make_check, make_post, Make};
use refund::{refund_check, refund_post, Refund};
use take::{take_check, take_post, Take};

verus! {

/// The outcome of a routed instruction: the handler that ran, with its
/// final account model and the externally performed steps it decided on.
pub enum Processed {
    Made(Make),
    Taken(Take),
    Refunded(Refund),
}

/// Route an incoming instruction by its one-byte discriminator and delegate
/// entirely to the matching handler. An empty payload or an unknown
/// discriminator is rejected; the handlers receive the rest of the payload
/// unchanged. `record_lamports` and `ata_lamports` are the storage deposits
/// the surrounding runtime quotes for a record account and a holding
/// account.
pub fn process_instruction(
    data: &[u8],
    accounts: Vec<Account>,
    record_lamports: u64,
    ata_lamports: u64,
) -> (r: Result<Processed, EscrowError>)
    ensures
        (data@.len() == 0 || (data@[0] != 0 && data@[0] != 1 && data@[0] != 2)) ==> r
            == Result::<Processed, EscrowError>::Err(EscrowError::InvalidInstructionData),
        data@.len() >= 1 && data@[0] == 0 ==> match r {
            Ok(p) => match p {
                Processed::Made(m) => make_check(
                    data@.skip(1),
                    accounts@,
                    record_lamports,
                    ata_lamports,
                ) is None && make_post(
                    data@.skip(1),
                    accounts@,
                    record_lamports,
                    ata_lamports,
                    m,
                ),
                _ => false,
            },
            Err(e) => make_check(data@.skip(1), accounts@, record_lamports, ata_lamports)
                == Some(e),
        },
        data@.len() >= 1 && data@[0] == 1 ==> match r {
            Ok(p) => match p {
                Processed::Taken(t) => take_check(accounts@, ata_lamports) is None && take_post(
                    accounts@,
                    ata_lamports,
                    t,
                ),
                _ => false,
            },
            Err(e) => take_check(accounts@, ata_lamports) == Some(e),
        },
        data@.len() >= 1 && data@[0] == 2 ==> match r {
            Ok(p) => match p {
                Processed::Refunded(t) => refund_check(accounts@, ata_lamports) is None
                    && refund_post(accounts@, ata_lamports, t),
                _ => false,
            },
            Err(e) => refund_check(accounts@, ata_lamports) == Some(e),
        },
{
    if data.len() == 0 {
        return Err(EscrowError::InvalidInstructionData);
    }
    let disc = data[0];
    let rest = slice_subrange(data, 1, data.len());
    proof {
        assert(rest@ =~= data@.skip(1));
    }
    if disc == 0 {
        match Make::run(rest, accounts, record_lamports, ata_lamports) {
            Ok(m) => Ok(Processed::Made(m)),
            Err(e) => Err(e),
        }
    } else if disc == 1 {
        match Take::run(accounts, ata_lamports) {
            Ok(t) => Ok(Processed::Taken(t)),
            Err(e) => Err(e),
        }
    } else if disc == 2 {
        match Refund::run(accounts, ata_lamports) {
            Ok(t) => Ok(Processed::Refunded(t)),
            Err(e) => Err(e),
        }
    } else {
        Err(EscrowError::InvalidInstructionData)
    }
}

} // verus!
