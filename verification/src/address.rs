//! Addresses of transaction outputs, read from their scripts on the main
//! bitcoin network.

use vstd::prelude::*;
use crate::burn::{Burn2, Burn3};
use crate::mint::{Mint2, Mint3};
use crate::rune::{Edict, Transaction};

verus! {

/// The mainnet address, as text, that `bitcoin` reads from an output script;
/// `None` for a script that is not a standard payment script.
pub uninterp spec fn script_address(script: Seq<u8>) -> Option<Seq<char>>;

/// Reads the mainnet address of an output script with the `bitcoin` crate
/// (`Address::from_script` on `Network::Bitcoin`, rendered by its `Display`).
/// The contract names the result: it depends on the script alone, and a
/// script shorter than four bytes is none of the standard payment scripts.
#[verifier::external_body]
fn address_from_script(script: &Vec<u8>) -> (res: Option<String>)
    ensures
        match res {
            Some(a) => script_address(script@) == Some(a@),
            None => script_address(script@) is None,
        },
        script@.len() < 4 ==> res is None,
{
    let script = bitcoin::Script::from_bytes(script.as_slice());
    match bitcoin::Address::from_script(script, bitcoin::Network::Bitcoin) {
        Ok(address) => Some(address.to_string()),
        Err(_) => None,
    }
}

/// The address of output `output` of a transaction.
pub open spec fn output_address(tx: Transaction, output: u32) -> Option<Seq<char>> {
    script_address(tx.output@[output as int].script_pubkey@)
}

/// Holds where `res` is the address `expected`.
pub open spec fn is_address(res: Option<String>, expected: Option<Seq<char>>) -> bool {
    match res {
        Some(a) => expected == Some(a@),
        None => expected is None,
    }
}

/// The address of the output that an edict pays to.
pub fn extract_edict_address(edict: &Edict, transaction: &Transaction) -> (res: Option<String>)
    requires
        (edict.output as int) < transaction.output@.len(),
    ensures
        is_address(res, output_address(*transaction, edict.output)),
{
    address_from_script(&transaction.output[edict.output as usize].script_pubkey)
}

/// The address of the output that a mint2's first edict pays to; none
/// where the mint has no edicts.
pub fn extract_mint2_address(mint2: &Mint2, transaction: &Transaction) -> (res: Option<String>)
    requires
        mint2.edicts matches Some(e) ==> e@.len() > 0 && (e@[0].output as int) < transaction.output@.len(),
    ensures
        match mint2.edicts {
            Some(e) => is_address(res, output_address(*transaction, e@[0].output)),
            None => res is None,
        },
{
    match &mint2.edicts {
        Some(edicts) => extract_edict_address(&edicts[0], transaction),
        None => None,
    }
}

/// The address of the output that a mint3's first edict pays to; none
/// where the mint has no edicts.
pub fn extract_mint3_address(mint3: &Mint3, transaction: &Transaction) -> (res: Option<String>)
    requires
        mint3.edicts matches Some(e) ==> e@.len() > 0 && (e@[0].output as int) < transaction.output@.len(),
    ensures
        match mint3.edicts {
            Some(e) => is_address(res, output_address(*transaction, e@[0].output)),
            None => res is None,
        },
{
    match &mint3.edicts {
        Some(edicts) => extract_edict_address(&edicts[0], transaction),
        None => None,
    }
}

/// The address of the output that a burn2's first edict pays to.
pub fn extract_burn2_address(burn2: &Burn2, transaction: &Transaction) -> (res: Option<String>)
    requires
        burn2.edicts@.len() > 0,
        (burn2.edicts@[0].output as int) < transaction.output@.len(),
    ensures
        is_address(res, output_address(*transaction, burn2.edicts@[0].output)),
{
    extract_edict_address(&burn2.edicts[0], transaction)
}

/// The address of the output that a burn3's first edict pays to.
pub fn extract_burn3_address(burn3: &Burn3, transaction: &Transaction) -> (res: Option<String>)
    requires
        burn3.edicts@.len() > 0,
        (burn3.edicts@[0].output as int) < transaction.output@.len(),
    ensures
        is_address(res, output_address(*transaction, burn3.edicts@[0].output)),
{
    extract_edict_address(&burn3.edicts[0], transaction)
}

} // verus!
