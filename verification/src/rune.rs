//! Rune identifiers, edicts and rune names, together with the transaction
//! shape that edict decoding reads.

use vstd::prelude::*;
use vstd::string::*;
use crate::text::{decimal, decimal_string, lemma_decimal_injective, lemma_decimal_no_colon};

verus! {

/// A rune's id: the height of its etching block and its index in that block.
#[derive(Clone, Copy, Debug, Default, PartialEq, Eq, Structural, Hash, PartialOrd, Ord)]
pub struct RuneId {
    pub block: u64,
    pub tx: u32,
}

/// A transaction output as edict decoding and address lookup see it.
#[derive(Clone, Debug, Default, PartialEq, Eq)]
pub struct TxOut {
    pub script_pubkey: Vec<u8>,
}

/// The parts of a bitcoin transaction that the state machine reads.
#[derive(Clone, Debug, Default, PartialEq, Eq)]
pub struct Transaction {
    pub output: Vec<TxOut>,
}

/// A transfer of `amount` units of rune `id` to output `output`.
#[derive(Clone, Copy, Debug, Default, PartialEq, Eq, Structural, Hash)]
pub struct Edict {
    pub id: RuneId,
    pub amount: u128,
    pub output: u32,
}

/// A rune name, as the integer of its base-26 letters.
#[derive(Clone, Copy, Debug, Default, PartialEq, Eq, Structural, Hash, PartialOrd, Ord)]
pub struct Rune(pub u128);

/// The id reached from `id` by the delta `(block, tx)`: a block delta of zero
/// moves the transaction index forward, any other block delta resets it.
/// `None` where a component does not fit its integer type, and where the
/// result would name a transaction other than the first in block zero,
/// which holds no runes.
pub open spec fn next_id(id: RuneId, block: u128, tx: u128) -> Option<RuneId> {
    if id.block + block > u64::MAX {
        None
    } else if block == 0 {
        if id.tx + tx > u32::MAX || (id.block == 0 && id.tx + tx > 0) {
            None
        } else {
            Some(RuneId { block: id.block, tx: (id.tx + tx) as u32 })
        }
    } else if tx > u32::MAX {
        None
    } else {
        Some(RuneId { block: (id.block + block) as u64, tx: tx as u32 })
    }
}

/// The text of an id: `block:tx` in decimal.
pub open spec fn id_text(id: RuneId) -> Seq<char> {
    decimal(id.block as nat) + seq![':'] + decimal(id.tx as nat)
}

/// Distinct ids have distinct texts, so contracts registered under their
/// ids' texts never share a key.
pub proof fn lemma_id_text_injective(a: RuneId, b: RuneId)
    requires
        id_text(a) == id_text(b),
    ensures
        a == b,
{
    let da = decimal(a.block as nat);
    let db = decimal(b.block as nat);
    let s = id_text(a);
    lemma_decimal_no_colon(a.block as nat);
    lemma_decimal_no_colon(b.block as nat);
    lemma_decimal_no_colon(a.tx as nat);
    lemma_decimal_no_colon(b.tx as nat);
    assert(s[da.len() as int] == ':');
    assert(id_text(b)[db.len() as int] == ':');
    if da.len() < db.len() {
        assert(id_text(b)[da.len() as int] == db[da.len() as int]);
    } else if db.len() < da.len() {
        assert(s[db.len() as int] == da[db.len() as int]);
    }
    assert(da.len() == db.len());
    assert(s.subrange(0, da.len() as int) =~= da);
    assert(id_text(b).subrange(0, db.len() as int) =~= db);
    lemma_decimal_injective(a.block as nat, b.block as nat);
    assert(s.skip(da.len() as int + 1) =~= decimal(a.tx as nat));
    assert(id_text(b).skip(db.len() as int + 1) =~= decimal(b.tx as nat));
    lemma_decimal_injective(a.tx as nat, b.tx as nat);
}

/// `a` comes no later than `b`: an earlier block, or the same block and
/// no later transaction.
pub open spec fn id_le(a: RuneId, b: RuneId) -> bool {
    a.block < b.block || (a.block == b.block && a.tx <= b.tx)
}

/// The id reached by a delta never comes before the id it starts from.
pub proof fn lemma_next_id_not_before(id: RuneId, block: u128, tx: u128)
    ensures
        next_id(id, block, tx) matches Some(n) ==> id_le(id, n),
{
}

/// The edict decoded from `(amount, output)` for a transaction with
/// `output_count` outputs; an output index equal to the count is accepted
/// (it stands for all outputs).
pub open spec fn edict_from(output_count: nat, id: RuneId, amount: u128, output: u128) -> Option<Edict> {
    if output > u32::MAX || output > output_count {
        None
    } else {
        Some(Edict { id, amount, output: output as u32 })
    }
}

/// The capital letter at position `i` of the alphabet.
pub open spec fn alphabet() -> Seq<char> {
    seq!['A', 'B', 'C', 'D', 'E', 'F', 'G', 'H', 'I', 'J', 'K', 'L', 'M',
         'N', 'O', 'P', 'Q', 'R', 'S', 'T', 'U', 'V', 'W', 'X', 'Y', 'Z']
}

/// The letters of `v` in bijective base 26 (`1` is `A`, `26` is `Z`, `27` is `AA`).
pub open spec fn bijective_letters(v: nat) -> Seq<char>
    decreases v,
{
    if v == 0 {
        seq![]
    } else {
        bijective_letters(((v - 1) as nat) / 26).push(alphabet()[(((v - 1) as nat) % 26) as int])
    }
}

/// The name of a rune: the bijective base-26 letters of its integer plus one.
pub open spec fn rune_name(r: Rune) -> Seq<char> {
    bijective_letters(r.0 as nat + 1)
}

/// Different positions of the alphabet hold different letters.
proof fn lemma_alphabet_injective(i: int, j: int)
    requires
        0 <= i < 26,
        0 <= j < 26,
        alphabet()[i] == alphabet()[j],
    ensures
        i == j,
{
}

/// Different numbers have different bijective base-26 letters.
proof fn lemma_bijective_letters_injective(a: nat, b: nat)
    requires
        bijective_letters(a) == bijective_letters(b),
    ensures
        a == b,
    decreases a,
{
    if a == 0 || b == 0 {
        assert(bijective_letters(a).len() == 0 && bijective_letters(b).len() == 0);
    } else {
        let la = bijective_letters(a);
        let lb = bijective_letters(b);
        assert(la.drop_last() =~= bijective_letters(((a - 1) as nat) / 26));
        assert(lb.drop_last() =~= bijective_letters(((b - 1) as nat) / 26));
        lemma_bijective_letters_injective(((a - 1) as nat) / 26, ((b - 1) as nat) / 26);
        assert(la.last() == lb.last());
        lemma_alphabet_injective((((a - 1) as nat) % 26) as int, (((b - 1) as nat) % 26) as int);
    }
}

/// Different runes have different names, so a pool of two different runes
/// has two different tickers.
pub proof fn lemma_rune_name_injective(r: Rune, s: Rune)
    requires
        rune_name(r) == rune_name(s),
    ensures
        r == s,
{
    lemma_bijective_letters_injective(r.0 as nat + 1, s.0 as nat + 1);
}

impl RuneId {
    /// Applies the delta `(block, tx)` to this id.
    pub fn next(self, block: u128, tx: u128) -> (res: Option<RuneId>)
        ensures
            res == next_id(self, block, tx),
    {
        if block > (u64::MAX - self.block) as u128 {
            return None;
        }
        let new_block: u64 = self.block + (block as u64);
        if block == 0 {
            if tx > (u32::MAX - self.tx) as u128 {
                None
            } else if new_block == 0 && (self.tx as u128) + tx > 0 {
                None
            } else {
                Some(RuneId { block: new_block, tx: self.tx + (tx as u32) })
            }
        } else if tx > u32::MAX as u128 {
            None
        } else {
            Some(RuneId { block: new_block, tx: tx as u32 })
        }
    }

    /// The id as text, `block:tx`; contracts are registered under this key.
    pub fn to_str(&self) -> (s: String)
        ensures
            s@ == id_text(*self),
    {
        let mut s = decimal_string(self.block as u128);
        proof { reveal_strlit(":"); }
        s.append(":");
        let t = decimal_string(self.tx as u128);
        s.append(t.as_str());
        s
    }
}

impl Edict {
    /// Decodes an edict for rune `id`; the output index must not exceed the
    /// number of outputs of `tx`.
    pub fn from_integers(tx: &Transaction, id: RuneId, amount: u128, output: u128) -> (res: Option<Edict>)
        requires
            tx.output.len() <= u32::MAX,
        ensures
            res == edict_from(tx.output@.len(), id, amount, output),
    {
        if output > u32::MAX as u128 {
            return None;
        }
        let output: u32 = output as u32;
        if output as usize > tx.output.len() {
            return None;
        }
        Some(Edict { id, amount, output })
    }
}

/// A one-letter string for letter `i` of the alphabet.
fn letter_str(i: u128) -> (s: &'static str)
    requires
        i < 26,
    ensures
        s@ == seq![alphabet()[i as int]],
{
    let letters = "ABCDEFGHIJKLMNOPQRSTUVWXYZ";
    proof {
        reveal_strlit("ABCDEFGHIJKLMNOPQRSTUVWXYZ");
        assert(letters@ == alphabet());
    }
    let k: usize = i as usize;
    let s = letters.substring_char(k, k + 1);
    assert(s@ =~= seq![alphabet()[i as int]]);
    s
}

/// The bijective base-26 letters of `v`.
fn letters_string(v: u128) -> (s: String)
    ensures
        s@ == bijective_letters(v as nat),
    decreases v,
{
    if v == 0 {
        String::new()
    } else {
        let mut s = letters_string((v - 1) / 26);
        s.append(letter_str((v - 1) % 26));
        s
    }
}

impl Rune {
    /// The rune's name in capital letters.
    pub fn name(&self) -> (s: String)
        ensures
            s@ == rune_name(*self),
    {
        if self.0 == u128::MAX {
            let mut s = String::new();
            proof {
                reveal_strlit("BCGDENLQRQWDSLRUGSNLBTMFIJAV");
                lemma_max_rune_name();
            }
            s.append("BCGDENLQRQWDSLRUGSNLBTMFIJAV");
            s
        } else {
            letters_string(self.0 + 1)
        }
    }
}

/// The name of the largest rune, which its integer plus one no longer fits.
proof fn lemma_max_rune_name()
    ensures
        rune_name(Rune(u128::MAX)) == seq!['B', 'C', 'G', 'D', 'E', 'N', 'L', 'Q', 'R', 'Q', 'W',
            'D', 'S', 'L', 'R', 'U', 'G', 'S', 'N', 'L', 'B', 'T', 'M', 'F', 'I', 'J', 'A', 'V'],
{
    assert(bijective_letters(2nat) =~= bijective_letters(0nat).push('B'));
    assert(bijective_letters(55nat) =~= bijective_letters(2nat).push('C'));
    assert(bijective_letters(1437nat) =~= bijective_letters(55nat).push('G'));
    assert(bijective_letters(37366nat) =~= bijective_letters(1437nat).push('D'));
    assert(bijective_letters(971521nat) =~= bijective_letters(37366nat).push('E'));
    assert(bijective_letters(25259560nat) =~= bijective_letters(971521nat).push('N'));
    assert(bijective_letters(656748572nat) =~= bijective_letters(25259560nat).push('L'));
    assert(bijective_letters(17075462889nat) =~= bijective_letters(656748572nat).push('Q'));
    assert(bijective_letters(443962035132nat) =~= bijective_letters(17075462889nat).push('R'));
    assert(bijective_letters(11543012913449nat) =~= bijective_letters(443962035132nat).push('Q'));
    assert(bijective_letters(300118335749697nat) =~= bijective_letters(11543012913449nat).push('W'));
    assert(bijective_letters(7803076729492126nat) =~= bijective_letters(300118335749697nat).push('D'));
    assert(bijective_letters(202879994966795295nat) =~= bijective_letters(7803076729492126nat).push('S'));
    assert(bijective_letters(5274879869136677682nat) =~= bijective_letters(202879994966795295nat).push('L'));
    assert(bijective_letters(137146876597553619750nat) =~= bijective_letters(5274879869136677682nat).push('R'));
    assert(bijective_letters(3565818791536394113521nat) =~= bijective_letters(137146876597553619750nat).push('U'));
    assert(bijective_letters(92711288579946246951553nat) =~= bijective_letters(3565818791536394113521nat).push('G'));
    assert(bijective_letters(2410493503078602420740397nat) =~= bijective_letters(92711288579946246951553nat).push('S'));
    assert(bijective_letters(62672831080043662939250336nat) =~= bijective_letters(2410493503078602420740397nat).push('N'));
    assert(bijective_letters(1629493608081135236420508748nat) =~= bijective_letters(62672831080043662939250336nat).push('L'));
    assert(bijective_letters(42366833810109516146933227450nat) =~= bijective_letters(1629493608081135236420508748nat).push('B'));
    assert(bijective_letters(1101537679062847419820263913720nat) =~= bijective_letters(42366833810109516146933227450nat).push('T'));
    assert(bijective_letters(28639979655634032915326861756733nat) =~= bijective_letters(1101537679062847419820263913720nat).push('M'));
    assert(bijective_letters(744639471046484855798498405675064nat) =~= bijective_letters(28639979655634032915326861756733nat).push('F'));
    assert(bijective_letters(19360626247208606250760958547551673nat) =~= bijective_letters(744639471046484855798498405675064nat).push('I'));
    assert(bijective_letters(503376282427423762519784922236343508nat) =~= bijective_letters(19360626247208606250760958547551673nat).push('J'));
    assert(bijective_letters(13087783343113017825514407978144931209nat) =~= bijective_letters(503376282427423762519784922236343508nat).push('A'));
    assert(bijective_letters(340282366920938463463374607431768211456nat) =~= bijective_letters(13087783343113017825514407978144931209nat).push('V'));
}

} // verus!
