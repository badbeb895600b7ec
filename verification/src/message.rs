//! Decoding of a runestone's integer payload into edicts, the body edicts of
//! the mint and burn extensions, and tagged fields.

use std::collections::HashMap;
use std::collections::VecDeque;
use vstd::prelude::*;
use crate::rune::{edict_from, id_le, next_id, Edict, RuneId, Transaction};

verus! {

broadcast use vstd::std_specs::hash::group_hash_axioms;

/// The tags that open a body: every integer after such a tag belongs to the
/// body, read as edicts in groups of four.
#[derive(Clone, Copy, Debug, PartialEq, Eq, Structural)]
pub enum Tag {
    Body,
    Mint20Body,
    Mint21Body,
    Mint30Body,
    Mint31Body,
    Burn2Body,
    Burn3Body,
}

/// Why a payload was not decoded in full.
#[derive(Clone, Copy, Debug, PartialEq, Eq, Structural)]
pub enum Flaw {
    /// An edict names an output past the transaction's outputs.
    EdictOutput,
    /// An edict's rune id delta overflows.
    EdictRuneId,
    /// A body ends with fewer than four integers.
    TrailingIntegers,
    /// A field tag has no value after it.
    TruncatedField,
}

/// The integer that stands for a body tag in a payload.
pub open spec fn tag_code(tag: Tag) -> u128 {
    match tag {
        Tag::Body => 0,
        Tag::Mint20Body => 40,
        Tag::Mint21Body => 42,
        Tag::Mint30Body => 44,
        Tag::Mint31Body => 46,
        Tag::Burn2Body => 48,
        Tag::Burn3Body => 50,
    }
}

/// The body tag that `code` stands for, if any.
pub open spec fn body_tag(code: u128) -> Option<Tag> {
    if code == 0 {
        Some(Tag::Body)
    } else if code == 40 {
        Some(Tag::Mint20Body)
    } else if code == 42 {
        Some(Tag::Mint21Body)
    } else if code == 44 {
        Some(Tag::Mint30Body)
    } else if code == 46 {
        Some(Tag::Mint31Body)
    } else if code == 48 {
        Some(Tag::Burn2Body)
    } else if code == 50 {
        Some(Tag::Burn3Body)
    } else {
        None
    }
}

/// The id every body's first rune id delta is taken from.
pub open spec fn zero_id() -> RuneId {
    RuneId { block: 0, tx: 0 }
}

/// The edicts of a body read in groups of four (block delta, tx delta,
/// amount, output), each id a delta from the previous one, starting at `id`;
/// with the flaw that stopped the reading, if any.
pub open spec fn decode_body(output_count: nat, body: Seq<u128>, id: RuneId) -> (Seq<Edict>, Option<Flaw>)
    decreases body.len(),
{
    if body.len() == 0 {
        (seq![], None)
    } else if body.len() < 4 {
        (seq![], Some(Flaw::TrailingIntegers))
    } else {
        match next_id(id, body[0], body[1]) {
            None => (seq![], Some(Flaw::EdictRuneId)),
            Some(next) => match edict_from(output_count, next, body[2], body[3]) {
                None => (seq![], Some(Flaw::EdictOutput)),
                Some(e) => {
                    let rest = decode_body(output_count, body.skip(4), next);
                    (seq![e] + rest.0, rest.1)
                },
            },
        }
    }
}

/// The edicts of a body come in id order, none before the id it starts from.
pub proof fn lemma_body_ids_sorted(output_count: nat, body: Seq<Edict>, payload: Seq<u128>, id: RuneId)
    requires
        body == decode_body(output_count, payload, id).0,
    ensures
        forall|i: int| 0 <= i < body.len() ==> id_le(id, #[trigger] body[i].id),
        forall|i: int, j: int| 0 <= i <= j < body.len() ==> id_le(#[trigger] body[i].id, #[trigger] body[j].id),
    decreases payload.len(),
{
    if payload.len() >= 4 {
        match next_id(id, payload[0], payload[1]) {
            Some(next) => match edict_from(output_count, next, payload[2], payload[3]) {
                Some(e) => {
                    let rest = decode_body(output_count, payload.skip(4), next).0;
                    lemma_body_ids_sorted(output_count, rest, payload.skip(4), next);
                    assert(body =~= seq![e] + rest);
                    assert forall|i: int, j: int| 0 <= i <= j < body.len() implies id_le(
                        #[trigger] body[i].id,
                        #[trigger] body[j].id,
                    ) by {
                        if i > 0 {
                            assert(body[i] == rest[i - 1] && body[j] == rest[j - 1]);
                        } else if j > 0 {
                            assert(body[j] == rest[j - 1]);
                        }
                    }
                    assert forall|i: int| 0 <= i < body.len() implies id_le(id, #[trigger] body[i].id) by {
                        if i > 0 {
                            assert(body[i] == rest[i - 1]);
                        }
                    }
                },
                None => {},
            },
            None => {},
        }
    }
}

/// A body that decodes without flaw is made of whole groups of four, and
/// gives exactly one edict per group, in order: each edict's amount and output
/// are its group's third and fourth integers, whatever their value, and its id
/// is the previous edict's id (the start id for the first) moved by the
/// group's two deltas.
pub proof fn lemma_body_whole_groups(output_count: nat, body: Seq<u128>, id: RuneId)
    requires
        decode_body(output_count, body, id).1 is None,
    ensures
        body.len() % 4 == 0,
        decode_body(output_count, body, id).0.len() == body.len() / 4,
        forall|k: int| 0 <= k < body.len() / 4 ==> {
            &&& (#[trigger] decode_body(output_count, body, id).0[k]).amount == body[4 * k + 2]
            &&& decode_body(output_count, body, id).0[k].output == body[4 * k + 3]
        },
        body.len() > 0 ==> next_id(id, body[0], body[1]) == Some(decode_body(output_count, body, id).0[0].id),
        forall|k: int| 0 < k < body.len() / 4 ==> next_id(
            decode_body(output_count, body, id).0[k - 1].id,
            body[4 * k],
            body[4 * k + 1],
        ) == Some((#[trigger] decode_body(output_count, body, id).0[k]).id),
    decreases body.len(),
{
    if body.len() > 0 {
        let next = next_id(id, body[0], body[1]).unwrap();
        let e = edict_from(output_count, next, body[2], body[3]).unwrap();
        let tail = body.skip(4);
        lemma_body_whole_groups(output_count, tail, next);
        let es = decode_body(output_count, body, id).0;
        let rest = decode_body(output_count, tail, next).0;
        assert(es == seq![e] + rest);
        assert forall|k: int| 0 <= k < body.len() / 4 implies {
            &&& (#[trigger] es[k]).amount == body[4 * k + 2]
            &&& es[k].output == body[4 * k + 3]
        } by {
            if k > 0 {
                assert(es[k] == rest[k - 1]);
                assert(tail[4 * (k - 1) + 2] == body[4 * k + 2]);
                assert(tail[4 * (k - 1) + 3] == body[4 * k + 3]);
            }
        }
        assert forall|k: int| 0 < k < body.len() / 4 implies next_id(
            es[k - 1].id,
            body[4 * k],
            body[4 * k + 1],
        ) == Some((#[trigger] es[k]).id) by {
            assert(es[k] == rest[k - 1]);
            assert(tail[4 * (k - 1)] == body[4 * k]);
            assert(tail[4 * (k - 1) + 1] == body[4 * k + 1]);
            if k > 1 {
                assert(es[k - 1] == rest[k - 2]);
            } else {
                assert(tail[0] == body[4] && tail[1] == body[5]);
            }
        }
    }
}

/// The even position, at or after `i`, where reading fields stops: the end of
/// the payload, a body tag, or a tag with no value after it.
pub open spec fn scan_end(payload: Seq<u128>, i: nat) -> nat
    decreases payload.len() - i,
{
    if i >= payload.len() || body_tag(payload[i as int]) is Some || i + 1 >= payload.len() {
        i
    } else {
        scan_end(payload, i + 2)
    }
}

/// `fields` with `value` appended to the values of `tag`.
pub open spec fn add_field(fields: Map<u128, Seq<u128>>, tag: u128, value: u128) -> Map<u128, Seq<u128>> {
    if fields.contains_key(tag) {
        fields.insert(tag, fields[tag].push(value))
    } else {
        fields.insert(tag, seq![value])
    }
}

/// The fields of the (tag, value) pairs before position `i`.
pub open spec fn fields_upto(payload: Seq<u128>, i: nat) -> Map<u128, Seq<u128>>
    decreases i,
{
    if i < 2 {
        Map::empty()
    } else {
        add_field(fields_upto(payload, (i - 2) as nat), payload[i - 2], payload[i - 1])
    }
}

/// The fields of a payload: each tag with its values in payload order.
pub open spec fn message_fields(payload: Seq<u128>) -> Map<u128, Seq<u128>> {
    fields_upto(payload, scan_end(payload, 0))
}

/// The edicts of a payload's body of kind `kind`; empty where the payload
/// has no body or a body of another kind.
pub open spec fn message_edicts(output_count: nat, payload: Seq<u128>, kind: Tag) -> Seq<Edict> {
    let end = scan_end(payload, 0);
    if end < payload.len() && body_tag(payload[end as int]) == Some(kind) {
        decode_body(output_count, payload.skip((end + 1) as int), zero_id()).0
    } else {
        seq![]
    }
}

/// The flaw of a payload: that of its body, or a truncated field.
pub open spec fn message_flaw(output_count: nat, payload: Seq<u128>) -> Option<Flaw> {
    let end = scan_end(payload, 0);
    if end >= payload.len() {
        None
    } else if body_tag(payload[end as int]) is Some {
        decode_body(output_count, payload.skip((end + 1) as int), zero_id()).1
    } else {
        Some(Flaw::TruncatedField)
    }
}

/// The edicts a payload holds for any body kind come in id order.
pub proof fn lemma_message_edicts_sorted(output_count: nat, payload: Seq<u128>, kind: Tag)
    ensures
        forall|i: int, j: int| 0 <= i <= j < message_edicts(output_count, payload, kind).len() ==> id_le(
            #[trigger] message_edicts(output_count, payload, kind)[i].id,
            #[trigger] message_edicts(output_count, payload, kind)[j].id,
        ),
{
    let end = scan_end(payload, 0);
    if end < payload.len() && body_tag(payload[end as int]) == Some(kind) {
        let body = decode_body(output_count, payload.skip((end + 1) as int), zero_id()).0;
        lemma_body_ids_sorted(output_count, body, payload.skip((end + 1) as int), zero_id());
    }
}

/// A payload that decodes without flaw and has a body of kind `kind` after
/// its fields gives one edict of that kind per group of four integers after
/// the tag, each with its group's amount and output.
pub proof fn lemma_message_body_whole_groups(output_count: nat, payload: Seq<u128>, kind: Tag)
    requires
        message_flaw(output_count, payload) is None,
        scan_end(payload, 0) < payload.len(),
        body_tag(payload[scan_end(payload, 0) as int]) == Some(kind),
    ensures
        ({
            let start = scan_end(payload, 0) + 1;
            let es = message_edicts(output_count, payload, kind);
            &&& (payload.len() - start) % 4 == 0
            &&& es.len() == (payload.len() - start) / 4
            &&& forall|k: int| 0 <= k < es.len() ==> {
                &&& (#[trigger] es[k]).amount == payload[start + 4 * k + 2]
                &&& es[k].output == payload[start + 4 * k + 3]
            }
        }),
{
    let start = scan_end(payload, 0) + 1;
    let body = payload.skip(start as int);
    lemma_body_whole_groups(output_count, body, zero_id());
    let es = message_edicts(output_count, payload, kind);
    assert forall|k: int| 0 <= k < es.len() implies {
        &&& (#[trigger] es[k]).amount == payload[start + 4 * k + 2]
        &&& es[k].output == payload[start + 4 * k + 3]
    } by {
        assert(body[4 * k + 2] == payload[start + 4 * k + 2]);
        assert(body[4 * k + 3] == payload[start + 4 * k + 3]);
    }
}

/// A payload of whole (tag, value) pairs with no body tag decodes without
/// flaw and without edicts, every value kept under its tag.
pub proof fn lemma_fields_only_payload(output_count: nat, payload: Seq<u128>, kind: Tag)
    requires
        payload.len() % 2 == 0,
        forall|i: int| 0 <= i < payload.len() && i % 2 == 0 ==> body_tag(#[trigger] payload[i]) is None,
    ensures
        message_flaw(output_count, payload) is None,
        message_edicts(output_count, payload, kind) == Seq::<Edict>::empty(),
        message_fields(payload) == fields_upto(payload, payload.len()),
{
    lemma_scan_reaches_end(payload, 0);
}

/// Scanning a payload of whole pairs with no body tag reaches its end.
proof fn lemma_scan_reaches_end(payload: Seq<u128>, i: nat)
    requires
        payload.len() % 2 == 0,
        i % 2 == 0,
        i <= payload.len(),
        forall|k: int| 0 <= k < payload.len() && k % 2 == 0 ==> body_tag(#[trigger] payload[k]) is None,
    ensures
        scan_end(payload, i) == payload.len(),
    decreases payload.len() - i,
{
    if i < payload.len() {
        assert(body_tag(payload[i as int]) is None);
        lemma_scan_reaches_end(payload, i + 2);
    }
}

/// The contents of a field map as sequences.
pub open spec fn fields_view(fields: Map<u128, VecDeque<u128>>) -> Map<u128, Seq<u128>> {
    fields.map_values(|q: VecDeque<u128>| q@)
}

/// A decoded runestone payload.
pub struct Message {
    pub flaw: Option<Flaw>,
    pub edicts: Vec<Edict>,
    pub mint20_edicts: Option<Vec<Edict>>,
    pub mint21_edicts: Option<Vec<Edict>>,
    pub mint30_edicts: Option<Vec<Edict>>,
    pub mint31_edicts: Option<Vec<Edict>>,
    pub burn2_edicts: Option<Vec<Edict>>,
    pub burn3_edicts: Option<Vec<Edict>>,
    pub fields: HashMap<u128, VecDeque<u128>>,
}

/// Holds where `edicts` is present and holds `expected`.
pub open spec fn holds_edicts(edicts: Option<Vec<Edict>>, expected: Seq<Edict>) -> bool {
    edicts matches Some(v) && v@ == expected
}

impl Tag {
    /// The integer that stands for this tag.
    pub fn code(self) -> (c: u128)
        ensures
            c == tag_code(self),
    {
        match self {
            Tag::Body => 0,
            Tag::Mint20Body => 40,
            Tag::Mint21Body => 42,
            Tag::Mint30Body => 44,
            Tag::Mint31Body => 46,
            Tag::Burn2Body => 48,
            Tag::Burn3Body => 50,
        }
    }

    /// The body tag that `code` stands for, if any.
    pub fn from_code(code: u128) -> (t: Option<Tag>)
        ensures
            t == body_tag(code),
    {
        if code == 0 {
            Some(Tag::Body)
        } else if code == 40 {
            Some(Tag::Mint20Body)
        } else if code == 42 {
            Some(Tag::Mint21Body)
        } else if code == 44 {
            Some(Tag::Mint30Body)
        } else if code == 46 {
            Some(Tag::Mint31Body)
        } else if code == 48 {
            Some(Tag::Burn2Body)
        } else if code == 50 {
            Some(Tag::Burn3Body)
        } else {
            None
        }
    }
}

/// Reads the body that starts at `start` into edicts.
fn decode_body_at(tx: &Transaction, payload: &[u128], start: usize) -> (res: (Vec<Edict>, Option<Flaw>))
    requires
        start <= payload@.len(),
        tx.output.len() <= u32::MAX,
    ensures
        res.0@ == decode_body(tx.output@.len(), payload@.skip(start as int), zero_id()).0,
        res.1 == decode_body(tx.output@.len(), payload@.skip(start as int), zero_id()).1,
{
    let ghost oc = tx.output@.len();
    let mut edicts: Vec<Edict> = Vec::new();
    let mut id = RuneId { block: 0, tx: 0 };
    let mut j: usize = start;
    assert(payload@.skip(start as int).skip(0) =~= payload@.skip(start as int));
    loop
        invariant
            start <= j <= payload@.len(),
            tx.output.len() <= u32::MAX,
            oc == tx.output@.len(),
            decode_body(oc, payload@.skip(start as int), zero_id()).0
                =~= edicts@ + decode_body(oc, payload@.skip(j as int), id).0,
            decode_body(oc, payload@.skip(start as int), zero_id()).1
                == decode_body(oc, payload@.skip(j as int), id).1,
        decreases payload@.len() - j,
    {
        let ghost body = payload@.skip(j as int);
        if j == payload.len() {
            assert(body.len() == 0);
            return (edicts, None);
        }
        if payload.len() - j < 4 {
            return (edicts, Some(Flaw::TrailingIntegers));
        }
        assert(body[0] == payload[j as int] && body[1] == payload[j + 1]);
        assert(body[2] == payload[j + 2] && body[3] == payload[j + 3]);
        match id.next(payload[j], payload[j + 1]) {
            None => {
                return (edicts, Some(Flaw::EdictRuneId));
            },
            Some(next) => {
                match Edict::from_integers(tx, next, payload[j + 2], payload[j + 3]) {
                    None => {
                        return (edicts, Some(Flaw::EdictOutput));
                    },
                    Some(e) => {
                        assert(body.skip(4) =~= payload@.skip(j + 4));
                        let ghost before = edicts@;
                        edicts.push(e);
                        assert(edicts@ + decode_body(oc, body.skip(4), next).0 =~= before + (seq![e]
                            + decode_body(oc, body.skip(4), next).0));
                        id = next;
                        j = j + 4;
                    },
                }
            },
        }
    }
}

impl Message {
    /// Decodes a payload of integers read from a runestone of `tx`.
    ///
    /// Pairs of (tag, value) are collected as fields until a body tag, whose
    /// remaining integers are edicts; a tag without a value, a body with
    /// trailing integers, an id delta that overflows or an edict output past
    /// the transaction's outputs is recorded as the message's flaw.
    pub fn from_integers(tx: &Transaction, payload: &[u128]) -> (msg: Self)
        requires
            tx.output.len() <= u32::MAX,
        ensures
            msg.flaw == message_flaw(tx.output@.len(), payload@),
            msg.edicts@ == message_edicts(tx.output@.len(), payload@, Tag::Body),
            holds_edicts(msg.mint20_edicts, message_edicts(tx.output@.len(), payload@, Tag::Mint20Body)),
            holds_edicts(msg.mint21_edicts, message_edicts(tx.output@.len(), payload@, Tag::Mint21Body)),
            holds_edicts(msg.mint30_edicts, message_edicts(tx.output@.len(), payload@, Tag::Mint30Body)),
            holds_edicts(msg.mint31_edicts, message_edicts(tx.output@.len(), payload@, Tag::Mint31Body)),
            holds_edicts(msg.burn2_edicts, message_edicts(tx.output@.len(), payload@, Tag::Burn2Body)),
            holds_edicts(msg.burn3_edicts, message_edicts(tx.output@.len(), payload@, Tag::Burn3Body)),
            fields_view(msg.fields@) == message_fields(payload@),
    {
        let mut fields: HashMap<u128, VecDeque<u128>> = HashMap::new();
        let mut i: usize = 0;
        assert(fields_view(fields@) =~= fields_upto(payload@, 0));
        while i < payload.len() && Tag::from_code(payload[i]).is_none() && i + 1 < payload.len()
            invariant
                i % 2 == 0,
                i <= payload@.len(),
                scan_end(payload@, 0) == scan_end(payload@, i as nat),
                fields_view(fields@) == fields_upto(payload@, i as nat),
            decreases payload@.len() - i,
        {
            let tag = payload[i];
            let value = payload[i + 1];
            let ghost before = fields_view(fields@);
            let mut values = match fields.remove(&tag) {
                Some(q) => q,
                None => VecDeque::new(),
            };
            values.push_back(value);
            fields.insert(tag, values);
            assert(fields_upto(payload@, (i + 2) as nat) == add_field(before, tag, value));
            assert(fields_view(fields@) =~= add_field(before, tag, value));
            i = i + 2;
        }
        let ghost end = scan_end(payload@, 0);
        assert(end == i);
        let mut edicts: Vec<Edict> = Vec::new();
        let mut mint20_edicts: Vec<Edict> = Vec::new();
        let mut mint21_edicts: Vec<Edict> = Vec::new();
        let mut mint30_edicts: Vec<Edict> = Vec::new();
        let mut mint31_edicts: Vec<Edict> = Vec::new();
        let mut burn2_edicts: Vec<Edict> = Vec::new();
        let mut burn3_edicts: Vec<Edict> = Vec::new();
        let mut flaw: Option<Flaw> = None;
        if i < payload.len() {
            match Tag::from_code(payload[i]) {
                Some(kind) => {
                    let (body, body_flaw) = decode_body_at(tx, payload, i + 1);
                    flaw = body_flaw;
                    match kind {
                        Tag::Body => { edicts = body; },
                        Tag::Mint20Body => { mint20_edicts = body; },
                        Tag::Mint21Body => { mint21_edicts = body; },
                        Tag::Mint30Body => { mint30_edicts = body; },
                        Tag::Mint31Body => { mint31_edicts = body; },
                        Tag::Burn2Body => { burn2_edicts = body; },
                        Tag::Burn3Body => { burn3_edicts = body; },
                    }
                },
                None => {
                    flaw = Some(Flaw::TruncatedField);
                },
            }
        }
        Message {
            flaw,
            edicts,
            mint20_edicts: Some(mint20_edicts),
            mint21_edicts: Some(mint21_edicts),
            mint30_edicts: Some(mint30_edicts),
            mint31_edicts: Some(mint31_edicts),
            burn2_edicts: Some(burn2_edicts),
            burn3_edicts: Some(burn3_edicts),
            fields,
        }
    }
}

} // verus!
