use std::collections::VecDeque;
use rsm::message::{Flaw, Message, Tag};
use rsm::rune::{Edict, RuneId, Transaction, TxOut};

fn message_tx(n: usize) -> Transaction {
    Transaction { output: (0..n).map(|_| TxOut { script_pubkey: vec![0x51] }).collect() }
}

fn values(m: &Message, tag: u128) -> Vec<u128> {
    m.fields.get(&tag).map(|q: &VecDeque<u128>| q.iter().copied().collect()).unwrap_or_default()
}

fn no_body_edicts(m: &Message) {
    assert_eq!(m.mint20_edicts, Some(vec![]));
    assert_eq!(m.mint21_edicts, Some(vec![]));
    assert_eq!(m.mint30_edicts, Some(vec![]));
    assert_eq!(m.mint31_edicts, Some(vec![]));
    assert_eq!(m.burn2_edicts, Some(vec![]));
    assert_eq!(m.burn3_edicts, Some(vec![]));
}

#[test]
fn empty_payload() {
    let m = Message::from_integers(&message_tx(1), &[]);
    assert_eq!(m.flaw, None);
    assert!(m.edicts.is_empty());
    assert!(m.fields.is_empty());
    no_body_edicts(&m);
}

#[test]
fn fields_keep_payload_order() {
    let m = Message::from_integers(&message_tx(1), &[2, 10, 4, 11, 2, 12]);
    assert_eq!(m.flaw, None);
    assert_eq!(values(&m, 2), vec![10, 12]);
    assert_eq!(values(&m, 4), vec![11]);
    assert_eq!(m.fields.len(), 2);
    assert!(m.edicts.is_empty());
    no_body_edicts(&m);
}

#[test]
fn body_edicts_use_id_deltas() {
    let m = Message::from_integers(&message_tx(2), &[2, 10, 0, 1, 2, 100, 1, 0, 3, 50, 0]);
    assert_eq!(m.flaw, None);
    assert_eq!(values(&m, 2), vec![10]);
    assert_eq!(
        m.edicts,
        vec![
            Edict { id: RuneId { block: 1, tx: 2 }, amount: 100, output: 1 },
            Edict { id: RuneId { block: 1, tx: 5 }, amount: 50, output: 0 },
        ]
    );
    no_body_edicts(&m);
}

#[test]
fn body_edicts_are_in_id_order() {
    let m = Message::from_integers(&message_tx(1), &[0, 5, 1, 1, 0, 0, 2, 1, 0, 3, 0, 1, 0]);
    assert_eq!(m.flaw, None);
    let ids: Vec<RuneId> = m.edicts.iter().map(|e| e.id).collect();
    assert_eq!(ids, vec![RuneId { block: 5, tx: 1 }, RuneId { block: 5, tx: 3 }, RuneId { block: 8, tx: 0 }]);
    assert!(ids.windows(2).all(|w| w[0] <= w[1]));
}

#[test]
fn trailing_integers_flaw() {
    let m = Message::from_integers(&message_tx(1), &[0, 1, 2, 3]);
    assert_eq!(m.flaw, Some(Flaw::TrailingIntegers));
    assert!(m.edicts.is_empty());
}

#[test]
fn trailing_integers_after_an_edict() {
    let m = Message::from_integers(&message_tx(1), &[0, 1, 2, 3, 0, 9]);
    assert_eq!(m.flaw, Some(Flaw::TrailingIntegers));
    assert_eq!(m.edicts, vec![Edict { id: RuneId { block: 1, tx: 2 }, amount: 3, output: 0 }]);
}

#[test]
fn edict_rune_id_flaw() {
    let m = Message::from_integers(&message_tx(1), &[0, u64::MAX as u128 + 1, 0, 1, 0]);
    assert_eq!(m.flaw, Some(Flaw::EdictRuneId));
    assert!(m.edicts.is_empty());
}

#[test]
fn edict_output_flaw() {
    let m = Message::from_integers(&message_tx(2), &[0, 1, 0, 5, 3]);
    assert_eq!(m.flaw, Some(Flaw::EdictOutput));
    assert!(m.edicts.is_empty());
}

#[test]
fn truncated_field_flaw() {
    let m = Message::from_integers(&message_tx(1), &[2, 10, 4]);
    assert_eq!(m.flaw, Some(Flaw::TruncatedField));
    assert_eq!(values(&m, 2), vec![10]);
    assert!(values(&m, 4).is_empty());
}

#[test]
fn body_tag_as_value_is_a_value() {
    let m = Message::from_integers(&message_tx(1), &[6, 0]);
    assert_eq!(m.flaw, None);
    assert_eq!(values(&m, 6), vec![0]);
}

#[test]
fn extension_bodies_go_to_their_lists() {
    let tx = message_tx(1);
    let e = Edict { id: RuneId { block: 1, tx: 1 }, amount: 7, output: 0 };
    let cases: [(Tag, fn(&Message) -> Option<Vec<Edict>>); 6] = [
        (Tag::Mint20Body, |m| m.mint20_edicts.clone()),
        (Tag::Mint21Body, |m| m.mint21_edicts.clone()),
        (Tag::Mint30Body, |m| m.mint30_edicts.clone()),
        (Tag::Mint31Body, |m| m.mint31_edicts.clone()),
        (Tag::Burn2Body, |m| m.burn2_edicts.clone()),
        (Tag::Burn3Body, |m| m.burn3_edicts.clone()),
    ];
    for (tag, get) in cases {
        let m = Message::from_integers(&tx, &[tag.code(), 1, 1, 7, 0]);
        assert_eq!(m.flaw, None);
        assert!(m.edicts.is_empty());
        assert_eq!(get(&m), Some(vec![e]));
        assert_eq!(Tag::from_code(tag.code()), Some(tag));
    }
}

#[test]
fn tag_codes() {
    assert_eq!(Tag::Body.code(), 0);
    assert_eq!(Tag::from_code(1), None);
    assert_eq!(Tag::from_code(2), None);
}
