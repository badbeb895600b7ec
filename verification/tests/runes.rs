use rsm::rune::{Edict, Rune, RuneId, Transaction, TxOut};
use rsm::text::decimal_string;

fn rune_tx(n: usize) -> Transaction {
    Transaction { output: (0..n).map(|_| TxOut { script_pubkey: Vec::new() }).collect() }
}

#[test]
fn decimal_renders_numbers() {
    assert_eq!(decimal_string(0), "0");
    assert_eq!(decimal_string(7), "7");
    assert_eq!(decimal_string(10), "10");
    assert_eq!(decimal_string(1234567890), "1234567890");
    assert_eq!(decimal_string(u128::MAX), "340282366920938463463374607431768211455");
}

#[test]
fn rune_id_text_is_block_colon_tx() {
    assert_eq!(RuneId { block: 840000, tx: 3 }.to_str(), "840000:3");
    assert_eq!(RuneId { block: 0, tx: 0 }.to_str(), "0:0");
    assert_eq!(RuneId { block: u64::MAX, tx: u32::MAX }.to_str(), "18446744073709551615:4294967295");
}

#[test]
fn distinct_ids_have_distinct_texts() {
    // 1:23 and 12:3 would collide without the separator.
    assert_ne!(RuneId { block: 1, tx: 23 }.to_str(), RuneId { block: 12, tx: 3 }.to_str());
}

#[test]
fn next_id_same_block_moves_tx() {
    let id = RuneId { block: 10, tx: 5 };
    assert_eq!(id.next(0, 3), Some(RuneId { block: 10, tx: 8 }));
}

#[test]
fn next_id_new_block_resets_tx() {
    let id = RuneId { block: 10, tx: 5 };
    assert_eq!(id.next(2, 1), Some(RuneId { block: 12, tx: 1 }));
}

#[test]
fn next_id_overflow_is_none() {
    assert_eq!(RuneId { block: u64::MAX, tx: 0 }.next(1, 0), None);
    assert_eq!(RuneId { block: 1, tx: u32::MAX }.next(0, 1), None);
    assert_eq!(RuneId { block: 0, tx: 0 }.next(1, u32::MAX as u128 + 1), None);
    assert_eq!(RuneId { block: 0, tx: 0 }.next(u64::MAX as u128 + 1, 0), None);
}

#[test]
fn block_zero_holds_no_runes() {
    assert_eq!(RuneId { block: 0, tx: 0 }.next(0, 0), Some(RuneId { block: 0, tx: 0 }));
    assert_eq!(RuneId { block: 0, tx: 0 }.next(0, 1), None);
    assert_eq!(RuneId { block: 0, tx: 0 }.next(1, 5), Some(RuneId { block: 1, tx: 5 }));
}

#[test]
fn next_id_never_goes_back() {
    let id = RuneId { block: 7, tx: 9 };
    for (b, t) in [(0u128, 0u128), (0, 4), (1, 0), (3, 2)] {
        let n = id.next(b, t).unwrap();
        assert!(n >= id);
    }
}

#[test]
fn edict_output_bounds() {
    let tx = rune_tx(2);
    let id = RuneId { block: 1, tx: 1 };
    assert_eq!(Edict::from_integers(&tx, id, 5, 1), Some(Edict { id, amount: 5, output: 1 }));
    assert_eq!(Edict::from_integers(&tx, id, 5, 2), Some(Edict { id, amount: 5, output: 2 }));
    assert_eq!(Edict::from_integers(&tx, id, 5, 3), None);
    assert_eq!(Edict::from_integers(&tx, id, 5, u32::MAX as u128 + 1), None);
}

#[test]
fn rune_names() {
    assert_eq!(Rune(0).name(), "A");
    assert_eq!(Rune(25).name(), "Z");
    assert_eq!(Rune(26).name(), "AA");
    assert_eq!(Rune(27).name(), "AB");
    assert_eq!(Rune(701).name(), "ZZ");
    assert_eq!(Rune(702).name(), "AAA");
    assert_eq!(Rune(2055900680524219742).name(), "UNCOMMONGOODS");
    assert_eq!(Rune(u128::MAX).name(), "BCGDENLQRQWDSLRUGSNLBTMFIJAV");
}

#[test]
fn rune_below_max_matches_letters() {
    assert_eq!(Rune(u128::MAX - 1).name(), "BCGDENLQRQWDSLRUGSNLBTMFIJAU");
}

#[test]
fn distinct_runes_have_distinct_names() {
    let names: std::collections::HashSet<String> = (0..2000u128).map(|r| Rune(r).name()).collect();
    assert_eq!(names.len(), 2000);
}
