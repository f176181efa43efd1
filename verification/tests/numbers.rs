//! Decimals, instants, texts and operation identities.

use trading_apps::decimal::Decimal;
use trading_apps::operations::{
    account_preflight, idempotency_key, operation_id, operation_prefix,
    operation_task_belongs_to_owner, owner_operation_sequence, Ownership,
};
use trading_apps::paper_account::{PaperAccountSnapshot, PaperReservation, PaperReservationPhase};
use trading_apps::text::{
    after_prefix, has_control, has_suffix, is_text_before, padded_number, parse_u64, prefix_within,
    same_ignoring_case, trimmed,
};
use trading_apps::timestamp::Timestamp;

fn number(text: &str) -> Decimal {
    Decimal::parse(text).unwrap()
}

#[test]
fn decimals_compute_exactly() {
    assert_eq!(number("0.1").checked_add(number("0.2")).unwrap().to_text(), "0.3");
    assert_eq!(number("1").checked_sub(number("1.25")).unwrap().to_text(), "-0.25");
    assert_eq!(number("0.001").checked_mul(number("49000.1")).unwrap().to_text(), "49.0001");
    assert_eq!(number("1").checked_div(number("8")).unwrap().to_text(), "0.125");
    assert!(number("1").checked_div(Decimal::zero()).is_none());
    let largest = number("79228162514264337593543950335");
    assert!(largest.checked_add(number("1")).is_none());
    assert!(largest.checked_mul(number("2")).is_none());
}

#[test]
fn decimals_are_ordered_by_their_value() {
    assert!(number("1.0").equals(number("1")));
    assert!(number("-2").is_less_than(number("-1.5")));
    assert!(!number("1.50").is_less_than(number("1.5")));
    assert!(number("0.0000001").is_positive());
    assert!(number("-0.00").is_zero());
}

#[test]
fn decimals_keep_their_digits_in_texts() {
    assert_eq!(number("001.500").to_text(), "1.500");
    assert_eq!(number("-0.05").to_text(), "-0.05");
    assert_eq!((number("1.500").mantissa(), number("1.500").scale()), (1500, 3));
    assert!(Decimal::parse("one").is_none());
    assert!(Decimal::parse("").is_none());
    assert!(Decimal::new(1, 29).is_none());
    assert_eq!(Decimal::new(-5, 2).unwrap().to_text(), "-0.05");
    assert_eq!(number("1.500").normalized().to_text(), "1.5");
}

#[test]
fn instants_are_floored_and_written() {
    let at = Timestamp::from_parts(1_784_941_199, 999_999_999);
    assert_eq!(at.hour_bucket(), Timestamp::from_parts(1_784_937_600, 0));
    assert_eq!(
        Timestamp::from_parts(-1, 0).hour_bucket(),
        Timestamp::from_parts(-3_600, 0)
    );
    assert_eq!(
        Timestamp::from_parts(0, 5_000_000).to_rfc3339(),
        Some("1970-01-01T00:00:00.005+00:00".to_owned())
    );
    assert_eq!(Timestamp::from_parts(i64::MAX, 0).to_rfc3339(), None);
    assert_eq!(
        Timestamp::from_parts(1, 0).checked_advance(2, 5),
        Some(Timestamp::from_parts(3, 5))
    );
    assert_eq!(
        Timestamp::from_parts(8_210_266_876_799, 999_999_999).checked_advance(0, 1),
        None
    );
    assert_eq!(Timestamp::end_of_time(), Timestamp::from_parts(8_210_266_876_799, 999_999_999));
    assert_eq!(Timestamp::from_parts(5, 0).seconds_since(Timestamp::from_parts(-5, 1)), 9);
}

#[test]
fn a_leap_second_lies_before_the_next_second() {
    let before = Timestamp::from_parts(1_483_228_799, 999_999_999);
    let leap = Timestamp::from_parts(1_483_228_799, 1_500_000_000);
    let after = Timestamp::from_parts(1_483_228_800, 0);
    assert!(before.is_before(leap) && leap.is_before(after) && !after.is_before(leap));
    assert_eq!(leap.later(before), leap);
    assert_eq!(after.later(leap), after);
    assert_eq!(leap.to_rfc3339(), Some("2016-12-31T23:59:60.500+00:00".to_owned()));
    assert_eq!(leap.hour_bucket(), Timestamp::from_parts(1_483_225_200, 0));
    let within = leap.checked_advance(0, 400_000_000).unwrap();
    assert_eq!(within, Timestamp::from_parts(1_483_228_799, 1_900_000_000));
    let out = leap.checked_advance(0, 500_000_000).unwrap();
    assert_eq!(out, after);
    assert_eq!(leap.checked_advance(1, 0), Some(Timestamp::from_parts(1_483_228_800, 500_000_000)));
    assert_eq!(after.seconds_since(Timestamp::from_parts(1_483_228_799, 1_900_000_000)), 0);
    let minute = Timestamp::from_parts(59, 1_500_000_000);
    assert_eq!(Timestamp::from_parts(70, 0).seconds_since(minute), 10);
    assert_eq!(leap.seconds_since(Timestamp::from_parts(1_483_228_790, 0)), 10);
}

#[test]
fn a_quotient_of_whole_mantissas_is_exact() {
    let quotient = |a: &str, b: &str| number(a).checked_div(number(b)).unwrap().to_text();
    assert_eq!(quotient("6.00", "2"), "3.00");
    assert_eq!(quotient("-6.00", "0.2"), "-30.0");
    assert_eq!(quotient("79228162514264337593543950335", "5"), "15845632502852867518708790067");
    assert_eq!(quotient("79228162514264337593543950330", "7922816251426433759354395033"), "10");
    assert_eq!(quotient("36893488147419103232", "18446744073709551616"), "2");
    assert!(number("1").checked_div(Decimal::zero()).is_none());
    assert_eq!(quotient("0.00", "3"), "0");
}

#[test]
fn texts_are_cut_and_compared() {
    assert_eq!(trimmed("\u{a0} a b\n"), "a b");
    assert_eq!(padded_number(42, 6), "000042");
    assert_eq!(parse_u64("000042"), Some(42));
    assert_eq!(parse_u64("18446744073709551616"), None);
    assert_eq!(parse_u64("+1"), Some(1));
    assert_eq!(prefix_within("a\u{e9}b", 2), "a");
    assert_eq!(prefix_within("a\u{e9}b", 3), "a\u{e9}");
    assert_eq!(after_prefix("task/op/1", "task"), Some("/op/1".to_owned()));
    assert_eq!(after_prefix("task", "other"), None);
    assert!(same_ignoring_case("Binance", "bINANCE"));
    assert!(is_text_before("BTC", "BTC-USDT") && !is_text_before("b", "B"));
    assert!(has_suffix("BTC-SPOT", "-SPOT") && !has_suffix("SPOT", "-SPOT"));
    assert!(has_control("a\u{7f}") && !has_control("a b"));
}

#[test]
fn operation_identities_read_back() {
    assert_eq!(operation_prefix("grid"), "grid/op/");
    assert_eq!(operation_id("grid", 7), "grid/op/000007");
    assert_eq!(idempotency_key("grid", 7), "grid:000007");
    assert_eq!(owner_operation_sequence(&operation_id("grid", 7), "grid/op/"), Some(7));
    assert_eq!(
        owner_operation_sequence(&operation_id("grid", 1_000_000), "grid/op/"),
        Some(1_000_000)
    );
    assert_ne!(operation_id("grid", 7), operation_id("grid", 8));
    assert!(operation_task_belongs_to_owner("grid/op/000007", "grid/op/"));
    assert!(!operation_task_belongs_to_owner("grid/op/7x", "grid/op/"));
    assert!(!operation_task_belongs_to_owner("grid-2/op/000007", "grid/op/"));
}

fn reservation(id: u128, task_id: &str, phase: PaperReservationPhase) -> PaperReservation {
    PaperReservation {
        reservation_id: id,
        task_id: task_id.to_owned(),
        phase,
        reconciliation_failed: false,
    }
}

fn account(reservations: Vec<PaperReservation>) -> PaperAccountSnapshot {
    PaperAccountSnapshot {
        projection_complete: true,
        available: number("1000"),
        settled_equity_base: number("990"),
        pending_reserved: Decimal::zero(),
        uncertain_reserved: Decimal::zero(),
        committed_exposure: Decimal::zero(),
        reservations,
        open_lots: Vec::new(),
    }
}

#[test]
fn the_preflight_continues_after_the_largest_number() {
    let released = PaperReservationPhase::Released;
    let snapshot = account(vec![
        reservation(1, "grid/op/000003", released),
        reservation(2, "grid/op/000011", PaperReservationPhase::Committed),
        reservation(3, "other/op/000099", released),
    ]);
    assert_eq!(account_preflight(Ownership::Digits, &snapshot, "grid"), Some(11));
    let open = account(vec![reservation(1, "grid/op/000003", PaperReservationPhase::Uncertain)]);
    assert_eq!(account_preflight(Ownership::Digits, &open, "grid"), None);
    let mut partial = account(Vec::new());
    partial.projection_complete = false;
    assert_eq!(account_preflight(Ownership::Digits, &partial, "grid"), None);
    assert_eq!(account_preflight(Ownership::Digits, &account(Vec::new()), "grid"), Some(0));
}
