use periscope::float::Float64;
use periscope::models::{ContractDetails, ContractType, ExerciseStyle, Greeks, LastQuote};

fn num(x: f64) -> Option<Float64> {
    Some(Float64 { bits: x.to_bits() })
}

fn details(contract_type: Option<&str>, exercise_style: Option<&str>) -> ContractDetails {
    ContractDetails {
        ticker: None,
        contract_type: contract_type.map(|s| s.to_string()),
        strike_price: None,
        expiration_date: None,
        exercise_style: exercise_style.map(|s| s.to_string()),
        shares_per_contract: None,
    }
}

#[test]
fn greeks_with_all_four_are_complete() {
    let g = Greeks { delta: num(0.5), gamma: num(0.01), theta: num(-0.02), vega: num(0.1) };
    assert!(g.is_complete());
}

#[test]
fn greeks_missing_any_one_are_incomplete() {
    let full = Greeks { delta: num(0.5), gamma: num(0.01), theta: num(-0.02), vega: num(0.1) };
    assert!(!Greeks { delta: None, ..full }.is_complete());
    assert!(!Greeks { gamma: None, ..full }.is_complete());
    assert!(!Greeks { theta: None, ..full }.is_complete());
    assert!(!Greeks { vega: None, ..full }.is_complete());
    assert!(!Greeks { delta: None, gamma: None, theta: None, vega: None }.is_complete());
}

#[test]
fn greeks_holding_zero_or_nan_still_count_as_present() {
    let g = Greeks { delta: num(0.0), gamma: num(f64::NAN), theta: num(-0.0), vega: num(0.0) };
    assert!(g.is_complete());
}

#[test]
fn bid_ask_needs_both_sides() {
    let both = LastQuote { bid: num(1.25), ask: num(1.75), bid_size: Some(10), ask_size: None };
    let (bid, ask) = both.bid_ask().unwrap();
    assert_eq!(f64::from_bits(bid.bits), 1.25);
    assert_eq!(f64::from_bits(ask.bits), 1.75);
    assert_eq!((f64::from_bits(bid.bits) + f64::from_bits(ask.bits)) / 2.0, 1.5);
    assert_eq!(f64::from_bits(ask.bits) - f64::from_bits(bid.bits), 0.5);

    assert_eq!(LastQuote { bid: None, ..both }.bid_ask(), None);
    assert_eq!(LastQuote { ask: None, ..both }.bid_ask(), None);
    assert_eq!(LastQuote { bid: None, ask: None, ..both }.bid_ask(), None);
}

#[test]
fn contract_type_knows_call_and_put() {
    assert_eq!(details(Some("call"), None).contract_type_enum(), Some(ContractType::Call));
    assert_eq!(details(Some("put"), None).contract_type_enum(), Some(ContractType::Put));
}

#[test]
fn contract_type_degrades_to_none() {
    for raw in ["Call", "CALL", "", "straddle", "Put", "PUT", "call ", " put", "calls"] {
        assert_eq!(details(Some(raw), None).contract_type_enum(), None, "{raw:?}");
    }
    assert_eq!(details(None, None).contract_type_enum(), None);
}

#[test]
fn exercise_style_knows_the_three_styles() {
    assert_eq!(
        details(None, Some("american")).exercise_style_enum(),
        Some(ExerciseStyle::American)
    );
    assert_eq!(
        details(None, Some("european")).exercise_style_enum(),
        Some(ExerciseStyle::European)
    );
    assert_eq!(
        details(None, Some("bermudan")).exercise_style_enum(),
        Some(ExerciseStyle::Bermudan)
    );
}

#[test]
fn exercise_style_degrades_to_none() {
    for raw in ["American", "EUROPEAN", "", "asian", "bermuda", "bermudan ", "europea"] {
        assert_eq!(details(None, Some(raw)).exercise_style_enum(), None, "{raw:?}");
    }
    assert_eq!(details(None, None).exercise_style_enum(), None);
}

#[test]
fn float_tells_finite_from_the_rest() {
    assert!(Float64::from_bits(0.0f64.to_bits()).is_finite());
    assert!(Float64::from_bits((-1.5f64).to_bits()).is_finite());
    assert!(Float64::from_bits(f64::MAX.to_bits()).is_finite());
    assert!(Float64::from_bits(f64::MIN_POSITIVE.to_bits()).is_finite());
    assert!(Float64::from_bits(5e-324f64.to_bits()).is_finite());
    assert!(!Float64::from_bits(f64::INFINITY.to_bits()).is_finite());
    assert!(!Float64::from_bits(f64::NEG_INFINITY.to_bits()).is_finite());
    assert!(!Float64::from_bits(f64::NAN.to_bits()).is_finite());
    assert_eq!(Float64::from_bits(7).to_bits(), 7);
}
