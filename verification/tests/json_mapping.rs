use periscope::float::Float64;
use periscope::json::{Json, JsonNumber};
use periscope::text::same_text;
use periscope::models::{
    ContractDetails, ContractType, DayBar, ExerciseStyle, Greeks, LastQuote, LastTrade,
    OptionContract, OptionsChainResponse, UnderlyingAsset,
};
use periscope::PeriscopeError;

fn num(x: f64) -> Option<Float64> {
    Some(Float64 { bits: x.to_bits() })
}

fn fraction(x: f64) -> Json {
    Json::Number(JsonNumber { integer: None, double: num(x) })
}

fn whole(n: i64) -> Json {
    Json::Number(JsonNumber { integer: Some(n), double: None })
}

fn text(s: &str) -> Json {
    Json::Text(s.to_string())
}

fn object(members: Vec<(&str, Json)>) -> Json {
    Json::Object(members.into_iter().map(|(k, v)| (k.to_string(), v)).collect())
}

const BODY: &str = r#"{
  "status": "OK",
  "request_id": "abc123",
  "next_url": "https://api.massive.com/v3/snapshot/options/AAPL?cursor=xyz",
  "results": [
    {
      "details": {
        "ticker": "O:AAPL250117C00150000",
        "contract_type": "call",
        "strike_price": 150,
        "expiration_date": "2025-01-17",
        "exercise_style": "american",
        "shares_per_contract": 100
      },
      "greeks": {"delta": 0.5, "gamma": 0.0125, "theta": -0.25, "vega": 0.75},
      "implied_volatility": 0.3125,
      "open_interest": 1234,
      "last_quote": {"bid": 1.25, "ask": 1.75, "bid_size": 10, "ask_size": 20},
      "last_trade": {"price": 1.5, "size": 3},
      "day": {"open": 1.0, "high": 2.0, "low": 0.5, "close": 1.5, "volume": 1000},
      "underlying_asset": {"ticker": "AAPL", "price": 151.25},
      "extra": "ignored"
    },
    {
      "details": {"ticker": "O:AAPL250117P00150000", "contract_type": "put"},
      "open_interest": 7
    }
  ]
}"#;

fn first_contract() -> OptionContract {
    OptionContract {
        details: Some(ContractDetails {
            ticker: Some("O:AAPL250117C00150000".to_string()),
            contract_type: Some("call".to_string()),
            strike_price: num(150.0),
            expiration_date: Some("2025-01-17".to_string()),
            exercise_style: Some("american".to_string()),
            shares_per_contract: Some(100),
        }),
        greeks: Some(Greeks {
            delta: num(0.5),
            gamma: num(0.0125),
            theta: num(-0.25),
            vega: num(0.75),
        }),
        implied_volatility: num(0.3125),
        open_interest: Some(1234),
        last_quote: Some(LastQuote {
            bid: num(1.25),
            ask: num(1.75),
            bid_size: Some(10),
            ask_size: Some(20),
        }),
        last_trade: Some(LastTrade { price: num(1.5), size: Some(3) }),
        day: Some(DayBar {
            open: num(1.0),
            high: num(2.0),
            low: num(0.5),
            close: num(1.5),
            volume: Some(1000),
        }),
        underlying_asset: Some(UnderlyingAsset {
            ticker: Some("AAPL".to_string()),
            price: num(151.25),
        }),
    }
}

fn second_contract() -> OptionContract {
    OptionContract {
        details: Some(ContractDetails {
            ticker: Some("O:AAPL250117P00150000".to_string()),
            contract_type: Some("put".to_string()),
            strike_price: None,
            expiration_date: None,
            exercise_style: None,
            shares_per_contract: None,
        }),
        greeks: None,
        implied_volatility: None,
        open_interest: Some(7),
        last_quote: None,
        last_trade: None,
        day: None,
        underlying_asset: None,
    }
}

fn expected_response() -> OptionsChainResponse {
    OptionsChainResponse {
        status: "OK".to_string(),
        request_id: "abc123".to_string(),
        results: vec![first_contract(), second_contract()],
        next_url: Some("https://api.massive.com/v3/snapshot/options/AAPL?cursor=xyz".to_string()),
    }
}

#[test]
fn body_reads_into_the_model() {
    let response = OptionsChainResponse::from_slice(BODY.as_bytes()).unwrap();
    assert_eq!(response, expected_response());
    let details = response.results[0].details.as_ref().unwrap();
    assert_eq!(details.contract_type_enum(), Some(ContractType::Call));
    assert_eq!(details.exercise_style_enum(), Some(ExerciseStyle::American));
    assert!(response.results[0].greeks.unwrap().is_complete());
    let second = response.results[1].details.as_ref().unwrap();
    assert_eq!(second.contract_type_enum(), Some(ContractType::Put));
    assert_eq!(second.exercise_style_enum(), None);
}

#[test]
fn missing_optional_members_read_as_absent() {
    let body = br#"{"status":"OK","request_id":"r","results":[{"details":{"ticker":"T"}}]}"#;
    let response = OptionsChainResponse::from_slice(body).unwrap();
    assert_eq!(response.next_url, None);
    assert_eq!(response.results.len(), 1);
    let contract = &response.results[0];
    assert_eq!(contract.greeks, None);
    assert_eq!(contract.last_trade, None);
    assert_eq!(contract.last_quote, None);
    assert_eq!(contract.day, None);
    assert_eq!(contract.underlying_asset, None);
    assert_eq!(contract.implied_volatility, None);
    assert_eq!(contract.open_interest, None);
    assert_eq!(
        contract.details,
        Some(ContractDetails {
            ticker: Some("T".to_string()),
            contract_type: None,
            strike_price: None,
            expiration_date: None,
            exercise_style: None,
            shares_per_contract: None,
        })
    );
}

#[test]
fn empty_contract_and_empty_results_are_fine() {
    let body = br#"{"status":"OK","request_id":"r","results":[{}]}"#;
    let response = OptionsChainResponse::from_slice(body).unwrap();
    assert_eq!(response.results.len(), 1);
    let c = &response.results[0];
    assert!(c.details.is_none() && c.greeks.is_none() && c.day.is_none());

    let body = br#"{"status":"OK","request_id":"r","results":[]}"#;
    let response = OptionsChainResponse::from_slice(body).unwrap();
    assert!(response.results.is_empty());
}

#[test]
fn null_and_mismatched_members_read_as_absent() {
    let body = br#"{"status":"OK","request_id":"r","next_url":17,"results":[{
        "details": {"ticker": 5, "contract_type": null, "strike_price": "150",
                    "expiration_date": ["2025"], "exercise_style": {}, "shares_per_contract": 100.5},
        "greeks": null,
        "implied_volatility": "high",
        "open_interest": 12.0,
        "last_quote": 3,
        "last_trade": "none",
        "day": [1, 2, 3],
        "underlying_asset": true
    }]}"#;
    let response = OptionsChainResponse::from_slice(body).unwrap();
    assert_eq!(response.next_url, None);
    let c = &response.results[0];
    assert_eq!(
        c.details,
        Some(ContractDetails {
            ticker: None,
            contract_type: None,
            strike_price: None,
            expiration_date: None,
            exercise_style: None,
            shares_per_contract: None,
        })
    );
    assert_eq!(c.greeks, None);
    assert_eq!(c.implied_volatility, None);
    assert_eq!(c.open_interest, None);
    assert_eq!(c.last_quote, None);
    assert_eq!(c.last_trade, None);
    assert_eq!(c.day, None);
    assert_eq!(c.underlying_asset, None);
}

#[test]
fn facet_that_is_an_empty_object_is_present_and_empty() {
    let body = br#"{"status":"OK","request_id":"r","results":[{"greeks":{}}]}"#;
    let response = OptionsChainResponse::from_slice(body).unwrap();
    let g = response.results[0].greeks.unwrap();
    assert_eq!(g, Greeks { delta: None, gamma: None, theta: None, vega: None });
    assert!(!g.is_complete());
}

#[test]
fn numbers_read_by_kind_and_range() {
    let body = br#"{"status":"OK","request_id":"r","results":[
        {"details": {"strike_price": 150, "shares_per_contract": 2147483647}, "open_interest": -5},
        {"details": {"strike_price": -2.5e3, "shares_per_contract": 2147483648},
         "open_interest": 9223372036854775807},
        {"details": {"shares_per_contract": -2147483648}, "open_interest": 9223372036854775808},
        {"details": {"shares_per_contract": -2147483649}, "implied_volatility": 18446744073709551615}
    ]}"#;
    let r = OptionsChainResponse::from_slice(body).unwrap();
    let d0 = r.results[0].details.as_ref().unwrap();
    assert_eq!(d0.strike_price, num(150.0));
    assert_eq!(d0.shares_per_contract, Some(i32::MAX));
    assert_eq!(r.results[0].open_interest, Some(-5));
    let d1 = r.results[1].details.as_ref().unwrap();
    assert_eq!(d1.strike_price, num(-2500.0));
    assert_eq!(d1.shares_per_contract, None);
    assert_eq!(r.results[1].open_interest, Some(i64::MAX));
    let d2 = r.results[2].details.as_ref().unwrap();
    assert_eq!(d2.shares_per_contract, Some(i32::MIN));
    assert_eq!(r.results[2].open_interest, None);
    let d3 = r.results[3].details.as_ref().unwrap();
    assert_eq!(d3.shares_per_contract, None);
    assert_eq!(r.results[3].implied_volatility, num(18446744073709551615.0));
}

fn json_error_text(r: Result<OptionsChainResponse, PeriscopeError>) -> String {
    match r {
        Err(e) => {
            assert!(matches!(e, PeriscopeError::Json(_)));
            e.message()
        }
        Ok(x) => panic!("accepted: {x:?}"),
    }
}

#[test]
fn bytes_that_are_no_json_are_rejected() {
    for body in ["", "{", "not json", "{\"status\":\"OK\"} trailing", "[1,2", "\u{feff}{}"] {
        let text = json_error_text(OptionsChainResponse::from_slice(body.as_bytes()));
        assert!(text.starts_with("JSON parsing error: "), "{text}");
    }
    let text = json_error_text(OptionsChainResponse::from_slice(&[0xff, 0xfe]));
    assert!(text.starts_with("JSON parsing error: "), "{text}");
}

#[test]
fn required_members_are_required() {
    let text = json_error_text(OptionsChainResponse::from_slice(
        br#"{"request_id":"r","results":[]}"#,
    ));
    assert_eq!(text, "JSON parsing error: missing field `status`");
    let text =
        json_error_text(OptionsChainResponse::from_slice(br#"{"status":"OK","results":[]}"#));
    assert_eq!(text, "JSON parsing error: missing field `request_id`");
    let text =
        json_error_text(OptionsChainResponse::from_slice(br#"{"status":"OK","request_id":"r"}"#));
    assert_eq!(text, "JSON parsing error: missing field `results`");
    let text = json_error_text(OptionsChainResponse::from_slice(
        br#"{"status":null,"request_id":"r","results":[]}"#,
    ));
    assert_eq!(text, "JSON parsing error: invalid type for status, expected a string");
    let text = json_error_text(OptionsChainResponse::from_slice(
        br#"{"status":"OK","request_id":7,"results":[]}"#,
    ));
    assert_eq!(text, "JSON parsing error: invalid type for request_id, expected a string");
    let text = json_error_text(OptionsChainResponse::from_slice(
        br#"{"status":"OK","request_id":"r","results":{}}"#,
    ));
    assert_eq!(text, "JSON parsing error: invalid type for results, expected an array");
    let text = json_error_text(OptionsChainResponse::from_slice(
        br#"{"status":"OK","request_id":"r","results":[{}, null]}"#,
    ));
    assert_eq!(text, "JSON parsing error: invalid type for an item of results, expected an object");
    for body in ["[]", "null", "5", "\"OK\""] {
        let text = json_error_text(OptionsChainResponse::from_slice(body.as_bytes()));
        assert_eq!(text, "JSON parsing error: missing field `status`");
    }
}

#[test]
fn model_written_and_read_back_is_unchanged() {
    let response = expected_response();
    let written = response.to_json();
    assert_eq!(OptionsChainResponse::from_json(&written).unwrap(), response);

    let contract = first_contract();
    assert_eq!(OptionContract::from_json(&contract.to_json()), contract);
    let contract = second_contract();
    assert_eq!(OptionContract::from_json(&contract.to_json()), contract);

    let empty = OptionsChainResponse {
        status: String::new(),
        request_id: String::new(),
        results: vec![],
        next_url: None,
    };
    assert_eq!(OptionsChainResponse::from_json(&empty.to_json()).unwrap(), empty);
}

#[test]
fn each_facet_written_and_read_back_is_unchanged() {
    let c = first_contract();
    let details = c.details.unwrap();
    assert_eq!(ContractDetails::from_json(&details.to_json()), details);
    let greeks = c.greeks.unwrap();
    assert_eq!(Greeks::from_json(&greeks.to_json()), greeks);
    let quote = c.last_quote.unwrap();
    assert_eq!(LastQuote::from_json(&quote.to_json()), quote);
    let trade = c.last_trade.unwrap();
    assert_eq!(LastTrade::from_json(&trade.to_json()), trade);
    let day = c.day.unwrap();
    assert_eq!(DayBar::from_json(&day.to_json()), day);
    let asset = c.underlying_asset.unwrap();
    assert_eq!(UnderlyingAsset::from_json(&asset.to_json()), asset);
}

#[test]
fn writing_puts_every_member_and_null_for_what_is_absent() {
    let g = Greeks { delta: num(0.5), gamma: None, theta: num(-0.25), vega: None };
    assert_eq!(
        g.to_json(),
        object(vec![
            ("delta", fraction(0.5)),
            ("gamma", Json::Null),
            ("theta", fraction(-0.25)),
            ("vega", Json::Null),
        ])
    );
    let t = LastTrade { price: None, size: Some(3) };
    assert_eq!(t.to_json(), object(vec![("price", Json::Null), ("size", whole(3))]));
    let a = UnderlyingAsset { ticker: Some("AAPL".to_string()), price: num(151.25) };
    assert_eq!(a.to_json(), object(vec![("ticker", text("AAPL")), ("price", fraction(151.25))]));
    let c = second_contract();
    match c.to_json() {
        Json::Object(members) => {
            let names: Vec<&str> = members.iter().map(|(k, _)| k.as_str()).collect();
            assert_eq!(
                names,
                vec![
                    "details",
                    "greeks",
                    "implied_volatility",
                    "open_interest",
                    "last_quote",
                    "last_trade",
                    "day",
                    "underlying_asset"
                ]
            );
            assert_eq!(members[1].1, Json::Null);
            assert_eq!(members[3].1, whole(7));
        }
        other => panic!("not an object: {other:?}"),
    }
}

#[test]
fn value_that_is_not_finite_is_written_as_null() {
    let g = Greeks { delta: num(f64::NAN), gamma: num(f64::INFINITY), theta: num(1.0), vega: None };
    let written = g.to_json();
    assert_eq!(written.member("delta"), Some(&Json::Null));
    assert_eq!(written.member("gamma"), Some(&Json::Null));
    assert_eq!(written.member("theta"), Some(&fraction(1.0)));
    assert_eq!(
        Greeks::from_json(&written),
        Greeks { delta: None, gamma: None, theta: num(1.0), vega: None }
    );
}

#[test]
fn readers_tell_the_kinds_apart() {
    let doc = object(vec![
        ("a", Json::Number(JsonNumber { integer: Some(1), double: num(1.0) })),
        ("b", fraction(2.5)),
        ("c", text("x")),
        ("d", Json::Array(vec![Json::Bool(true), Json::Null])),
    ]);
    assert!(doc.is_object());
    assert!(!text("x").is_object());
    assert_eq!(doc.member("a").unwrap().as_integer(), Some(1));
    assert_eq!(doc.member("a").unwrap().as_double(), num(1.0));
    assert_eq!(doc.member("a").unwrap().as_text(), None);
    assert_eq!(doc.member("b").unwrap().as_integer(), None);
    assert_eq!(doc.member("b").unwrap().as_double(), num(2.5));
    assert_eq!(doc.member("c").unwrap().as_text(), Some(&"x".to_string()));
    assert_eq!(doc.member("c").unwrap().as_double(), None);
    assert_eq!(doc.member("c").unwrap().as_array(), None);
    assert_eq!(doc.member("d").unwrap().as_array().map(|v| v.len()), Some(2));
    assert_eq!(doc.member("d").unwrap().member("a"), None);
    assert_eq!(doc.member("f"), None);
}

fn to_value(json: &Json) -> serde_json::Value {
    match json {
        Json::Null => serde_json::Value::Null,
        Json::Bool(b) => serde_json::Value::Bool(*b),
        Json::Number(n) => match (n.integer, n.double) {
            (Some(i), _) => serde_json::Value::from(i),
            (None, Some(x)) => serde_json::Value::from(f64::from_bits(x.bits)),
            (None, None) => serde_json::Value::Null,
        },
        Json::Text(s) => serde_json::Value::String(s.clone()),
        Json::Array(items) => serde_json::Value::Array(items.iter().map(to_value).collect()),
        Json::Object(members) => serde_json::Value::Object(
            members.iter().map(|(k, v)| (k.clone(), to_value(v))).collect(),
        ),
    }
}

#[test]
fn model_survives_a_trip_through_text() {
    let response = expected_response();
    let written = serde_json::to_string_pretty(&to_value(&response.to_json())).unwrap();
    assert_eq!(OptionsChainResponse::from_slice(written.as_bytes()).unwrap(), response);

    let awkward = OptionsChainResponse {
        status: "a \"quoted\" status\n".to_string(),
        request_id: "\u{e9}\u{1F600}".to_string(),
        results: vec![OptionContract {
            details: None,
            greeks: Some(Greeks {
                delta: num(0.1),
                gamma: num(-1e-300),
                theta: num(f64::MAX),
                vega: num(5e-324),
            }),
            implied_volatility: num(1.0 / 3.0),
            open_interest: Some(i64::MIN),
            last_quote: None,
            last_trade: Some(LastTrade { price: num(-0.0), size: Some(i64::MAX) }),
            day: None,
            underlying_asset: None,
        }],
        next_url: None,
    };
    let written = serde_json::to_string(&to_value(&awkward.to_json())).unwrap();
    assert_eq!(OptionsChainResponse::from_slice(written.as_bytes()).unwrap(), awkward);
}

#[test]
fn same_bytes_read_the_same() {
    let once = OptionsChainResponse::from_slice(BODY.as_bytes()).unwrap();
    let twice = OptionsChainResponse::from_slice(BODY.as_bytes()).unwrap();
    assert_eq!(once, twice);
}

#[test]
fn member_lookup_takes_the_first_of_a_name() {
    let doc = object(vec![("k", whole(1)), ("other", whole(2)), ("k", whole(3))]);
    assert_eq!(doc.member("k"), Some(&whole(1)));
    assert_eq!(doc.member("other"), Some(&whole(2)));
    assert_eq!(doc.member("K"), None);
    assert_eq!(doc.member(""), None);
    assert_eq!(Json::Null.member("k"), None);
    assert_eq!(Json::Array(vec![doc]).member("k"), None);
}

#[test]
fn same_text_compares_contents() {
    assert!(same_text("", ""));
    assert!(same_text("call", "call"));
    assert!(!same_text("call", "Call"));
    assert!(!same_text("call", "calls"));
    assert!(!same_text("calls", "call"));
    assert!(same_text("délta", "délta"));
    assert!(!same_text("délta", "delta"));
}

#[test]
fn from_json_on_a_hand_built_tree() {
    let doc = object(vec![
        ("status", text("OK")),
        ("request_id", text("r")),
        (
            "results",
            Json::Array(vec![object(vec![
                ("open_interest", whole(4)),
                ("implied_volatility", fraction(0.25)),
                ("last_trade", object(vec![("price", fraction(2.0)), ("size", fraction(1.0))])),
            ])]),
        ),
    ]);
    let r = OptionsChainResponse::from_json(&doc).unwrap();
    assert_eq!(r.status, "OK");
    assert_eq!(r.request_id, "r");
    assert_eq!(r.next_url, None);
    assert_eq!(r.results.len(), 1);
    assert_eq!(r.results[0].open_interest, Some(4));
    assert_eq!(r.results[0].implied_volatility, num(0.25));
    assert_eq!(r.results[0].last_trade, Some(LastTrade { price: num(2.0), size: None }));
}
