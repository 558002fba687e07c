//! The facets of an option contract: its terms, its quote, its last trade,
//! the day's bar and the underlying asset.

use crate::codec::{
    double_field, double_json, integer_field, integer_json, lemma_lookup_empty, lemma_lookup_push,
    put, read_double, read_integer, read_small_integer, read_text, small_integer_field,
    small_integer_json, text_field, text_json, text_view, writable, write_double, write_integer,
    write_small_integer, write_text,
};
use crate::float::Float64;
use crate::json::{Json, JsonView};
use crate::text::same_text;
use vstd::prelude::*;

verus! {

/// The right that a contract gives.
#[derive(Debug, Clone, Copy, PartialEq, Eq, Structural)]
pub enum ContractType {
    Call,
    Put,
}

/// When a contract may be exercised.
#[derive(Debug, Clone, Copy, PartialEq, Eq, Structural)]
pub enum ExerciseStyle {
    American,
    European,
    Bermudan,
}

/// The kind that a raw contract type names: `call` and `put`, in exactly
/// this spelling, and nothing else.
pub open spec fn contract_type_of(raw: Option<Seq<char>>) -> Option<ContractType> {
    match raw {
        Some(t) => if t == "call"@ {
            Some(ContractType::Call)
        } else if t == "put"@ {
            Some(ContractType::Put)
        } else {
            None
        },
        None => None,
    }
}

/// The style that a raw exercise style names: `american`, `european` and
/// `bermudan`, in exactly this spelling, and nothing else.
pub open spec fn exercise_style_of(raw: Option<Seq<char>>) -> Option<ExerciseStyle> {
    match raw {
        Some(s) => if s == "american"@ {
            Some(ExerciseStyle::American)
        } else if s == "european"@ {
            Some(ExerciseStyle::European)
        } else if s == "bermudan"@ {
            Some(ExerciseStyle::Bermudan)
        } else {
            None
        },
        None => None,
    }
}

/// What identifies a contract and fixes its terms.
#[derive(Debug, Clone, PartialEq)]
pub struct ContractDetails {
    pub ticker: Option<String>,
    pub contract_type: Option<String>,
    pub strike_price: Option<Float64>,
    pub expiration_date: Option<String>,
    pub exercise_style: Option<String>,
    pub shares_per_contract: Option<i32>,
}

/// The mathematical value of a [`ContractDetails`].
pub struct ContractDetailsView {
    pub ticker: Option<Seq<char>>,
    pub contract_type: Option<Seq<char>>,
    pub strike_price: Option<Float64>,
    pub expiration_date: Option<Seq<char>>,
    pub exercise_style: Option<Seq<char>>,
    pub shares_per_contract: Option<i32>,
}

impl View for ContractDetails {
    type V = ContractDetailsView;

    open spec fn view(&self) -> ContractDetailsView {
        ContractDetailsView {
            ticker: text_view(self.ticker),
            contract_type: text_view(self.contract_type),
            strike_price: self.strike_price,
            expiration_date: text_view(self.expiration_date),
            exercise_style: text_view(self.exercise_style),
            shares_per_contract: self.shares_per_contract,
        }
    }
}

/// The member names of a [`ContractDetails`] differ from one another.
pub proof fn lemma_details_keys()
    ensures
        "ticker"@.len() == 6,
        "contract_type"@.len() == 13,
        "strike_price"@.len() == 12,
        "expiration_date"@.len() == 15,
        "exercise_style"@.len() == 14,
        "shares_per_contract"@.len() == 19,
{
    reveal_strlit("ticker");
    reveal_strlit("contract_type");
    reveal_strlit("strike_price");
    reveal_strlit("expiration_date");
    reveal_strlit("exercise_style");
    reveal_strlit("shares_per_contract");
}

impl ContractDetailsView {
    /// The strike, where it is present, is finite.
    pub open spec fn finite(self) -> bool {
        writable(self.strike_price)
    }

    /// What a JSON value reads as.
    pub open spec fn decode(json: JsonView) -> ContractDetailsView {
        ContractDetailsView {
            ticker: text_field(json, "ticker"@),
            contract_type: text_field(json, "contract_type"@),
            strike_price: double_field(json, "strike_price"@),
            expiration_date: text_field(json, "expiration_date"@),
            exercise_style: text_field(json, "exercise_style"@),
            shares_per_contract: small_integer_field(json, "shares_per_contract"@),
        }
    }

    /// What the record is written as: an object with all six members.
    pub open spec fn encode(self) -> JsonView {
        JsonView::Object(
            Seq::empty().push(("ticker"@, text_json(self.ticker))).push(
                ("contract_type"@, text_json(self.contract_type)),
            ).push(("strike_price"@, double_json(self.strike_price))).push(
                ("expiration_date"@, text_json(self.expiration_date)),
            ).push(("exercise_style"@, text_json(self.exercise_style))).push(
                ("shares_per_contract"@, small_integer_json(self.shares_per_contract)),
            ),
        )
    }

    /// Writing a record with a finite strike and reading it back gives the record.
    pub proof fn law_round_trip(self)
        requires
            self.finite(),
        ensures
            ContractDetailsView::decode(self.encode()) == self,
    {
        broadcast use lemma_lookup_push, lemma_lookup_empty;

        lemma_details_keys();
    }
}

impl ContractDetails {
    /// The contract type as an enum; nothing where the raw text is absent or
    /// is not one of the two known spellings.
    pub fn contract_type_enum(&self) -> (r: Option<ContractType>)
        ensures
            r == contract_type_of(self@.contract_type),
    {
        match &self.contract_type {
            Some(t) => {
                if same_text(t.as_str(), "call") {
                    Some(ContractType::Call)
                } else if same_text(t.as_str(), "put") {
                    Some(ContractType::Put)
                } else {
                    None
                }
            },
            None => None,
        }
    }

    /// The exercise style as an enum; nothing where the raw text is absent or
    /// is not one of the three known spellings.
    pub fn exercise_style_enum(&self) -> (r: Option<ExerciseStyle>)
        ensures
            r == exercise_style_of(self@.exercise_style),
    {
        match &self.exercise_style {
            Some(s) => {
                if same_text(s.as_str(), "american") {
                    Some(ExerciseStyle::American)
                } else if same_text(s.as_str(), "european") {
                    Some(ExerciseStyle::European)
                } else if same_text(s.as_str(), "bermudan") {
                    Some(ExerciseStyle::Bermudan)
                } else {
                    None
                }
            },
            None => None,
        }
    }

    pub fn from_json(json: &Json) -> (r: ContractDetails)
        ensures
            r@ == ContractDetailsView::decode(json@),
    {
        ContractDetails {
            ticker: read_text(json, "ticker"),
            contract_type: read_text(json, "contract_type"),
            strike_price: read_double(json, "strike_price"),
            expiration_date: read_text(json, "expiration_date"),
            exercise_style: read_text(json, "exercise_style"),
            shares_per_contract: read_small_integer(json, "shares_per_contract"),
        }
    }

    pub fn to_json(&self) -> (r: Json)
        ensures
            r@ == self@.encode(),
    {
        let mut entries: Vec<(String, Json)> = Vec::new();
        put(&mut entries, "ticker", write_text(&self.ticker));
        put(&mut entries, "contract_type", write_text(&self.contract_type));
        put(&mut entries, "strike_price", write_double(self.strike_price));
        put(&mut entries, "expiration_date", write_text(&self.expiration_date));
        put(&mut entries, "exercise_style", write_text(&self.exercise_style));
        put(&mut entries, "shares_per_contract", write_small_integer(self.shares_per_contract));
        Json::Object(entries)
    }
}

/// The best bid and ask at the time of the snapshot.
#[derive(Debug, Clone, Copy, PartialEq, Eq, Structural)]
pub struct LastQuote {
    pub bid: Option<Float64>,
    pub ask: Option<Float64>,
    pub bid_size: Option<i64>,
    pub ask_size: Option<i64>,
}

/// The member names of a [`LastQuote`] differ from one another.
pub proof fn lemma_quote_keys()
    ensures
        "bid"@ != "ask"@,
        "bid"@ != "bid_size"@,
        "bid"@ != "ask_size"@,
        "ask"@ != "bid_size"@,
        "ask"@ != "ask_size"@,
        "bid_size"@ != "ask_size"@,
{
    reveal_strlit("bid");
    reveal_strlit("ask");
    reveal_strlit("bid_size");
    reveal_strlit("ask_size");
    assert("bid"@.len() == 3 && "ask"@.len() == 3);
    assert("bid_size"@.len() == 8 && "ask_size"@.len() == 8);
    assert("bid"@[0] == 'b' && "ask"@[0] == 'a');
    assert("bid_size"@[0] == 'b' && "ask_size"@[0] == 'a');
}

impl LastQuote {
    /// The two prices, where both are present.
    ///
    /// The mid price and the spread exist exactly where this does, and are
    /// computed from this pair.
    pub open spec fn sides(self) -> Option<(Float64, Float64)> {
        match (self.bid, self.ask) {
            (Some(bid), Some(ask)) => Some((bid, ask)),
            _ => None,
        }
    }

    /// The two prices, where they are present, are finite.
    pub open spec fn finite(self) -> bool {
        writable(self.bid) && writable(self.ask)
    }

    /// What a JSON value reads as.
    pub open spec fn decode(json: JsonView) -> LastQuote {
        LastQuote {
            bid: double_field(json, "bid"@),
            ask: double_field(json, "ask"@),
            bid_size: integer_field(json, "bid_size"@),
            ask_size: integer_field(json, "ask_size"@),
        }
    }

    /// What the record is written as: an object with all four members.
    pub open spec fn encode(self) -> JsonView {
        JsonView::Object(
            Seq::empty().push(("bid"@, double_json(self.bid))).push(
                ("ask"@, double_json(self.ask)),
            ).push(("bid_size"@, integer_json(self.bid_size))).push(
                ("ask_size"@, integer_json(self.ask_size)),
            ),
        )
    }

    /// Writing a record with finite prices and reading it back gives the record.
    pub proof fn law_round_trip(self)
        requires
            self.finite(),
        ensures
            LastQuote::decode(self.encode()) == self,
    {
        broadcast use lemma_lookup_push, lemma_lookup_empty;

        lemma_quote_keys();
    }

    /// The bid and the ask, where both are present; nothing where either is absent.
    pub fn bid_ask(&self) -> (r: Option<(Float64, Float64)>)
        ensures
            r == self.sides(),
            r is Some <==> self.bid is Some && self.ask is Some,
    {
        match (self.bid, self.ask) {
            (Some(bid), Some(ask)) => Some((bid, ask)),
            _ => None,
        }
    }

    pub fn from_json(json: &Json) -> (r: LastQuote)
        ensures
            r == LastQuote::decode(json@),
    {
        LastQuote {
            bid: read_double(json, "bid"),
            ask: read_double(json, "ask"),
            bid_size: read_integer(json, "bid_size"),
            ask_size: read_integer(json, "ask_size"),
        }
    }

    pub fn to_json(&self) -> (r: Json)
        ensures
            r@ == self.encode(),
    {
        let mut entries: Vec<(String, Json)> = Vec::new();
        put(&mut entries, "bid", write_double(self.bid));
        put(&mut entries, "ask", write_double(self.ask));
        put(&mut entries, "bid_size", write_integer(self.bid_size));
        put(&mut entries, "ask_size", write_integer(self.ask_size));
        Json::Object(entries)
    }
}

/// The most recent trade.
#[derive(Debug, Clone, Copy, PartialEq, Eq, Structural)]
pub struct LastTrade {
    pub price: Option<Float64>,
    pub size: Option<i64>,
}

/// The member names of a [`LastTrade`] differ.
pub proof fn lemma_trade_keys()
    ensures
        "price"@ != "size"@,
{
    reveal_strlit("price");
    reveal_strlit("size");
    assert("price"@.len() == 5 && "size"@.len() == 4);
}

impl LastTrade {
    /// The price, where it is present, is finite.
    pub open spec fn finite(self) -> bool {
        writable(self.price)
    }

    /// What a JSON value reads as.
    pub open spec fn decode(json: JsonView) -> LastTrade {
        LastTrade { price: double_field(json, "price"@), size: integer_field(json, "size"@) }
    }

    /// What the record is written as: an object with both members.
    pub open spec fn encode(self) -> JsonView {
        JsonView::Object(
            Seq::empty().push(("price"@, double_json(self.price))).push(
                ("size"@, integer_json(self.size)),
            ),
        )
    }

    /// Writing a record with a finite price and reading it back gives the record.
    pub proof fn law_round_trip(self)
        requires
            self.finite(),
        ensures
            LastTrade::decode(self.encode()) == self,
    {
        broadcast use lemma_lookup_push, lemma_lookup_empty;

        lemma_trade_keys();
    }

    pub fn from_json(json: &Json) -> (r: LastTrade)
        ensures
            r == LastTrade::decode(json@),
    {
        LastTrade { price: read_double(json, "price"), size: read_integer(json, "size") }
    }

    pub fn to_json(&self) -> (r: Json)
        ensures
            r@ == self.encode(),
    {
        let mut entries: Vec<(String, Json)> = Vec::new();
        put(&mut entries, "price", write_double(self.price));
        put(&mut entries, "size", write_integer(self.size));
        Json::Object(entries)
    }
}

/// The day's bar: open, high, low, close and volume.
#[derive(Debug, Clone, Copy, PartialEq, Eq, Structural)]
pub struct DayBar {
    pub open: Option<Float64>,
    pub high: Option<Float64>,
    pub low: Option<Float64>,
    pub close: Option<Float64>,
    pub volume: Option<i64>,
}

/// The member names of a [`DayBar`] differ from one another.
pub proof fn lemma_bar_keys()
    ensures
        "open"@ != "high"@,
        "open"@ != "low"@,
        "open"@ != "close"@,
        "open"@ != "volume"@,
        "high"@ != "low"@,
        "high"@ != "close"@,
        "high"@ != "volume"@,
        "low"@ != "close"@,
        "low"@ != "volume"@,
        "close"@ != "volume"@,
{
    reveal_strlit("open");
    reveal_strlit("high");
    reveal_strlit("low");
    reveal_strlit("close");
    reveal_strlit("volume");
    assert("open"@.len() == 4 && "high"@.len() == 4 && "low"@.len() == 3);
    assert("close"@.len() == 5 && "volume"@.len() == 6);
    assert("open"@[0] == 'o' && "high"@[0] == 'h');
}

impl DayBar {
    /// The four prices, where they are present, are finite.
    pub open spec fn finite(self) -> bool {
        writable(self.open) && writable(self.high) && writable(self.low) && writable(self.close)
    }

    /// What a JSON value reads as.
    pub open spec fn decode(json: JsonView) -> DayBar {
        DayBar {
            open: double_field(json, "open"@),
            high: double_field(json, "high"@),
            low: double_field(json, "low"@),
            close: double_field(json, "close"@),
            volume: integer_field(json, "volume"@),
        }
    }

    /// What the record is written as: an object with all five members.
    pub open spec fn encode(self) -> JsonView {
        JsonView::Object(
            Seq::empty().push(("open"@, double_json(self.open))).push(
                ("high"@, double_json(self.high)),
            ).push(("low"@, double_json(self.low))).push(("close"@, double_json(self.close))).push(
                ("volume"@, integer_json(self.volume)),
            ),
        )
    }

    /// Writing a record with finite prices and reading it back gives the record.
    pub proof fn law_round_trip(self)
        requires
            self.finite(),
        ensures
            DayBar::decode(self.encode()) == self,
    {
        broadcast use lemma_lookup_push, lemma_lookup_empty;

        lemma_bar_keys();
    }

    pub fn from_json(json: &Json) -> (r: DayBar)
        ensures
            r == DayBar::decode(json@),
    {
        DayBar {
            open: read_double(json, "open"),
            high: read_double(json, "high"),
            low: read_double(json, "low"),
            close: read_double(json, "close"),
            volume: read_integer(json, "volume"),
        }
    }

    pub fn to_json(&self) -> (r: Json)
        ensures
            r@ == self.encode(),
    {
        let mut entries: Vec<(String, Json)> = Vec::new();
        put(&mut entries, "open", write_double(self.open));
        put(&mut entries, "high", write_double(self.high));
        put(&mut entries, "low", write_double(self.low));
        put(&mut entries, "close", write_double(self.close));
        put(&mut entries, "volume", write_integer(self.volume));
        Json::Object(entries)
    }
}

/// The security that the contract is written on.
#[derive(Debug, Clone, PartialEq)]
pub struct UnderlyingAsset {
    pub ticker: Option<String>,
    pub price: Option<Float64>,
}

/// The mathematical value of an [`UnderlyingAsset`].
pub struct UnderlyingAssetView {
    pub ticker: Option<Seq<char>>,
    pub price: Option<Float64>,
}

impl View for UnderlyingAsset {
    type V = UnderlyingAssetView;

    open spec fn view(&self) -> UnderlyingAssetView {
        UnderlyingAssetView { ticker: text_view(self.ticker), price: self.price }
    }
}

/// The member names of an [`UnderlyingAsset`] differ.
pub proof fn lemma_asset_keys()
    ensures
        "ticker"@ != "price"@,
{
    reveal_strlit("ticker");
    reveal_strlit("price");
    assert("ticker"@.len() == 6 && "price"@.len() == 5);
}

impl UnderlyingAssetView {
    /// The price, where it is present, is finite.
    pub open spec fn finite(self) -> bool {
        writable(self.price)
    }

    /// What a JSON value reads as.
    pub open spec fn decode(json: JsonView) -> UnderlyingAssetView {
        UnderlyingAssetView {
            ticker: text_field(json, "ticker"@),
            price: double_field(json, "price"@),
        }
    }

    /// What the record is written as: an object with both members.
    pub open spec fn encode(self) -> JsonView {
        JsonView::Object(
            Seq::empty().push(("ticker"@, text_json(self.ticker))).push(
                ("price"@, double_json(self.price)),
            ),
        )
    }

    /// Writing a record with a finite price and reading it back gives the record.
    pub proof fn law_round_trip(self)
        requires
            self.finite(),
        ensures
            UnderlyingAssetView::decode(self.encode()) == self,
    {
        broadcast use lemma_lookup_push, lemma_lookup_empty;

        lemma_asset_keys();
    }
}

impl UnderlyingAsset {
    pub fn from_json(json: &Json) -> (r: UnderlyingAsset)
        ensures
            r@ == UnderlyingAssetView::decode(json@),
    {
        UnderlyingAsset { ticker: read_text(json, "ticker"), price: read_double(json, "price") }
    }

    pub fn to_json(&self) -> (r: Json)
        ensures
            r@ == self@.encode(),
    {
        let mut entries: Vec<(String, Json)> = Vec::new();
        put(&mut entries, "ticker", write_text(&self.ticker));
        put(&mut entries, "price", write_double(self.price));
        Json::Object(entries)
    }
}

} // verus!
