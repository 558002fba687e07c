//! The sensitivities of an option's price.

use crate::codec::{
    double_field, double_json, lemma_lookup_empty, lemma_lookup_push, put, read_double, writable,
    write_double,
};
use crate::float::Float64;
use crate::json::{Json, JsonView};
use vstd::prelude::*;

verus! {

/// Delta, gamma, theta and vega, each present or not.
#[derive(Debug, Clone, Copy, PartialEq, Eq, Structural)]
pub struct Greeks {
    pub delta: Option<Float64>,
    pub gamma: Option<Float64>,
    pub theta: Option<Float64>,
    pub vega: Option<Float64>,
}

/// The four member names differ from one another.
pub proof fn lemma_greeks_keys()
    ensures
        "delta"@ != "gamma"@,
        "delta"@ != "theta"@,
        "delta"@ != "vega"@,
        "gamma"@ != "theta"@,
        "gamma"@ != "vega"@,
        "theta"@ != "vega"@,
{
    reveal_strlit("delta");
    reveal_strlit("gamma");
    reveal_strlit("theta");
    reveal_strlit("vega");
    assert("delta"@[0] == 'd');
    assert("gamma"@[0] == 'g');
    assert("theta"@[0] == 't');
    assert("vega"@.len() == 4 && "delta"@.len() == 5);
}

impl Greeks {
    /// All four are present.
    pub open spec fn complete(self) -> bool {
        self.delta is Some && self.gamma is Some && self.theta is Some && self.vega is Some
    }

    /// Every value that is present is finite.
    pub open spec fn finite(self) -> bool {
        writable(self.delta) && writable(self.gamma) && writable(self.theta) && writable(
            self.vega,
        )
    }

    /// What a JSON value reads as.
    pub open spec fn decode(json: JsonView) -> Greeks {
        Greeks {
            delta: double_field(json, "delta"@),
            gamma: double_field(json, "gamma"@),
            theta: double_field(json, "theta"@),
            vega: double_field(json, "vega"@),
        }
    }

    /// What the record is written as: an object with all four members.
    pub open spec fn encode(self) -> JsonView {
        JsonView::Object(
            Seq::empty().push(("delta"@, double_json(self.delta))).push(
                ("gamma"@, double_json(self.gamma)),
            ).push(("theta"@, double_json(self.theta))).push(("vega"@, double_json(self.vega))),
        )
    }

    /// Writing a record with finite values and reading it back gives the record.
    pub proof fn law_round_trip(self)
        requires
            self.finite(),
        ensures
            Greeks::decode(self.encode()) == self,
    {
        broadcast use lemma_lookup_push, lemma_lookup_empty;

        lemma_greeks_keys();
    }

    pub fn is_complete(&self) -> (r: bool)
        ensures
            r == self.complete(),
    {
        self.delta.is_some() && self.gamma.is_some() && self.theta.is_some()
            && self.vega.is_some()
    }

    pub fn from_json(json: &Json) -> (r: Greeks)
        ensures
            r == Greeks::decode(json@),
    {
        Greeks {
            delta: read_double(json, "delta"),
            gamma: read_double(json, "gamma"),
            theta: read_double(json, "theta"),
            vega: read_double(json, "vega"),
        }
    }

    pub fn to_json(&self) -> (r: Json)
        ensures
            r@ == self.encode(),
    {
        let mut entries: Vec<(String, Json)> = Vec::new();
        put(&mut entries, "delta", write_double(self.delta));
        put(&mut entries, "gamma", write_double(self.gamma));
        put(&mut entries, "theta", write_double(self.theta));
        put(&mut entries, "vega", write_double(self.vega));
        Json::Object(entries)
    }
}

} // verus!
