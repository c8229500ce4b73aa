//! The centralized mapping tables between the three order vocabularies.
//!
//! The bridge speaks a closed six-tag vocabulary (`OP_BUY` … `OP_SELLSTOP`)
//! and a numeric action code for each tag; positions come back with a
//! two-valued direction code; the plugin vocabulary is a (side, order-type)
//! pair of which only the market, limit and stop kinds are supported.
//! Every translation between them stands here, and nowhere else.

use vstd::prelude::*;
use crate::text::str_eq;

verus! {

/// Order side in the plugin vocabulary.
#[derive(Clone, Copy, Debug, PartialEq, Eq, Structural)]
pub enum OrderSide {
    Buy,
    Sell,
}

/// Order type in the plugin vocabulary.
#[derive(Clone, Copy, Debug, PartialEq, Eq, Structural)]
pub enum OrderType {
    Market,
    Limit,
    Stop,
    StopLimit,
    TakeProfit,
    StopLoss,
}

/// The numeric action code of an order-type tag, for the six tags of the
/// closed set; any other tag has none.
pub open spec fn spec_action_of(tag: Seq<char>) -> Option<u32> {
    if tag == "OP_BUY"@ {
        Some(0u32)
    } else if tag == "OP_SELL"@ {
        Some(1u32)
    } else if tag == "OP_BUYLIMIT"@ {
        Some(2u32)
    } else if tag == "OP_SELLLIMIT"@ {
        Some(3u32)
    } else if tag == "OP_BUYSTOP"@ {
        Some(4u32)
    } else if tag == "OP_SELLSTOP"@ {
        Some(5u32)
    } else {
        None
    }
}

/// Map an order-type tag to its action code; tags outside the closed set
/// have no code.
pub fn action_of_tag(tag: &str) -> (r: Option<u32>)
    ensures
        r == spec_action_of(tag@),
{
    if str_eq(tag, "OP_BUY") {
        Some(0)
    } else if str_eq(tag, "OP_SELL") {
        Some(1)
    } else if str_eq(tag, "OP_BUYLIMIT") {
        Some(2)
    } else if str_eq(tag, "OP_SELLLIMIT") {
        Some(3)
    } else if str_eq(tag, "OP_BUYSTOP") {
        Some(4)
    } else if str_eq(tag, "OP_SELLSTOP") {
        Some(5)
    } else {
        None
    }
}

/// The direction tag of a numeric position-type code: zero is a buy,
/// anything else a sell. Positions carry only a direction, never a
/// resting or pending state; that is why this table is coarser than the
/// six-tag order table.
pub open spec fn spec_position_tag(code: u32) -> Seq<char> {
    if code == 0 {
        "OP_BUY"@
    } else {
        "OP_SELL"@
    }
}

pub fn position_tag_of_code(code: u32) -> (r: String)
    ensures
        r@ == spec_position_tag(code),
{
    if code == 0 {
        String::from_str("OP_BUY")
    } else {
        String::from_str("OP_SELL")
    }
}

/// The bridge tag of a plugin (side, order-type) pair. Only the market,
/// limit and stop kinds are supported, each in both directions.
pub open spec fn spec_pair_tag(side: OrderSide, kind: OrderType) -> Option<Seq<char>> {
    match (side, kind) {
        (OrderSide::Buy, OrderType::Market) => Some("OP_BUY"@),
        (OrderSide::Sell, OrderType::Market) => Some("OP_SELL"@),
        (OrderSide::Buy, OrderType::Limit) => Some("OP_BUYLIMIT"@),
        (OrderSide::Sell, OrderType::Limit) => Some("OP_SELLLIMIT"@),
        (OrderSide::Buy, OrderType::Stop) => Some("OP_BUYSTOP"@),
        (OrderSide::Sell, OrderType::Stop) => Some("OP_SELLSTOP"@),
        _ => None,
    }
}

pub fn pair_tag(side: OrderSide, kind: OrderType) -> (r: Option<String>)
    ensures
        ({
            match r {
                Some(t) => spec_pair_tag(side, kind) == Some(t@),
                None => spec_pair_tag(side, kind) is None,
            }
        }),
{
    match (side, kind) {
        (OrderSide::Buy, OrderType::Market) => Some(String::from_str("OP_BUY")),
        (OrderSide::Sell, OrderType::Market) => Some(String::from_str("OP_SELL")),
        (OrderSide::Buy, OrderType::Limit) => Some(String::from_str("OP_BUYLIMIT")),
        (OrderSide::Sell, OrderType::Limit) => Some(String::from_str("OP_SELLLIMIT")),
        (OrderSide::Buy, OrderType::Stop) => Some(String::from_str("OP_BUYSTOP")),
        (OrderSide::Sell, OrderType::Stop) => Some(String::from_str("OP_SELLSTOP")),
        _ => None,
    }
}

/// The six tags of the closed set are pairwise distinct.
proof fn lemma_tags_distinct()
    ensures
        "OP_BUY"@ != "OP_SELL"@,
        "OP_BUY"@ != "OP_BUYLIMIT"@,
        "OP_BUY"@ != "OP_SELLLIMIT"@,
        "OP_BUY"@ != "OP_BUYSTOP"@,
        "OP_BUY"@ != "OP_SELLSTOP"@,
        "OP_SELL"@ != "OP_BUYLIMIT"@,
        "OP_SELL"@ != "OP_SELLLIMIT"@,
        "OP_SELL"@ != "OP_BUYSTOP"@,
        "OP_SELL"@ != "OP_SELLSTOP"@,
        "OP_BUYLIMIT"@ != "OP_SELLLIMIT"@,
        "OP_BUYLIMIT"@ != "OP_BUYSTOP"@,
        "OP_BUYLIMIT"@ != "OP_SELLSTOP"@,
        "OP_SELLLIMIT"@ != "OP_BUYSTOP"@,
        "OP_SELLLIMIT"@ != "OP_SELLSTOP"@,
        "OP_BUYSTOP"@ != "OP_SELLSTOP"@,
{
    reveal_strlit("OP_BUY");
    reveal_strlit("OP_SELL");
    reveal_strlit("OP_BUYLIMIT");
    reveal_strlit("OP_SELLLIMIT");
    reveal_strlit("OP_BUYSTOP");
    reveal_strlit("OP_SELLSTOP");
    assert("OP_BUY"@.len() == 6);
    assert("OP_SELL"@.len() == 7);
    assert("OP_BUYLIMIT"@.len() == 11);
    assert("OP_SELLLIMIT"@.len() == 12);
    assert("OP_BUYSTOP"@.len() == 10);
    assert("OP_SELLSTOP"@.len() == 11);
    assert("OP_BUYLIMIT"@[3] == 'B');
    assert("OP_SELLSTOP"@[3] == 'S');
}

/// The action table, whole: each tag of the closed set has exactly its
/// documented code, and a tag outside the set has none.
pub proof fn lemma_action_table()
    ensures
        spec_action_of("OP_BUY"@) == Some(0u32),
        spec_action_of("OP_SELL"@) == Some(1u32),
        spec_action_of("OP_BUYLIMIT"@) == Some(2u32),
        spec_action_of("OP_SELLLIMIT"@) == Some(3u32),
        spec_action_of("OP_BUYSTOP"@) == Some(4u32),
        spec_action_of("OP_SELLSTOP"@) == Some(5u32),
        forall|tag: Seq<char>|
            #[trigger] spec_action_of(tag) is None <==> (tag != "OP_BUY"@ && tag != "OP_SELL"@
                && tag != "OP_BUYLIMIT"@ && tag != "OP_SELLLIMIT"@ && tag != "OP_BUYSTOP"@
                && tag != "OP_SELLSTOP"@),
{
    lemma_tags_distinct();
    reveal_strlit("OP_BUY");
    reveal_strlit("OP_SELL");
    reveal_strlit("OP_BUYLIMIT");
    reveal_strlit("OP_SELLLIMIT");
    reveal_strlit("OP_BUYSTOP");
    reveal_strlit("OP_SELLSTOP");
}

/// The plugin pair table, whole: a pair is supported exactly when its
/// kind is market, limit or stop, and every supported pair maps to a tag
/// of the closed set with the matching action code.
pub proof fn lemma_pair_table()
    ensures
        forall|side: OrderSide, kind: OrderType|
            #[trigger] spec_pair_tag(side, kind) is None <==> (kind == OrderType::StopLimit
                || kind == OrderType::TakeProfit || kind == OrderType::StopLoss),
        forall|side: OrderSide, kind: OrderType|
            #[trigger] spec_pair_tag(side, kind) matches Some(tag) ==> spec_action_of(tag)
                is Some,
{
    lemma_tags_distinct();
    reveal_strlit("OP_BUY");
    reveal_strlit("OP_SELL");
    reveal_strlit("OP_BUYLIMIT");
    reveal_strlit("OP_SELLLIMIT");
    reveal_strlit("OP_BUYSTOP");
    reveal_strlit("OP_SELLSTOP");
    assert forall|side: OrderSide, kind: OrderType|
        #[trigger] spec_pair_tag(side, kind) is None implies (kind == OrderType::StopLimit
        || kind == OrderType::TakeProfit || kind == OrderType::StopLoss) by {
    }
}

} // verus!
