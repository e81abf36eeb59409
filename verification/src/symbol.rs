//! The symbol response mapper: one decoded tree to an ordered sequence
//! of stock-symbol matches.

use vstd::prelude::*;
use crate::error::FieldName;
use crate::error::MappingError;
use crate::error::MappingErrorView;
use crate::json::JsonValue;
use crate::json::field_str;
use crate::json::get_field;
use crate::json::get_str_field;
use crate::json::lookup_field;
use crate::json::obj_fields;

verus! {

/// One stock-symbol search hit. A missing or null field is the empty
/// string, the same partial-data tolerance the news mapper applies.
#[derive(Debug, PartialEq, Eq)]
pub struct SymbolMatch {
    pub symbol: String,
    pub name: String,
}

/// The mathematical model of a [`SymbolMatch`].
pub struct SymbolMatchView {
    pub symbol: Seq<char>,
    pub name: Seq<char>,
}

impl View for SymbolMatch {
    type V = SymbolMatchView;

    open spec fn view(&self) -> SymbolMatchView {
        SymbolMatchView { symbol: self.symbol@, name: self.name@ }
    }
}

/// The match one element of the bestMatches array maps to.
pub open spec fn spec_symbol_of(v: JsonValue) -> SymbolMatchView {
    let fields = obj_fields(v);
    SymbolMatchView { symbol: field_str(fields, "symbol"@), name: field_str(fields, "name"@) }
}

/// What mapping a symbol-search tree yields: `bestMatches` as an array,
/// mapped element by element in order; its absence or any other shape is
/// fatal.
pub open spec fn spec_map_symbols(v: JsonValue) -> Result<Seq<SymbolMatchView>, MappingErrorView> {
    match lookup_field(obj_fields(v), "bestMatches"@) {
        Some(JsonValue::Arr(items)) => Ok(items@.map_values(|e: JsonValue| spec_symbol_of(e))),
        _ => Err(MappingErrorView::FieldType(FieldName::BestMatches)),
    }
}

/// The model of a symbol mapping outcome.
pub open spec fn symbols_result_view(r: Result<Vec<SymbolMatch>, MappingError>) -> Result<
    Seq<SymbolMatchView>,
    MappingErrorView,
> {
    match r {
        Ok(ms) => Ok(ms@.map_values(|m: SymbolMatch| m@)),
        Err(e) => Err(e@),
    }
}

impl SymbolMatch {
    /// Map one element of the bestMatches array to a match.
    pub fn from_json(v: &JsonValue) -> (m: SymbolMatch)
        ensures
            m@ == spec_symbol_of(*v),
    {
        match v {
            JsonValue::Obj(fields) => SymbolMatch {
                symbol: get_str_field(fields, "symbol"),
                name: get_str_field(fields, "name"),
            },
            _ => SymbolMatch { symbol: String::new(), name: String::new() },
        }
    }
}

/// Map a decoded symbol-search tree to its ordered sequence of matches.
pub fn map_symbols(v: &JsonValue) -> (r: Result<Vec<SymbolMatch>, MappingError>)
    ensures
        symbols_result_view(r) == spec_map_symbols(*v),
{
    let fields: &Vec<(String, JsonValue)> = match v {
        JsonValue::Obj(fields) => fields,
        _ => {
            return Err(MappingError::FieldType(FieldName::BestMatches));
        },
    };
    let items: &Vec<JsonValue> = match get_field(fields, "bestMatches") {
        Some(JsonValue::Arr(items)) => items,
        _ => {
            return Err(MappingError::FieldType(FieldName::BestMatches));
        },
    };
    let ghost f = |e: JsonValue| spec_symbol_of(e);
    let ghost g = |m: SymbolMatch| m@;
    let mut out: Vec<SymbolMatch> = Vec::new();
    let n_items = items.len();
    let mut i: usize = 0;
    proof {
        assert(out@.map_values(g) =~= items@.take(0).map_values(f));
    }
    while i < n_items
        invariant
            n_items == items@.len(),
            0 <= i <= n_items,
            f == (|e: JsonValue| spec_symbol_of(e)),
            g == (|m: SymbolMatch| m@),
            out@.map_values(g) == items@.take(i as int).map_values(f),
        decreases n_items - i,
    {
        let m = SymbolMatch::from_json(&items[i]);
        proof {
            out@.lemma_push_map_commute(g, m);
            items@.lemma_map_take_succ(f, i as int);
        }
        out.push(m);
        i += 1;
    }
    proof {
        assert(items@.take(n_items as int) =~= items@);
    }
    Ok(out)
}

} // verus!
