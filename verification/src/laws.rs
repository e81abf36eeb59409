//! Laws of the mapping layer, stated against the spec functions the
//! mappers' contracts use and proved once for all inputs.

use vstd::prelude::*;
use crate::article::spec_article_of;
use crate::error::FieldName;
use crate::error::MappingError;
use crate::error::MappingErrorView;
use crate::json::JsonValue;
use crate::json::field_str;
use crate::json::lookup_field;
use crate::json::obj_fields;
use crate::news::News;
use crate::news::NewsView;
use crate::news::news_result_view;
use crate::news::spec_map_news;
use crate::status::Status;
use crate::status::status_of;
use crate::symbol::SymbolMatch;
use crate::symbol::SymbolMatchView;
use crate::symbol::spec_map_symbols;
use crate::symbol::spec_symbol_of;
use crate::symbol::symbols_result_view;
use crate::timestamp::rfc3339_epoch;

verus! {

/// A decoded tree whose required news fields are all present and well
/// shaped: a string status that the vocabulary recognizes, an unsigned
/// integer totalResults, and an articles array.
pub open spec fn valid_news_payload(v: JsonValue) -> bool {
    &&& (lookup_field(obj_fields(v), "status"@) matches Some(JsonValue::Str(s))
        && status_of(s@) is Some)
    &&& (lookup_field(obj_fields(v), "totalResults"@) matches Some(JsonValue::Num(Some(_))))
    &&& (lookup_field(obj_fields(v), "articles"@) matches Some(JsonValue::Arr(_)))
}

/// Mapping any valid news payload succeeds: a fatal error can only come
/// from a missing or mistyped required field or an unrecognized status,
/// never from article content.
pub proof fn lemma_valid_payload_succeeds(v: JsonValue)
    requires
        valid_news_payload(v),
    ensures
        spec_map_news(v) is Ok,
{
}

/// Mapping a valid news payload succeeds, interprets the status against
/// its vocabulary, takes totalResults as reported, and maps the articles
/// array element by element in input order.
pub proof fn lemma_valid_news_payload_maps(v: JsonValue, s: String, n: u64, items: Vec<JsonValue>)
    requires
        lookup_field(obj_fields(v), "status"@) == Some(JsonValue::Str(s)),
        status_of(s@) is Some,
        lookup_field(obj_fields(v), "totalResults"@) == Some(JsonValue::Num(Some(n))),
        lookup_field(obj_fields(v), "articles"@) == Some(JsonValue::Arr(items)),
    ensures
        spec_map_news(v) matches Ok(nv) && {
            &&& status_of(s@) == Some(nv.status)
            &&& nv.total_results == n
            &&& nv.articles.len() == items@.len()
            &&& forall|i: int|
                0 <= i < items@.len() ==> nv.articles[i] == spec_article_of(#[trigger] items@[i])
        },
{
}

/// A valid news payload whose status is the literal "ok" maps to a
/// record whose status is `Okay`.
pub proof fn lemma_news_status_ok(v: JsonValue, s: String, n: u64, items: Vec<JsonValue>)
    requires
        lookup_field(obj_fields(v), "status"@) == Some(JsonValue::Str(s)),
        s@ == "ok"@,
        lookup_field(obj_fields(v), "totalResults"@) == Some(JsonValue::Num(Some(n))),
        lookup_field(obj_fields(v), "articles"@) == Some(JsonValue::Arr(items)),
    ensures
        spec_map_news(v) matches Ok(nv) && nv.status == Status::Okay,
{
}

/// A valid news payload whose status is the literal "error" still maps
/// successfully — the upstream reporting an error state is not itself a
/// mapping failure — and the record's status is `Error`.
pub proof fn lemma_news_status_error(v: JsonValue, s: String, n: u64, items: Vec<JsonValue>)
    requires
        lookup_field(obj_fields(v), "status"@) == Some(JsonValue::Str(s)),
        s@ == "error"@,
        lookup_field(obj_fields(v), "totalResults"@) == Some(JsonValue::Num(Some(n))),
        lookup_field(obj_fields(v), "articles"@) == Some(JsonValue::Arr(items)),
    ensures
        spec_map_news(v) matches Ok(nv) && nv.status == Status::Error,
{
    reveal_strlit("ok");
    reveal_strlit("error");
    assert("ok"@.len() == 2);
    assert("error"@.len() == 5);
    assert(s@ != "ok"@);
}

/// A status string outside the recognized vocabulary fails the whole
/// mapping with a status parse error carrying the offending raw value.
pub proof fn lemma_news_status_unrecognized(v: JsonValue, s: String)
    requires
        lookup_field(obj_fields(v), "status"@) == Some(JsonValue::Str(s)),
        status_of(s@) is None,
    ensures
        spec_map_news(v) == Err::<NewsView, MappingErrorView>(
            MappingErrorView::StatusParse(s@),
        ),
{
}

/// Mapping preserves the article count: the record holds exactly one
/// article per element of the input array, the empty array included.
pub proof fn lemma_news_article_count(v: JsonValue, s: String, n: u64, items: Vec<JsonValue>)
    requires
        lookup_field(obj_fields(v), "status"@) == Some(JsonValue::Str(s)),
        status_of(s@) is Some,
        lookup_field(obj_fields(v), "totalResults"@) == Some(JsonValue::Num(Some(n))),
        lookup_field(obj_fields(v), "articles"@) == Some(JsonValue::Arr(items)),
    ensures
        spec_map_news(v) matches Ok(nv) && nv.articles.len() == items@.len(),
{
}

/// Mapping preserves article order: the i-th article's title is read
/// from the i-th element of the input array.
pub proof fn lemma_news_article_order(v: JsonValue, s: String, n: u64, items: Vec<JsonValue>)
    requires
        lookup_field(obj_fields(v), "status"@) == Some(JsonValue::Str(s)),
        status_of(s@) is Some,
        lookup_field(obj_fields(v), "totalResults"@) == Some(JsonValue::Num(Some(n))),
        lookup_field(obj_fields(v), "articles"@) == Some(JsonValue::Arr(items)),
    ensures
        spec_map_news(v) matches Ok(nv) && forall|i: int|
            0 <= i < items@.len() ==> nv.articles[i].title == field_str(
                obj_fields(#[trigger] items@[i]),
                "title"@,
            ),
{
}

/// An article whose author field is null or absent maps to an empty
/// author, and every other field is still read from its own key alone.
pub proof fn lemma_absent_author_empty(e: JsonValue)
    requires
        lookup_field(obj_fields(e), "author"@) is None || lookup_field(obj_fields(e), "author"@)
            == Some(JsonValue::Null),
    ensures
        spec_article_of(e).author == Seq::<char>::empty(),
        spec_article_of(e).title == field_str(obj_fields(e), "title"@),
        spec_article_of(e).desc == field_str(obj_fields(e), "description"@),
        spec_article_of(e).url == field_str(obj_fields(e), "url"@),
        spec_article_of(e).published_at == field_str(obj_fields(e), "publishedAt"@),
        spec_article_of(e).content == field_str(obj_fields(e), "content"@),
{
}

/// A non-empty publishedAt that does not parse as RFC 3339 is kept
/// verbatim and only the derived epoch is left unset; the article itself
/// is still produced (the count law above is unconditional on timestamp
/// quality).
pub proof fn lemma_bad_timestamp_kept(e: JsonValue, s: String)
    requires
        lookup_field(obj_fields(e), "publishedAt"@) == Some(JsonValue::Str(s)),
        s@.len() > 0,
        rfc3339_epoch(s@) is None,
    ensures
        spec_article_of(e).published_at == s@,
        spec_article_of(e).epoch is None,
{
}

/// A payload whose status is well formed but which lacks totalResults —
/// or holds it in any shape but an unsigned integer — fails mapping with
/// a field type error naming totalResults.
pub proof fn lemma_news_missing_total_results(v: JsonValue, s: String)
    requires
        lookup_field(obj_fields(v), "status"@) == Some(JsonValue::Str(s)),
        status_of(s@) is Some,
        !(lookup_field(obj_fields(v), "totalResults"@) matches Some(JsonValue::Num(Some(_)))),
    ensures
        spec_map_news(v) == Err::<NewsView, MappingErrorView>(
            MappingErrorView::FieldType(FieldName::TotalResults),
        ),
{
}

/// Mapping a bestMatches array succeeds and maps it element by element
/// in input order.
pub proof fn lemma_symbols_valid_payload_maps(v: JsonValue, items: Vec<JsonValue>)
    requires
        lookup_field(obj_fields(v), "bestMatches"@) == Some(JsonValue::Arr(items)),
    ensures
        spec_map_symbols(v) matches Ok(ms) && {
            &&& ms.len() == items@.len()
            &&& forall|i: int|
                0 <= i < items@.len() ==> ms[i] == spec_symbol_of(#[trigger] items@[i])
        },
{
}

/// A payload whose bestMatches is absent or anything but an array fails
/// with a field type error naming bestMatches.
pub proof fn lemma_symbols_requires_array(v: JsonValue)
    requires
        !(lookup_field(obj_fields(v), "bestMatches"@) matches Some(JsonValue::Arr(_))),
    ensures
        spec_map_symbols(v) == Err::<Seq<SymbolMatchView>, MappingErrorView>(
            MappingErrorView::FieldType(FieldName::BestMatches),
        ),
{
}

/// News mapping is deterministic: any two results of mapping the same
/// decoded tree are structurally equal.
pub proof fn lemma_news_mapping_deterministic(
    v: JsonValue,
    r1: Result<News, MappingError>,
    r2: Result<News, MappingError>,
)
    requires
        news_result_view(r1) == spec_map_news(v),
        news_result_view(r2) == spec_map_news(v),
    ensures
        news_result_view(r1) == news_result_view(r2),
{
}

/// Symbol mapping is deterministic: any two results of mapping the same
/// decoded tree are structurally equal.
pub proof fn lemma_symbols_mapping_deterministic(
    v: JsonValue,
    r1: Result<Vec<SymbolMatch>, MappingError>,
    r2: Result<Vec<SymbolMatch>, MappingError>,
)
    requires
        symbols_result_view(r1) == spec_map_symbols(v),
        symbols_result_view(r2) == spec_map_symbols(v),
    ensures
        symbols_result_view(r1) == symbols_result_view(r2),
{
}

} // verus!
