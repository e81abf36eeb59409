//! The news response mapper: one decoded tree to one typed `News`
//! record, or a fatal mapping error for that one query.

use vstd::prelude::*;
use crate::article::Article;
use crate::article::ArticleView;
use crate::article::article_view;
use crate::article::spec_article_of;
use crate::error::FieldName;
use crate::error::MappingError;
use crate::error::MappingErrorView;
use crate::json::JsonValue;
use crate::json::get_field;
use crate::json::lookup_field;
use crate::json::obj_fields;
use crate::status::Status;
use crate::status::status_of;

verus! {

/// One news query's outcome: the upstream-reported status, the total
/// count the API claims (which may exceed the articles delivered, if the
/// upstream paginates), and the articles in response order.
#[derive(Debug, PartialEq, Eq)]
pub struct News {
    pub status: Status,
    pub total_results: u64,
    pub articles: Vec<Article>,
}

/// The mathematical model of a [`News`] record.
pub struct NewsView {
    pub status: Status,
    pub total_results: u64,
    pub articles: Seq<ArticleView>,
}

impl View for News {
    type V = NewsView;

    open spec fn view(&self) -> NewsView {
        NewsView {
            status: self.status,
            total_results: self.total_results,
            articles: self.articles@.map_values(|a: Article| a@),
        }
    }
}

/// What mapping a decoded tree yields: the status interpreted against
/// its exact vocabulary, `totalResults` as an unsigned integer,
/// `articles` as an array mapped element by element in order; a missing
/// or mistyped required field is fatal, read in that order.
pub open spec fn spec_map_news(v: JsonValue) -> Result<NewsView, MappingErrorView> {
    let fields = obj_fields(v);
    match lookup_field(fields, "status"@) {
        Some(JsonValue::Str(s)) => match status_of(s@) {
            Some(st) => match lookup_field(fields, "totalResults"@) {
                Some(JsonValue::Num(Some(n))) => match lookup_field(fields, "articles"@) {
                    Some(JsonValue::Arr(items)) => Ok(
                        NewsView {
                            status: st,
                            total_results: n,
                            articles: items@.map_values(|e: JsonValue| spec_article_of(e)),
                        },
                    ),
                    _ => Err(MappingErrorView::FieldType(FieldName::Articles)),
                },
                _ => Err(MappingErrorView::FieldType(FieldName::TotalResults)),
            },
            None => Err(MappingErrorView::StatusParse(s@)),
        },
        _ => Err(MappingErrorView::FieldType(FieldName::Status)),
    }
}

/// The model of a mapping outcome: the record's view on success, the
/// error's view on failure.
pub open spec fn news_result_view(r: Result<News, MappingError>) -> Result<
    NewsView,
    MappingErrorView,
> {
    match r {
        Ok(n) => Ok(n@),
        Err(e) => Err(e@),
    }
}

impl News {
    /// An empty record with the given status and total count.
    pub fn new(status: Status, total_results: u64) -> (n: News)
        ensures
            n@.status == status,
            n@.total_results == total_results,
            n@.articles == Seq::<ArticleView>::empty(),
    {
        let articles: Vec<Article> = Vec::new();
        proof {
            assert(articles@.map_values(|a: Article| a@) =~= Seq::<ArticleView>::empty());
        }
        News { status, total_results, articles }
    }

    /// Append an already-built article, keeping response order.
    pub fn push_article(&mut self, a: Article)
        ensures
            final(self)@.status == old(self)@.status,
            final(self)@.total_results == old(self)@.total_results,
            final(self)@.articles == old(self)@.articles.push(a@),
    {
        self.articles.push(a);
        proof {
            old(self).articles@.lemma_push_map_commute(|x: Article| x@, a);
        }
    }

    /// Build an article from its seven field values and append it,
    /// keeping insertion order.
    pub fn add_article(
        &mut self,
        source_name: String,
        author: String,
        title: String,
        desc: String,
        url: String,
        published_at: String,
        content: String,
    )
        ensures
            final(self)@.status == old(self)@.status,
            final(self)@.total_results == old(self)@.total_results,
            final(self)@.articles == old(self)@.articles.push(
                article_view(
                    source_name@,
                    author@,
                    title@,
                    desc@,
                    url@,
                    published_at@,
                    content@,
                ),
            ),
    {
        let a = Article::new(source_name, author, title, desc, url, published_at, content);
        self.push_article(a);
    }

    /// How many articles the record holds.
    pub fn get_num_articles(&self) -> (n: usize)
        ensures
            n == self@.articles.len(),
    {
        self.articles.len()
    }

    /// The article at `i`, for a consumer iterating in stored order.
    pub fn article_at(&self, i: usize) -> (a: &Article)
        requires
            i < self@.articles.len(),
        ensures
            a@ == self@.articles[i as int],
    {
        &self.articles[i]
    }
}

/// Map a decoded news-search tree to a typed record.
///
/// Required fields fail fatally when missing or mistyped; per-article
/// string fields are read tolerantly and a bad timestamp never costs
/// more than that one article's derived epoch.
pub fn map_news(v: &JsonValue) -> (r: Result<News, MappingError>)
    ensures
        news_result_view(r) == spec_map_news(*v),
{
    let fields: &Vec<(String, JsonValue)> = match v {
        JsonValue::Obj(fields) => fields,
        _ => {
            return Err(MappingError::FieldType(FieldName::Status));
        },
    };
    let st: Status = match get_field(fields, "status") {
        Some(JsonValue::Str(s)) => match Status::parse(s.as_str()) {
            Ok(st) => st,
            Err(e) => {
                return Err(e);
            },
        },
        _ => {
            return Err(MappingError::FieldType(FieldName::Status));
        },
    };
    let total: u64 = match get_field(fields, "totalResults") {
        Some(JsonValue::Num(Some(n))) => *n,
        _ => {
            return Err(MappingError::FieldType(FieldName::TotalResults));
        },
    };
    let items: &Vec<JsonValue> = match get_field(fields, "articles") {
        Some(JsonValue::Arr(items)) => items,
        _ => {
            return Err(MappingError::FieldType(FieldName::Articles));
        },
    };
    let ghost f = |e: JsonValue| spec_article_of(e);
    let mut news = News::new(st, total);
    let n_items = items.len();
    let mut i: usize = 0;
    while i < n_items
        invariant
            n_items == items@.len(),
            0 <= i <= n_items,
            f == (|e: JsonValue| spec_article_of(e)),
            news@.status == st,
            news@.total_results == total,
            news@.articles == items@.take(i as int).map_values(f),
        decreases n_items - i,
    {
        let a = Article::from_json(&items[i]);
        news.push_article(a);
        proof {
            items@.lemma_map_take_succ(f, i as int);
        }
        i += 1;
    }
    proof {
        assert(items@.take(n_items as int) =~= items@);
    }
    Ok(news)
}

} // verus!
