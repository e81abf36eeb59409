//! One news result: the Article record and its extraction from a
//! decoded tree.

use vstd::prelude::*;
use vstd::string::StringExecFns;
use crate::json::JsonValue;
use crate::json::get_field;
use crate::json::get_str_field;
use crate::json::obj_fields;
use crate::json::lookup_field;
use crate::json::field_str;
use crate::timestamp::epoch_of;
use crate::timestamp::rfc3339_to_epoch;

verus! {

/// One news article. String fields are stored as the payload gave them,
/// a missing or null field as the empty string; `epoch` is the derived
/// Unix epoch seconds of `published_at`, unset where the timestamp is
/// empty or does not parse as RFC 3339.
#[derive(Debug, PartialEq, Eq)]
pub struct Article {
    pub source_name: String,
    pub author: String,
    pub title: String,
    pub desc: String,
    pub url: String,
    pub published_at: String,
    pub content: String,
    pub epoch: Option<i64>,
}

/// The mathematical model of an [`Article`].
pub struct ArticleView {
    pub source_name: Seq<char>,
    pub author: Seq<char>,
    pub title: Seq<char>,
    pub desc: Seq<char>,
    pub url: Seq<char>,
    pub published_at: Seq<char>,
    pub content: Seq<char>,
    pub epoch: Option<i64>,
}

impl View for Article {
    type V = ArticleView;

    open spec fn view(&self) -> ArticleView {
        ArticleView {
            source_name: self.source_name@,
            author: self.author@,
            title: self.title@,
            desc: self.desc@,
            url: self.url@,
            published_at: self.published_at@,
            content: self.content@,
            epoch: self.epoch,
        }
    }
}

/// The article a construction from these seven field values yields: the
/// strings as given, the epoch derived from the timestamp.
pub open spec fn article_view(
    source_name: Seq<char>,
    author: Seq<char>,
    title: Seq<char>,
    desc: Seq<char>,
    url: Seq<char>,
    published_at: Seq<char>,
    content: Seq<char>,
) -> ArticleView {
    ArticleView {
        source_name,
        author,
        title,
        desc,
        url,
        published_at,
        content,
        epoch: epoch_of(published_at),
    }
}

/// The article one element of the articles array maps to. Every field is
/// read tolerantly: a missing, null or non-string field, or an element
/// that is not an object at all, yields empty strings, never a failure.
pub open spec fn spec_article_of(v: JsonValue) -> ArticleView {
    let fields = obj_fields(v);
    article_view(
        (match lookup_field(fields, "source"@) {
            Some(JsonValue::Obj(sf)) => field_str(sf@, "name"@),
            _ => Seq::empty(),
        }),
        field_str(fields, "author"@),
        field_str(fields, "title"@),
        field_str(fields, "description"@),
        field_str(fields, "url"@),
        field_str(fields, "publishedAt"@),
        field_str(fields, "content"@),
    )
}

/// What an article renders to: its fields in order, one per line.
pub open spec fn spec_render(a: ArticleView) -> Seq<char> {
    a.source_name + "\n"@ + a.author + "\n"@ + a.title + "\n"@ + a.desc + "\n"@ + a.url + "\n"@
        + a.published_at + "\n"@ + a.content
}

impl Article {
    /// Build an article from its seven field values, deriving the epoch
    /// from the timestamp at construction.
    pub fn new(
        source_name: String,
        author: String,
        title: String,
        desc: String,
        url: String,
        published_at: String,
        content: String,
    ) -> (a: Article)
        ensures
            a@ == article_view(
                source_name@,
                author@,
                title@,
                desc@,
                url@,
                published_at@,
                content@,
            ),
    {
        let epoch: Option<i64> = if published_at.as_str().is_empty() {
            None
        } else {
            rfc3339_to_epoch(published_at.as_str())
        };
        Article { source_name, author, title, desc, url, published_at, content, epoch }
    }

    /// Map one element of the articles array to an article.
    pub fn from_json(v: &JsonValue) -> (a: Article)
        ensures
            a@ == spec_article_of(*v),
    {
        match v {
            JsonValue::Obj(fields) => {
                let source_name = match get_field(fields, "source") {
                    Some(JsonValue::Obj(sf)) => get_str_field(sf, "name"),
                    _ => String::new(),
                };
                Article::new(
                    source_name,
                    get_str_field(fields, "author"),
                    get_str_field(fields, "title"),
                    get_str_field(fields, "description"),
                    get_str_field(fields, "url"),
                    get_str_field(fields, "publishedAt"),
                    get_str_field(fields, "content"),
                )
            },
            _ => Article::new(
                String::new(),
                String::new(),
                String::new(),
                String::new(),
                String::new(),
                String::new(),
                String::new(),
            ),
        }
    }

    /// True exactly when publishedAt was non-empty yet did not parse as
    /// RFC 3339: the per-article data-quality warning of the mapper.
    pub fn has_timestamp_warning(&self) -> (r: bool)
        ensures
            r == (self@.published_at.len() > 0 && self@.epoch is None),
    {
        !self.published_at.as_str().is_empty() && self.epoch.is_none()
    }

    /// Render the article for a consumer: its fields in order, one per
    /// line.
    pub fn render(&self) -> (r: String)
        ensures
            r@ == spec_render(self@),
    {
        let mut s = self.source_name.clone();
        s.append("\n");
        s.append(self.author.as_str());
        s.append("\n");
        s.append(self.title.as_str());
        s.append("\n");
        s.append(self.desc.as_str());
        s.append("\n");
        s.append(self.url.as_str());
        s.append("\n");
        s.append(self.published_at.as_str());
        s.append("\n");
        s.append(self.content.as_str());
        proof {
            assert(s@ =~= spec_render(self@));
        }
        s
    }
}

} // verus!
