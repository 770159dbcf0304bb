//! The stored article, the article as it is handed out, and the choice
//! between its two content variants.

use vstd::prelude::*;

verus! {

/// Status of a record that every read path shows.
pub const STATUS_NORMAL: i16 = 0;

/// Status of a record that was frozen.
pub const STATUS_FROZEN: i16 = 1;

/// Status of a record that was soft-deleted: the row stays, no read shows it.
pub const STATUS_DELETED: i16 = 2;

/// Which of the two stored texts fills the `content` of an article.
#[derive(Clone, Copy, Debug, PartialEq, Eq, Structural)]
pub enum Variant {
    /// The display markup that was derived when the record was last written.
    Rendered,
    /// The source text as its author wrote it.
    Raw,
}

/// What something went wrong with.
#[derive(Clone, Debug, PartialEq, Eq)]
pub enum ArticleError {
    /// A lookup by identifier matched no visible record.
    NotFound,
    /// The store failed; the text is the store's own detail.
    Store(String),
    /// The caller's identity could not be resolved from the session.
    AuthResolution,
    /// A page number or a page size below one.
    Validation,
}

/// A row of the article table. Identifiers are the 128-bit values of the
/// records' UUIDs; `created_time` counts microseconds since the Unix epoch.
#[derive(Clone, Debug)]
pub struct RawArticles {
    pub id: u128,
    pub title: String,
    pub raw_content: String,
    pub content: String,
    pub section_id: u128,
    pub author_id: u128,
    pub tags: String,
    pub created_time: i64,
    pub status: i16,
}

/// An article as a reader gets it: one row with one of its two texts.
#[derive(Clone, Debug)]
pub struct Articles {
    pub id: u128,
    pub title: String,
    pub content: String,
    pub section_id: u128,
    pub author_id: u128,
    pub tags: String,
    pub created_time: i64,
    pub status: i16,
}

/// The mathematical value of a row.
pub ghost struct Row {
    pub id: u128,
    pub title: Seq<char>,
    pub raw_content: Seq<char>,
    pub content: Seq<char>,
    pub section_id: u128,
    pub author_id: u128,
    pub tags: Seq<char>,
    pub created_time: i64,
    pub status: i16,
}

/// The mathematical value of an article that was handed out.
pub ghost struct Shown {
    pub id: u128,
    pub title: Seq<char>,
    pub content: Seq<char>,
    pub section_id: u128,
    pub author_id: u128,
    pub tags: Seq<char>,
    pub created_time: i64,
    pub status: i16,
}

impl Row {
    /// The text that `variant` selects.
    pub open spec fn text(self, variant: Variant) -> Seq<char> {
        match variant {
            Variant::Rendered => self.content,
            Variant::Raw => self.raw_content,
        }
    }

    /// The row as handed out in `variant`: the selected text, every other
    /// field as stored.
    pub open spec fn shown(self, variant: Variant) -> Shown {
        Shown {
            id: self.id,
            title: self.title,
            content: self.text(variant),
            section_id: self.section_id,
            author_id: self.author_id,
            tags: self.tags,
            created_time: self.created_time,
            status: self.status,
        }
    }

    /// Whether read paths show the row.
    pub open spec fn visible(self) -> bool {
        self.status == STATUS_NORMAL
    }
}

impl View for RawArticles {
    type V = Row;

    open spec fn view(&self) -> Row {
        Row {
            id: self.id,
            title: self.title@,
            raw_content: self.raw_content@,
            content: self.content@,
            section_id: self.section_id,
            author_id: self.author_id,
            tags: self.tags@,
            created_time: self.created_time,
            status: self.status,
        }
    }
}

impl View for Articles {
    type V = Shown;

    open spec fn view(&self) -> Shown {
        Shown {
            id: self.id,
            title: self.title@,
            content: self.content@,
            section_id: self.section_id,
            author_id: self.author_id,
            tags: self.tags@,
            created_time: self.created_time,
            status: self.status,
        }
    }
}

impl RawArticles {
    /// The article with its display markup.
    pub fn into_html(self) -> (shown: Articles)
        ensures
            shown@ == self@.shown(Variant::Rendered),
    {
        Articles {
            id: self.id,
            title: self.title,
            content: self.content,
            section_id: self.section_id,
            author_id: self.author_id,
            tags: self.tags,
            created_time: self.created_time,
            status: self.status,
        }
    }

    /// The article with its source text.
    pub fn into_markdown(self) -> (shown: Articles)
        ensures
            shown@ == self@.shown(Variant::Raw),
    {
        Articles {
            id: self.id,
            title: self.title,
            content: self.raw_content,
            section_id: self.section_id,
            author_id: self.author_id,
            tags: self.tags,
            created_time: self.created_time,
            status: self.status,
        }
    }

    /// The article in the variant asked for. Reading never renders: it
    /// picks one of the two stored texts.
    pub fn into_variant(self, variant: Variant) -> (shown: Articles)
        ensures
            shown@ == self@.shown(variant),
    {
        match variant {
            Variant::Rendered => self.into_html(),
            Variant::Raw => self.into_markdown(),
        }
    }

    /// A copy of the row, field for field.
    pub fn duplicate(&self) -> (copy: RawArticles)
        ensures
            copy@ == self@,
    {
        RawArticles {
            id: self.id,
            title: self.title.clone(),
            raw_content: self.raw_content.clone(),
            content: self.content.clone(),
            section_id: self.section_id,
            author_id: self.author_id,
            tags: self.tags.clone(),
            created_time: self.created_time,
            status: self.status,
        }
    }
}

/// The views of a list of rows, in order.
pub open spec fn rows_of(rows: Seq<RawArticles>) -> Seq<Row> {
    rows.map_values(|r: RawArticles| r@)
}

/// The views of a list of articles, in order.
pub open spec fn shown_of(articles: Seq<Articles>) -> Seq<Shown> {
    articles.map_values(|a: Articles| a@)
}

/// Each row handed out in `variant`, in order.
pub open spec fn each_shown(rows: Seq<Row>, variant: Variant) -> Seq<Shown> {
    rows.map_values(|r: Row| r.shown(variant))
}

/// The same items in the opposite order.
fn reversed<T>(items: Vec<T>) -> (turned: Vec<T>)
    ensures
        turned@.len() == items@.len(),
        forall|k: int| 0 <= k < items@.len() ==> turned@[k] == items@[items@.len() - 1 - k],
{
    let ghost all = items@;
    let mut items = items;
    let mut turned: Vec<T> = Vec::new();
    while items.len() > 0
        invariant
            items@.len() <= all.len(),
            items@ == all.take(items@.len() as int),
            turned@.len() == all.len() - items@.len(),
            forall|k: int| 0 <= k < turned@.len() ==> turned@[k] == all[all.len() - 1 - k],
        decreases items@.len(),
    {
        let item = items.pop().unwrap();
        turned.push(item);
        assert(items@ =~= all.take(items@.len() as int));
    }
    turned
}

/// Hands out every row of a list in the variant asked for, keeping the order.
pub fn show_all(rows: Vec<RawArticles>, variant: Variant) -> (articles: Vec<Articles>)
    ensures
        shown_of(articles@) == each_shown(rows_of(rows@), variant),
{
    let ghost all = rows@;
    let mut rows = reversed(rows);
    let ghost turned = rows@;
    let mut articles: Vec<Articles> = Vec::new();
    while rows.len() > 0
        invariant
            turned.len() == all.len(),
            forall|k: int| 0 <= k < all.len() ==> turned[k] == all[all.len() - 1 - k],
            rows@.len() <= turned.len(),
            rows@ == turned.take(rows@.len() as int),
            articles@.len() == all.len() - rows@.len(),
            forall|k: int|
                0 <= k < articles@.len() ==> (#[trigger] articles@[k])@ == all[k]@.shown(variant),
        decreases rows@.len(),
    {
        let row = rows.pop().unwrap();
        articles.push(row.into_variant(variant));
        assert(rows@ =~= turned.take(rows@.len() as int));
    }
    assert(shown_of(articles@) =~= each_shown(rows_of(all), variant));
    articles
}

} // verus!
