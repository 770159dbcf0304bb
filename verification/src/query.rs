//! The query engine: lookups by identifier and listings by section, each in
//! the content variant that the caller asks for.

use crate::article::{
    each_shown, rows_of, show_all, shown_of, ArticleError, Articles, RawArticles, Row, Shown,
    Variant,
};
use crate::paging::{max_page, page_count, page_of, page_start, valid_page};
use crate::store::ArticleStore;
use crate::table::{affected, after_delete, find, listing};
use vstd::prelude::*;

verus! {

/// One page of a listing with the paging metadata: the number of records
/// that match, whatever the page, and the number of pages they fill.
#[derive(Debug)]
pub struct ArticlesWithTotal<T> {
    pub articles: Vec<T>,
    pub total: i64,
    pub max_page: i64,
}

/// The outcome of a statement as the engines report it: a failure of the
/// store becomes a `Store` error that carries the store's own detail.
pub open spec fn reported<T>(outcome: Result<T, String>) -> Result<T, ArticleError> {
    match outcome {
        Ok(done) => Ok(done),
        Err(detail) => Err(ArticleError::Store(detail)),
    }
}

/// Reports the outcome of a statement that a store ran.
pub fn statement_outcome<T>(outcome: Result<T, String>) -> (res: Result<T, ArticleError>)
    ensures
        res == reported(outcome),
{
    match outcome {
        Ok(done) => Ok(done),
        Err(detail) => Err(ArticleError::Store(detail)),
    }
}

impl ArticlesWithTotal<RawArticles> {
    /// The page from the outcomes of the two statements behind it, the
    /// fetch of the page's rows and the count of all matching rows.
    /// `Validation` where the page size is below one. Where a statement
    /// failed, the `Store` error with its detail, that of the fetch first.
    pub fn from_statements(
        fetched: Result<Vec<RawArticles>, String>,
        counted: Result<i64, String>,
        page_size: i64,
    ) -> (res: Result<ArticlesWithTotal<RawArticles>, ArticleError>)
        ensures
            page_size < 1 ==> res == Err::<ArticlesWithTotal<RawArticles>, ArticleError>(
                ArticleError::Validation,
            ),
            page_size >= 1 ==> match (fetched, counted) {
                (Ok(rows), Ok(total)) => {
                    &&& res matches Ok(paged)
                    &&& paged.articles == rows
                    &&& paged.total == total
                    &&& paged.max_page == page_count(total as int, page_size as int)
                },
                (Err(detail), _) => res matches Err(e) && e == ArticleError::Store(detail),
                (Ok(_), Err(detail)) => res matches Err(e) && e == ArticleError::Store(detail),
            },
    {
        if page_size < 1 {
            return Err(ArticleError::Validation);
        }
        let rows = match fetched {
            Ok(rows) => rows,
            Err(detail) => {
                return Err(ArticleError::Store(detail));
            },
        };
        match counted {
            Ok(total) => Ok(ArticlesWithTotal::assemble(rows, total, page_size)),
            Err(detail) => Err(ArticleError::Store(detail)),
        }
    }

    /// Puts a fetched page and the count of all matching rows together.
    pub fn assemble(rows: Vec<RawArticles>, total: i64, page_size: i64) -> (paged:
        ArticlesWithTotal<RawArticles>)
        requires
            page_size >= 1,
        ensures
            paged.articles == rows,
            paged.total == total,
            paged.max_page == page_count(total as int, page_size as int),
    {
        ArticlesWithTotal { articles: rows, total, max_page: max_page(total, page_size) }
    }

    /// The same page with each row handed out in `variant`; the metadata
    /// stays.
    pub fn show(self, variant: Variant) -> (paged: ArticlesWithTotal<Articles>)
        ensures
            shown_of(paged.articles@) == each_shown(rows_of(self.articles@), variant),
            paged.total == self.total,
            paged.max_page == self.max_page,
    {
        ArticlesWithTotal {
            articles: show_all(self.articles, variant),
            total: self.total,
            max_page: self.max_page,
        }
    }
}

/// What a lookup of `id` in table `t` hands out in `variant`.
pub open spec fn lookup(t: Seq<Row>, id: u128, variant: Variant) -> Option<Shown> {
    match find(t, id) {
        Some(row) => Some(row.shown(variant)),
        None => None,
    }
}

/// What a listing of `section` in table `t` hands out in `variant`.
pub open spec fn section_list(t: Seq<Row>, section: u128, variant: Variant) -> Seq<Shown> {
    each_shown(listing(t, section), variant)
}

/// What page `page` of the listing of `section` hands out in `variant`.
pub open spec fn section_page(
    t: Seq<Row>,
    section: u128,
    page: int,
    page_size: int,
    variant: Variant,
) -> Seq<Shown> {
    each_shown(page_of(listing(t, section), page, page_size), variant)
}

impl Articles {
    /// The outcome of a lookup, from what the store found: the row in the
    /// variant asked for, or `NotFound` where it found none.
    pub fn from_lookup(found: Option<RawArticles>, variant: Variant) -> (res: Result<
        Articles,
        ArticleError,
    >)
        ensures
            match res {
                Ok(shown) => found matches Some(row) && shown@ == row@.shown(variant),
                Err(e) => found is None && e == ArticleError::NotFound,
            },
    {
        match found {
            Some(row) => Ok(row.into_variant(variant)),
            None => Err(ArticleError::NotFound),
        }
    }

    /// The visible article with `id` in the variant asked for; `NotFound`
    /// where no visible row has the identifier.
    pub fn query_variant(store: &ArticleStore, id: u128, variant: Variant) -> (res: Result<
        Articles,
        ArticleError,
    >)
        requires
            store.wf(),
        ensures
            match res {
                Ok(shown) => lookup(store@, id, variant) == Some(shown@),
                Err(e) => lookup(store@, id, variant) is None && e == ArticleError::NotFound,
            },
    {
        Articles::from_lookup(store.fetch(id), variant)
    }

    /// The visible article with `id`, with its display markup.
    pub fn query_article(store: &ArticleStore, id: u128) -> (res: Result<Articles, ArticleError>)
        requires
            store.wf(),
        ensures
            match res {
                Ok(shown) => lookup(store@, id, Variant::Rendered) == Some(shown@),
                Err(e) => lookup(store@, id, Variant::Rendered) is None && e
                    == ArticleError::NotFound,
            },
    {
        Articles::query_variant(store, id, Variant::Rendered)
    }

    /// The visible article with `id`, with its source text.
    pub fn query_raw_article(store: &ArticleStore, id: u128) -> (res: Result<
        Articles,
        ArticleError,
    >)
        requires
            store.wf(),
        ensures
            match res {
                Ok(shown) => lookup(store@, id, Variant::Raw) == Some(shown@),
                Err(e) => lookup(store@, id, Variant::Raw) is None && e == ArticleError::NotFound,
            },
    {
        Articles::query_variant(store, id, Variant::Raw)
    }

    /// The visible rows of section `id`, newest first. Always `Ok`: a
    /// section without visible rows gives an empty list.
    pub fn raw_articles_with_section_id(store: &ArticleStore, id: u128) -> (res: Result<
        Vec<RawArticles>,
        ArticleError,
    >)
        ensures
            res matches Ok(rows) && rows_of(rows@) == listing(store@, id),
    {
        Ok(store.fetch_section(id))
    }

    /// The visible articles of section `id` in the variant asked for,
    /// newest first. Always `Ok`.
    pub fn section_variant(store: &ArticleStore, id: u128, variant: Variant) -> (res: Result<
        Vec<Articles>,
        ArticleError,
    >)
        ensures
            res matches Ok(articles) && shown_of(articles@) == section_list(store@, id, variant),
    {
        match Articles::raw_articles_with_section_id(store, id) {
            Ok(rows) => Ok(show_all(rows, variant)),
            Err(e) => Err(e),
        }
    }

    /// The visible articles of section `id` with their display markup,
    /// newest first. Always `Ok`.
    pub fn query_articles_with_section_id(store: &ArticleStore, id: u128) -> (res: Result<
        Vec<Articles>,
        ArticleError,
    >)
        ensures
            res matches Ok(articles) && shown_of(articles@) == section_list(
                store@,
                id,
                Variant::Rendered,
            ),
    {
        Articles::section_variant(store, id, Variant::Rendered)
    }

    /// Page `page` of the visible rows of section `id`, with the number of
    /// all visible rows of the section and the number of pages.
    /// `Validation` where the page number or the page size is below one.
    pub fn raw_articles_with_section_id_paging(
        store: &ArticleStore,
        id: u128,
        page: i64,
        page_size: i64,
    ) -> (res: Result<ArticlesWithTotal<RawArticles>, ArticleError>)
        requires
            store.wf(),
        ensures
            match res {
                Ok(paged) => {
                    &&& valid_page(page as int, page_size as int)
                    &&& rows_of(paged.articles@) == page_of(
                        listing(store@, id),
                        page as int,
                        page_size as int,
                    )
                    &&& paged.total == listing(store@, id).len()
                    &&& paged.max_page == page_count(paged.total as int, page_size as int)
                },
                Err(e) => !valid_page(page as int, page_size as int) && e
                    == ArticleError::Validation,
            },
    {
        match page_start(page, page_size) {
            Ok(_) => {
                let rows = store.fetch_section_page(id, page, page_size);
                let total = store.count_section(id);
                ArticlesWithTotal::from_statements(Ok(rows), Ok(total), page_size)
            },
            Err(e) => Err(e),
        }
    }

    /// Page `page` of the visible articles of section `id` in the variant
    /// asked for, with the paging metadata. `Validation` where the page
    /// number or the page size is below one.
    pub fn page_variant(
        store: &ArticleStore,
        id: u128,
        page: i64,
        page_size: i64,
        variant: Variant,
    ) -> (res: Result<ArticlesWithTotal<Articles>, ArticleError>)
        requires
            store.wf(),
        ensures
            match res {
                Ok(paged) => {
                    &&& valid_page(page as int, page_size as int)
                    &&& shown_of(paged.articles@) == section_page(
                        store@,
                        id,
                        page as int,
                        page_size as int,
                        variant,
                    )
                    &&& paged.total == listing(store@, id).len()
                    &&& paged.max_page == page_count(paged.total as int, page_size as int)
                },
                Err(e) => !valid_page(page as int, page_size as int) && e
                    == ArticleError::Validation,
            },
    {
        match Articles::raw_articles_with_section_id_paging(store, id, page, page_size) {
            Ok(paged) => Ok(paged.show(variant)),
            Err(e) => Err(e),
        }
    }

    /// Page `page` of the visible articles of section `id` with their
    /// display markup, with the paging metadata. `Validation` where the page
    /// number or the page size is below one.
    pub fn query_articles_with_section_id_paging(
        store: &ArticleStore,
        id: u128,
        page: i64,
        page_size: i64,
    ) -> (res: Result<ArticlesWithTotal<Articles>, ArticleError>)
        requires
            store.wf(),
        ensures
            match res {
                Ok(paged) => {
                    &&& valid_page(page as int, page_size as int)
                    &&& shown_of(paged.articles@) == section_page(
                        store@,
                        id,
                        page as int,
                        page_size as int,
                        Variant::Rendered,
                    )
                    &&& paged.total == listing(store@, id).len()
                    &&& paged.max_page == page_count(paged.total as int, page_size as int)
                },
                Err(e) => !valid_page(page as int, page_size as int) && e
                    == ArticleError::Validation,
            },
    {
        Articles::page_variant(store, id, page, page_size, Variant::Rendered)
    }

    /// Soft-deletes the row with `id`, whatever its status: the row stays
    /// and no read shows it. Always `Ok`, with the number of rows written:
    /// 1, or 0 where no row has the identifier.
    pub fn delete_with_id(store: &mut ArticleStore, id: u128) -> (res: Result<usize, ArticleError>)
        requires
            old(store).wf(),
        ensures
            final(store).wf(),
            final(store)@ == after_delete(old(store)@, id),
            res matches Ok(written) && written == affected(old(store)@, id),
    {
        Ok(store.mark_deleted(id))
    }
}

} // verus!
