//! What a visitor's request is answered with, from the texts of its
//! parameters to the reply.

use crate::article::{shown_of, ArticleError, Articles, Row, Variant};
use crate::host::{identifier_of, number_of, parse_identifier, parse_number};
use crate::paging::{page_count, valid_page};
use crate::query::{lookup, section_page, ArticlesWithTotal};
use crate::store::ArticleStore;
use crate::table::listing;
use vstd::prelude::*;

verus! {

/// The parameter that a request got wrong.
#[derive(Clone, Copy, Debug, PartialEq, Eq, Structural)]
pub enum BadParam {
    /// The identifier is no UUID.
    Identifier,
    /// The page is no number.
    Page,
}

/// The answer to a request.
#[derive(Debug)]
pub enum Reply<T> {
    /// A parameter could not be read; nothing was queried.
    BadRequest(BadParam),
    /// The query failed.
    Failed(ArticleError),
    /// The query's result.
    Done(T),
}

/// The requests that a visitor may make without signing in.
#[derive(Clone, Copy, Debug)]
pub struct VisitorArticleApi;

/// The page that a request asks for: the number that its text reads as, the
/// first page where it names none.
pub open spec fn page_asked(page: Option<&str>) -> Option<i64> {
    match page {
        Some(text) => number_of(text@),
        None => Some(1i64),
    }
}

/// The request for a page of a section, from what its parameters were read
/// as, the identifier first: `None` stands for a parameter that could not
/// be read.
pub open spec fn paging_request(section: Option<u128>, page: Option<i64>) -> Result<
    (u128, i64),
    BadParam,
> {
    match (section, page) {
        (None, _) => Err(BadParam::Identifier),
        (Some(_), None) => Err(BadParam::Page),
        (Some(id), Some(number)) => Ok((id, number)),
    }
}

/// The request for a page of a listing that needs no identifier, from what
/// its parameter was read as.
pub open spec fn page_request(page: Option<i64>) -> Result<i64, BadParam> {
    match page {
        Some(number) => Ok(number),
        None => Err(BadParam::Page),
    }
}

/// The request for one article, from what its parameter was read as.
pub open spec fn article_request(id: Option<u128>) -> Result<u128, BadParam> {
    match id {
        Some(id) => Ok(id),
        None => Err(BadParam::Identifier),
    }
}

/// The reply that carries the outcome of a query.
pub open spec fn reply_of<T>(outcome: Result<T, ArticleError>) -> Reply<T> {
    match outcome {
        Ok(found) => Reply::Done(found),
        Err(e) => Reply::Failed(e),
    }
}

/// Whether `reply` answers `request` for a page of a section, with the
/// articles' display markup.
pub open spec fn answers_paging(
    t: Seq<Row>,
    request: Result<(u128, i64), BadParam>,
    page_size: i64,
    reply: Reply<ArticlesWithTotal<Articles>>,
) -> bool {
    match request {
        Err(bad) => reply == Reply::<ArticlesWithTotal<Articles>>::BadRequest(bad),
        Ok((id, number)) => match reply {
            Reply::Done(paged) => {
                &&& valid_page(number as int, page_size as int)
                &&& shown_of(paged.articles@) == section_page(
                    t,
                    id,
                    number as int,
                    page_size as int,
                    Variant::Rendered,
                )
                &&& paged.total == listing(t, id).len()
                &&& paged.max_page == page_count(paged.total as int, page_size as int)
            },
            Reply::Failed(e) => !valid_page(number as int, page_size as int) && e
                == ArticleError::Validation,
            Reply::BadRequest(_) => false,
        },
    }
}

/// Whether `reply` answers `request` for one article, with its source text.
pub open spec fn answers_article(
    t: Seq<Row>,
    request: Result<u128, BadParam>,
    reply: Reply<Articles>,
) -> bool {
    match request {
        Err(bad) => reply == Reply::<Articles>::BadRequest(bad),
        Ok(id) => match reply {
            Reply::Done(shown) => lookup(t, id, Variant::Raw) == Some(shown@),
            Reply::Failed(e) => lookup(t, id, Variant::Raw) is None && e
                == ArticleError::NotFound,
            Reply::BadRequest(_) => false,
        },
    }
}

impl<T> Reply<T> {
    /// The reply that carries the outcome of a query.
    pub fn of(outcome: Result<T, ArticleError>) -> (reply: Reply<T>)
        ensures
            reply == reply_of(outcome),
    {
        match outcome {
            Ok(found) => Reply::Done(found),
            Err(e) => Reply::Failed(e),
        }
    }
}

impl VisitorArticleApi {
    /// The request for a page of a section, from what its parameters were
    /// read as.
    pub fn check_paging(section: Option<u128>, page: Option<i64>) -> (request: Result<
        (u128, i64),
        BadParam,
    >)
        ensures
            request == paging_request(section, page),
    {
        match section {
            Some(id) => match page {
                Some(number) => Ok((id, number)),
                None => Err(BadParam::Page),
            },
            None => Err(BadParam::Identifier),
        }
    }

    /// Reads the page that a request asks for: `page` as a number, the first
    /// page where the request names none.
    pub fn read_page(page: Option<&str>) -> (request: Result<i64, BadParam>)
        ensures
            request == page_request(page_asked(page)),
    {
        let number = match page {
            Some(text) => parse_number(text),
            None => Some(1),
        };
        match number {
            Some(number) => Ok(number),
            None => Err(BadParam::Page),
        }
    }

    /// Reads the parameters of a request for a page of a section: `id` as a
    /// UUID, `page` as [`VisitorArticleApi::read_page`] does. A text that is
    /// no UUID is reported whatever the page is.
    pub fn read_paging(id: &str, page: Option<&str>) -> (request: Result<(u128, i64), BadParam>)
        ensures
            request == paging_request(identifier_of(id@), page_asked(page)),
    {
        let section = parse_identifier(id);
        let number = match VisitorArticleApi::read_page(page) {
            Ok(number) => Some(number),
            Err(_) => None,
        };
        VisitorArticleApi::check_paging(section, number)
    }

    /// The request for one article, from what its parameter was read as.
    pub fn check_article(id: Option<u128>) -> (request: Result<u128, BadParam>)
        ensures
            request == article_request(id),
    {
        match id {
            Some(id) => Ok(id),
            None => Err(BadParam::Identifier),
        }
    }

    /// Reads the parameter of a request for one article as a UUID.
    pub fn read_article(id: &str) -> (request: Result<u128, BadParam>)
        ensures
            request == article_request(identifier_of(id@)),
    {
        VisitorArticleApi::check_article(parse_identifier(id))
    }

    /// Answers a request for a page of a section that was read already.
    pub fn paging_answer(
        store: &ArticleStore,
        request: Result<(u128, i64), BadParam>,
        page_size: i64,
    ) -> (reply: Reply<ArticlesWithTotal<Articles>>)
        requires
            store.wf(),
        ensures
            answers_paging(store@, request, page_size, reply),
    {
        match request {
            Ok((id, number)) => Reply::of(
                Articles::query_articles_with_section_id_paging(store, id, number, page_size),
            ),
            Err(bad) => Reply::BadRequest(bad),
        }
    }

    /// Answers a request for a page of the section that `id` names, with
    /// the articles' display markup.
    pub fn articles_paging(store: &ArticleStore, id: &str, page: Option<&str>, page_size: i64) -> (reply:
        Reply<ArticlesWithTotal<Articles>>)
        requires
            store.wf(),
        ensures
            answers_paging(
                store@,
                paging_request(identifier_of(id@), page_asked(page)),
                page_size,
                reply,
            ),
    {
        VisitorArticleApi::paging_answer(
            store,
            VisitorArticleApi::read_paging(id, page),
            page_size,
        )
    }

    /// Answers a request for one article that was read already.
    pub fn article_answer(store: &ArticleStore, request: Result<u128, BadParam>) -> (reply: Reply<
        Articles,
    >)
        requires
            store.wf(),
        ensures
            answers_article(store@, request, reply),
    {
        match request {
            Ok(id) => Reply::of(Articles::query_raw_article(store, id)),
            Err(bad) => Reply::BadRequest(bad),
        }
    }

    /// Answers a request for the article that `id` names, with its source
    /// text.
    pub fn article_query(store: &ArticleStore, id: &str) -> (reply: Reply<Articles>)
        requires
            store.wf(),
        ensures
            answers_article(store@, article_request(identifier_of(id@)), reply),
    {
        VisitorArticleApi::article_answer(store, VisitorArticleApi::read_article(id))
    }
}

} // verus!
