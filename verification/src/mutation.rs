//! The mutation engine: insert, edit and soft delete. Every write that
//! changes the source text derives the display markup in the same step.

use crate::article::{ArticleError, Articles, RawArticles, Row, STATUS_NORMAL};
use crate::permission::{verdict, Permission};
use crate::store::ArticleStore;
use crate::table::{affected, after_delete, after_edit, after_insert, has_id};
use vstd::prelude::*;

verus! {

/// Whether `render` can have turned the source `raw` into `content`.
pub open spec fn rendered_by<F: Fn(&str) -> String>(
    render: &F,
    raw: Seq<char>,
    content: Seq<char>,
) -> bool {
    exists|source: &str, markup: String|
        source@ == raw && markup@ == content && #[trigger] call_ensures(render, (source,), markup)
}

/// Whether `render` takes every text.
pub open spec fn total<F: Fn(&str) -> String>(render: &F) -> bool {
    forall|source: &str| #[trigger] call_requires(render, (source,))
}

/// An article as its author hands it in.
#[derive(Clone, Debug)]
pub struct NewArticle {
    pub title: String,
    pub raw_content: String,
    pub section_id: u128,
    pub author_id: u128,
    pub tags: String,
}

/// A new article with its display markup, ready for the store.
#[derive(Clone, Debug)]
pub struct InsertArticle {
    pub title: String,
    pub raw_content: String,
    pub content: String,
    pub section_id: u128,
    pub author_id: u128,
    pub tags: String,
}

/// New title, source text and tags for the article with `id`.
#[derive(Clone, Debug)]
pub struct EditArticle {
    pub id: u128,
    pub title: String,
    pub raw_content: String,
    pub tags: String,
}

/// A request to delete `article_id` on behalf of `user_id`.
#[derive(Clone, Copy, Debug)]
pub struct DeleteArticle {
    pub article_id: u128,
    pub user_id: u128,
}

impl NewArticle {
    /// The row that the article becomes with markup `content`, identifier
    /// `id` and creation time `now`: visible, every other field as handed in.
    pub open spec fn row(self, content: Seq<char>, id: u128, now: i64) -> Row {
        Row {
            id,
            title: self.title@,
            raw_content: self.raw_content@,
            content,
            section_id: self.section_id,
            author_id: self.author_id,
            tags: self.tags@,
            created_time: now,
            status: STATUS_NORMAL,
        }
    }

    /// Renders the article and inserts it as a visible row with identifier
    /// `id`, created at `now`. `false`, and nothing changes, where the
    /// identifier is in use or the table is full.
    pub fn insert<F: Fn(&str) -> String>(
        self,
        store: &mut ArticleStore,
        render: &F,
        id: u128,
        now: i64,
    ) -> (done: bool)
        requires
            old(store).wf(),
            total(render),
        ensures
            final(store).wf(),
            done == (!has_id(old(store)@, id) && old(store)@.len() < i64::MAX),
            done ==> exists|content: Seq<char>| #[trigger]
                rendered_by(render, self.raw_content@, content) && final(store)@ == after_insert(
                    old(store)@,
                    self.row(content, id, now),
                ),
            !done ==> final(store)@ == old(store)@,
    {
        let ghost article = self;
        let draft = InsertArticle::new(self, render);
        proof {
            assert(draft.row(id, now) == article.row(draft.content@, id, now));
        }
        draft.insert(store, id, now).is_ok()
    }
}

impl InsertArticle {
    /// The row that the article becomes with identifier `id` and creation
    /// time `now`.
    pub open spec fn row(self, id: u128, now: i64) -> Row {
        Row {
            id,
            title: self.title@,
            raw_content: self.raw_content@,
            content: self.content@,
            section_id: self.section_id,
            author_id: self.author_id,
            tags: self.tags@,
            created_time: now,
            status: STATUS_NORMAL,
        }
    }

    /// Derives the display markup of a new article from its source text.
    pub fn new<F: Fn(&str) -> String>(new_article: NewArticle, render: &F) -> (draft:
        InsertArticle)
        requires
            total(render),
        ensures
            rendered_by(render, new_article.raw_content@, draft.content@),
            forall|id: u128, now: i64|
                #[trigger] draft.row(id, now) == new_article.row(draft.content@, id, now),
    {
        let content = render(new_article.raw_content.as_str());
        InsertArticle {
            title: new_article.title,
            raw_content: new_article.raw_content,
            content,
            section_id: new_article.section_id,
            author_id: new_article.author_id,
            tags: new_article.tags,
        }
    }

    /// Inserts the article as a visible row with identifier `id`, created at
    /// `now`. A `Store` error, and nothing changes, where the identifier is
    /// in use or the table is full; else `Ok(1)`.
    pub fn insert(self, store: &mut ArticleStore, id: u128, now: i64) -> (res: Result<
        usize,
        ArticleError,
    >)
        requires
            old(store).wf(),
        ensures
            final(store).wf(),
            match res {
                Ok(written) => {
                    &&& written == 1
                    &&& !has_id(old(store)@, id)
                    &&& old(store)@.len() < i64::MAX
                    &&& final(store)@ == after_insert(old(store)@, self.row(id, now))
                },
                Err(e) => {
                    &&& e is Store
                    &&& has_id(old(store)@, id) || old(store)@.len() >= i64::MAX
                    &&& final(store)@ == old(store)@
                },
            },
    {
        let row = RawArticles {
            id,
            title: self.title,
            raw_content: self.raw_content,
            content: self.content,
            section_id: self.section_id,
            author_id: self.author_id,
            tags: self.tags,
            created_time: now,
            status: STATUS_NORMAL,
        };
        if store.insert_row(row) {
            Ok(1)
        } else {
            Err(ArticleError::Store("the row was refused".to_owned()))
        }
    }
}

impl EditArticle {
    /// The display markup of the new source text.
    pub fn rendered<F: Fn(&str) -> String>(&self, render: &F) -> (content: String)
        requires
            total(render),
        ensures
            rendered_by(render, self.raw_content@, content@),
    {
        render(self.raw_content.as_str())
    }

    /// Overwrites title, source text and tags of the row with `id`, and its
    /// display markup with what `render` makes of the new source text.
    /// Section, author, creation time and status stay; the status is not
    /// looked at. Always `Ok`, with the number of rows written: 1, or 0
    /// where no row has the identifier.
    pub fn edit_article<F: Fn(&str) -> String>(self, store: &mut ArticleStore, render: &F) -> (res:
        Result<usize, ArticleError>)
        requires
            old(store).wf(),
            total(render),
        ensures
            final(store).wf(),
            res matches Ok(written) && written == affected(old(store)@, self.id),
            exists|content: Seq<char>| #[trigger]
                rendered_by(render, self.raw_content@, content) && final(store)@ == after_edit(
                    old(store)@,
                    self.id,
                    self.title@,
                    self.raw_content@,
                    content,
                    self.tags@,
                ),
    {
        let content = self.rendered(render);
        Ok(store.update_texts(self.id, self.title, self.raw_content, content, self.tags))
    }
}

impl DeleteArticle {
    /// Whether the decision on a request with this permission level needs
    /// the caller's identity from the session.
    pub fn needs_identity(permission: &Option<i16>) -> (needed: bool)
        ensures
            needed == !Permission::of(*permission).elevated(),
    {
        !Permission::from_level(permission).overrides()
    }

    /// Decides the request: see [`verdict`]. `identity` is the identifier of
    /// the caller as the session resolved it, `None` where it could not.
    pub fn decide(&self, identity: Option<u128>, permission: &Option<i16>) -> (res: Result<
        bool,
        ArticleError,
    >)
        ensures
            res == verdict(self.user_id, identity, *permission),
    {
        if Permission::from_level(permission).overrides() {
            Ok(true)
        } else {
            match identity {
                Some(caller) => Ok(caller == self.user_id),
                None => Err(ArticleError::AuthResolution),
            }
        }
    }

    /// Decides the request and, where the decision is to delete,
    /// soft-deletes the article. Where it is not, nothing changes.
    pub fn delete(
        self,
        store: &mut ArticleStore,
        identity: Option<u128>,
        permission: &Option<i16>,
    ) -> (res: Result<bool, ArticleError>)
        requires
            old(store).wf(),
        ensures
            final(store).wf(),
            res == verdict(self.user_id, identity, *permission),
            final(store)@ == if res == Ok::<bool, ArticleError>(true) {
                after_delete(old(store)@, self.article_id)
            } else {
                old(store)@
            },
    {
        match self.decide(identity, permission) {
            Ok(true) => Ok(Articles::delete_with_id(store, self.article_id).is_ok()),
            Ok(false) => Ok(false),
            Err(e) => Err(e),
        }
    }
}

} // verus!
