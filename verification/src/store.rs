//! The article table held in memory, with the statements that the query
//! and mutation engines run against it.

use crate::article::{rows_of, RawArticles, Row, STATUS_DELETED, STATUS_NORMAL};
use crate::paging::{page_of, valid_page};
use crate::table::{
    affected, after_delete, after_edit, after_insert, find, find_is_row_at, has_id, in_section,
    is_slot, listing, others_differ, row_with, slot_is_unique, table_ok,
};
use vstd::prelude::*;

verus! {

/// The article table. Rows stand newest first; rows created at the same
/// time stand in the order in which they came.
#[derive(Debug)]
pub struct ArticleStore {
    rows: Vec<RawArticles>,
}

impl View for ArticleStore {
    type V = Seq<Row>;

    closed spec fn view(&self) -> Seq<Row> {
        rows_of(self.rows@)
    }
}

impl ArticleStore {
    /// What every store keeps: see [`table_ok`].
    pub open spec fn wf(&self) -> bool {
        table_ok(self@)
    }

    /// A store without rows.
    pub fn new() -> (store: ArticleStore)
        ensures
            store.wf(),
            store@ == Seq::<Row>::empty(),
    {
        let store = ArticleStore { rows: Vec::new() };
        assert(store@ =~= Seq::<Row>::empty());
        store
    }

    /// The number of rows, visible or not.
    pub fn len(&self) -> (n: usize)
        ensures
            n == self@.len(),
    {
        self.rows.len()
    }

    /// The place of the row with `id`, visible or not.
    fn position(&self, id: u128) -> (place: Option<usize>)
        ensures
            match place {
                Some(i) => i < self@.len() && self@[i as int].id == id,
                None => !has_id(self@, id),
            },
    {
        let mut i: usize = 0;
        while i < self.rows.len()
            invariant
                i <= self.rows@.len(),
                self@ == rows_of(self.rows@),
                forall|k: int| 0 <= k < i ==> (#[trigger] self@[k]).id != id,
            decreases self.rows@.len() - i,
        {
            if self.rows[i].id == id {
                return Some(i);
            }
            i += 1;
        }
        None
    }

    /// A copy of the visible row with `id`.
    pub fn fetch(&self, id: u128) -> (found: Option<RawArticles>)
        requires
            self.wf(),
        ensures
            match found {
                Some(row) => find(self@, id) == Some(row@),
                None => find(self@, id) is None,
            },
    {
        match self.position(id) {
            Some(i) => {
                if self.rows[i].status == STATUS_NORMAL {
                    proof {
                        find_is_row_at(self@, i as int);
                    }
                    Some(self.rows[i].duplicate())
                } else {
                    proof {
                        others_differ(self@, i as int);
                    }
                    None
                }
            },
            None => None,
        }
    }

    /// A copy of the row with `id`, visible or not.
    pub fn row(&self, id: u128) -> (found: Option<RawArticles>)
        requires
            self.wf(),
        ensures
            match found {
                Some(row) => row_with(self@, id) == Some(row@),
                None => row_with(self@, id) is None,
            },
    {
        match self.position(id) {
            Some(i) => {
                proof {
                    others_differ(self@, i as int);
                }
                Some(self.rows[i].duplicate())
            },
            None => None,
        }
    }

    /// Copies of the visible rows of `section`, newest first.
    pub fn fetch_section(&self, section: u128) -> (rows: Vec<RawArticles>)
        ensures
            rows_of(rows@) == listing(self@, section),
    {
        let mut rows: Vec<RawArticles> = Vec::new();
        let mut i: usize = 0;
        proof {
            reveal(Seq::filter);
            assert(self@.take(0) =~= Seq::<Row>::empty());
            assert(rows_of(rows@) =~= listing(self@.take(0), section));
        }
        while i < self.rows.len()
            invariant
                i <= self.rows@.len(),
                self@ == rows_of(self.rows@),
                rows_of(rows@) == listing(self@.take(i as int), section),
            decreases self.rows@.len() - i,
        {
            proof {
                self@.take(i as int).lemma_filter_push(self@[i as int], in_section(section));
                assert(self@.take(i as int).push(self@[i as int]) =~= self@.take(i + 1));
            }
            if self.rows[i].status == STATUS_NORMAL && self.rows[i].section_id == section {
                let ghost before = rows_of(rows@);
                rows.push(self.rows[i].duplicate());
                assert(rows_of(rows@) =~= before.push(self@[i as int]));
            }
            i += 1;
        }
        assert(self@.take(i as int) =~= self@);
        rows
    }

    /// The number of visible rows of `section`.
    pub fn count_section(&self, section: u128) -> (total: i64)
        requires
            self.wf(),
        ensures
            total == listing(self@, section).len(),
    {
        let mut total: i64 = 0;
        let mut i: usize = 0;
        proof {
            reveal(Seq::filter);
            assert(self@.take(0) =~= Seq::<Row>::empty());
        }
        while i < self.rows.len()
            invariant
                i <= self.rows@.len(),
                self.rows@.len() <= i64::MAX,
                self@ == rows_of(self.rows@),
                total == listing(self@.take(i as int), section).len(),
                total <= i,
            decreases self.rows@.len() - i,
        {
            proof {
                self@.take(i as int).lemma_filter_push(self@[i as int], in_section(section));
                assert(self@.take(i as int).push(self@[i as int]) =~= self@.take(i + 1));
            }
            if self.rows[i].status == STATUS_NORMAL && self.rows[i].section_id == section {
                total += 1;
            }
            i += 1;
        }
        assert(self@.take(i as int) =~= self@);
        total
    }

    /// Copies of the rows on page `page` of the listing of `section`.
    pub(crate) fn fetch_section_page(&self, section: u128, page: i64, page_size: i64) -> (rows: Vec<
        RawArticles,
    >)
        requires
            valid_page(page as int, page_size as int),
        ensures
            rows_of(rows@) == page_of(listing(self@, section), page as int, page_size as int),
    {
        proof {
            assert(0 <= page_size * (page - 1) <= 0x7fff_ffff_ffff_ffff * 0x7fff_ffff_ffff_ffff)
                by (nonlinear_arith)
                requires
                    1 <= page_size <= 0x7fff_ffff_ffff_ffff,
                    0 <= page - 1 <= 0x7fff_ffff_ffff_ffff,
            ;
        }
        let start: i128 = (page_size as i128) * ((page - 1) as i128);
        let end: i128 = start + (page_size as i128);
        let all = self.fetch_section(section);
        let mut rows: Vec<RawArticles> = Vec::new();
        let n: usize = all.len();
        let from: usize = if start < n as i128 {
            start as usize
        } else {
            n
        };
        let to: usize = if end < n as i128 {
            end as usize
        } else {
            n
        };
        let mut i: usize = from;
        while i < to
            invariant
                from <= i <= to <= n == all@.len(),
                rows_of(rows@) == rows_of(all@).subrange(from as int, i as int),
            decreases to - i,
        {
            let ghost before = rows_of(rows@);
            rows.push(all[i].duplicate());
            assert(rows_of(rows@) =~= before.push(rows_of(all@)[i as int]));
            assert(rows_of(all@).subrange(from as int, i + 1) =~= rows_of(all@).subrange(
                from as int,
                i as int,
            ).push(rows_of(all@)[i as int]));
            i += 1;
        }
        rows
    }

    /// Adds a row at its place. `false`, and nothing changes, where the
    /// row's identifier is in use or the table is full.
    pub fn insert_row(&mut self, row: RawArticles) -> (done: bool)
        requires
            old(self).wf(),
        ensures
            final(self).wf(),
            done == (!has_id(old(self)@, row.id) && old(self)@.len() < i64::MAX),
            done ==> final(self)@ == after_insert(old(self)@, row@),
            !done ==> final(self)@ == old(self)@,
    {
        if self.rows.len() as u64 >= 0x7fff_ffff_ffff_ffff {
            return false;
        }
        if self.position(row.id).is_some() {
            return false;
        }
        let mut p: usize = 0;
        while p < self.rows.len() && self.rows[p].created_time >= row.created_time
            invariant
                p <= self.rows@.len(),
                self@ == rows_of(self.rows@),
                forall|k: int| 0 <= k < p ==> (#[trigger] self@[k]).created_time >= row.created_time,
            decreases self.rows@.len() - p,
        {
            p += 1;
        }
        proof {
            let t = self@;
            assert forall|k: int| p <= k < t.len() implies (#[trigger] t[k]).created_time
                < row.created_time by {
                assert(t[p as int].created_time >= t[k].created_time);
            }
            assert(is_slot(t, row.created_time, p as int));
            slot_is_unique(t, row.created_time, p as int);
        }
        let ghost t = self@;
        let ghost r = row@;
        self.rows.insert(p, row);
        proof {
            assert(self@ =~= t.insert(p as int, r));
            t.insert_ensures(p as int, r);
        }
        true
    }

    /// Overwrites title, both texts and tags of the row with `id`, whatever
    /// its status. Returns the number of rows written: 1, or 0 where no row
    /// has the identifier.
    pub fn update_texts(
        &mut self,
        id: u128,
        title: String,
        raw_content: String,
        content: String,
        tags: String,
    ) -> (written: usize)
        requires
            old(self).wf(),
        ensures
            final(self).wf(),
            written == affected(old(self)@, id),
            final(self)@ == after_edit(old(self)@, id, title@, raw_content@, content@, tags@),
    {
        let ghost t = self@;
        match self.position(id) {
            Some(i) => {
                let row = RawArticles {
                    id: self.rows[i].id,
                    title,
                    raw_content,
                    content,
                    section_id: self.rows[i].section_id,
                    author_id: self.rows[i].author_id,
                    tags,
                    created_time: self.rows[i].created_time,
                    status: self.rows[i].status,
                };
                self.rows.set(i, row);
                proof {
                    others_differ(t, i as int);
                    assert(self@ =~= after_edit(t, id, title@, raw_content@, content@, tags@));
                }
                1
            },
            None => {
                proof {
                    assert(self@ =~= after_edit(t, id, title@, raw_content@, content@, tags@));
                }
                0
            },
        }
    }

    /// Soft-deletes the row with `id`, whatever its status. Returns the
    /// number of rows written: 1, or 0 where no row has the identifier.
    pub fn mark_deleted(&mut self, id: u128) -> (written: usize)
        requires
            old(self).wf(),
        ensures
            final(self).wf(),
            written == affected(old(self)@, id),
            final(self)@ == after_delete(old(self)@, id),
    {
        let ghost t = self@;
        match self.position(id) {
            Some(i) => {
                let mut row = self.rows[i].duplicate();
                row.status = STATUS_DELETED;
                self.rows.set(i, row);
                proof {
                    others_differ(t, i as int);
                    assert(self@ =~= after_delete(t, id));
                }
                1
            },
            None => {
                proof {
                    assert(self@ =~= after_delete(t, id));
                }
                0
            },
        }
    }
}

} // verus!
