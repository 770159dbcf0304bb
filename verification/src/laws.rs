//! What holds of the engines on every table, proved from the model of the
//! table and of its statements.

use crate::article::{Row, Variant, STATUS_DELETED, STATUS_NORMAL};
use crate::mutation::{rendered_by, NewArticle};
use crate::paging::{page_of, valid_page};
use crate::query::{lookup, section_list, section_page};
use crate::table::{
    after_delete, after_edit, after_insert, distinct_ids, find, find_is_row_at,
    has_id, has_visible, in_section, is_slot, listing, newest_first, slot, table_ok,
};
use vstd::prelude::*;

verus! {

/// Every row of a listing is a visible row of the section, and occurs in
/// the table.
pub proof fn listing_holds_section_rows(t: Seq<Row>, section: u128)
    ensures
        listing(t, section).len() <= t.len(),
        forall|k: int|
            0 <= k < listing(t, section).len() ==> {
                &&& (#[trigger] listing(t, section)[k]).visible()
                &&& listing(t, section)[k].section_id == section
                &&& t.contains(listing(t, section)[k])
            },
{
    let l = listing(t, section);
    t.lemma_filter_len(in_section(section));
    assert forall|k: int| 0 <= k < l.len() implies {
        &&& (#[trigger] l[k]).visible()
        &&& l[k].section_id == section
        &&& t.contains(l[k])
    } by {
        t.lemma_filter_pred(in_section(section), k);
        assert(l.contains(l[k]));
        t.lemma_filter_contains_rev(in_section(section), l[k]);
    }
}

/// A listing of a table that stands newest first stands newest first.
pub proof fn listing_keeps_order(t: Seq<Row>, section: u128)
    requires
        newest_first(t),
    ensures
        newest_first(listing(t, section)),
    decreases t.len(),
{
    reveal(Seq::filter);
    if t.len() > 0 {
        let rest = t.drop_last();
        listing_keeps_order(rest, section);
        listing_holds_section_rows(rest, section);
        let l = listing(rest, section);
        assert forall|k: int| 0 <= k < l.len() implies (#[trigger] l[k]).created_time
            >= t.last().created_time by {
            assert(rest.contains(l[k]));
            let i = choose|i: int| 0 <= i < rest.len() && rest[i] == l[k];
            assert(t[i].created_time >= t[t.len() - 1].created_time);
        }
    }
}

/// A page of a listing holds at most `page_size` articles; each is visible
/// and of the section; they stand newest first.
pub proof fn page_is_bounded_matching_and_ordered(
    t: Seq<Row>,
    section: u128,
    page: int,
    page_size: int,
    variant: Variant,
)
    requires
        table_ok(t),
        valid_page(page, page_size),
    ensures
        section_page(t, section, page, page_size, variant).len() <= page_size,
        forall|k: int|
            0 <= k < section_page(t, section, page, page_size, variant).len() ==> {
                &&& (#[trigger] section_page(t, section, page, page_size, variant)[k]).status
                    == STATUS_NORMAL
                &&& section_page(t, section, page, page_size, variant)[k].section_id == section
            },
        forall|i: int, j: int|
            0 <= i <= j < section_page(t, section, page, page_size, variant).len()
                ==> section_page(t, section, page, page_size, variant)[i].created_time
                >= section_page(t, section, page, page_size, variant)[j].created_time,
{
    let l = listing(t, section);
    let p = page_of(l, page, page_size);
    let out = section_page(t, section, page, page_size, variant);
    listing_holds_section_rows(t, section);
    listing_keeps_order(t, section);
    assert(page_size * (page - 1) >= 0) by (nonlinear_arith)
        requires
            page >= 1,
            page_size >= 1,
    ;
    let start = if page_size * (page - 1) < l.len() {
        page_size * (page - 1)
    } else {
        l.len() as int
    };
    assert forall|k: int| 0 <= k < out.len() implies {
        &&& (#[trigger] out[k]).status == STATUS_NORMAL
        &&& out[k].section_id == section
    } by {
        assert(p[k] == l[start + k]);
        assert(l[start + k].visible());
    }
    assert forall|i: int, j: int| 0 <= i <= j < out.len() implies out[i].created_time
        >= out[j].created_time by {
        assert(p[i] == l[start + i]);
        assert(p[j] == l[start + j]);
    }
}

/// The pages of a listing, one behind the other, are the listing: page
/// `page` starts where the pages before it end.
pub proof fn page_starts_behind_earlier_pages(t: Seq<Row>, section: u128, page: int, page_size: int)
    requires
        valid_page(page, page_size),
        page_size * (page - 1) <= listing(t, section).len(),
    ensures
        page_of(listing(t, section), page, page_size) == listing(t, section).subrange(
            page_size * (page - 1),
            if page_size * page <= listing(t, section).len() {
                page_size * page
            } else {
                listing(t, section).len() as int
            },
        ),
{
    assert(page_size * (page - 1) + page_size == page_size * page) by (nonlinear_arith);
}

/// In a table that stands newest first, every creation time has its place.
pub proof fn slot_exists(t: Seq<Row>, time: i64)
    requires
        newest_first(t),
    ensures
        is_slot(t, time, slot(t, time)),
    decreases t.len(),
{
    if t.len() == 0 {
        assert(is_slot(t, time, 0));
    } else {
        let rest = t.drop_last();
        slot_exists(rest, time);
        let p = slot(rest, time);
        if t.last().created_time >= time {
            assert forall|i: int| 0 <= i < t.len() implies (#[trigger] t[i]).created_time
                >= time by {
                assert(t[i].created_time >= t[t.len() - 1].created_time);
            }
            assert(is_slot(t, time, t.len() as int));
        } else {
            assert forall|i: int| 0 <= i < p implies (#[trigger] t[i]).created_time >= time by {
                assert(rest[i].created_time >= time);
            }
            assert forall|i: int| p <= i < t.len() implies (#[trigger] t[i]).created_time
                < time by {
                if i < t.len() - 1 {
                    assert(rest[i].created_time < time);
                }
            }
            assert(is_slot(t, time, p));
        }
    }
}

/// An insert with an unused identifier keeps the table in order, keeps
/// every row that was there, and adds the new row.
pub proof fn insert_keeps_table(t: Seq<Row>, row: Row)
    requires
        table_ok(t),
        !has_id(t, row.id),
        t.len() < i64::MAX,
    ensures
        table_ok(after_insert(t, row)),
        after_insert(t, row).len() == t.len() + 1,
        after_insert(t, row).contains(row),
        forall|i: int| 0 <= i < t.len() ==> after_insert(t, row).contains(#[trigger] t[i]),
{
    slot_exists(t, row.created_time);
    let p = slot(t, row.created_time);
    let u = after_insert(t, row);
    t.insert_ensures(p, row);
    assert(u[p] == row);
    assert forall|i: int| 0 <= i < t.len() implies u.contains(#[trigger] t[i]) by {
        if i < p {
            assert(u[i] == t[i]);
        } else {
            assert(u[i + 1] == t[i]);
        }
    }
    assert forall|i: int| 0 <= i < u.len() && i != p implies (exists|k: int|
        0 <= k < t.len() && t[k] == #[trigger] u[i] && (i < p ==> k == i) && (i > p ==> k == i
            - 1)) by {
        if i < p {
            assert(u[i] == t[i]);
        } else {
            assert(u[(i - 1) + 1] == t[i - 1]);
        }
    }
    assert forall|i: int, j: int| 0 <= i < j < u.len() implies u[i].id != u[j].id by {
        let a = if i < p {
            i
        } else {
            i - 1
        };
        let b = if j < p {
            j
        } else {
            j - 1
        };
        if i == p {
            assert(u[j] == t[b]);
            assert(t[b].id != row.id);
        } else if j == p {
            assert(u[i] == t[a]);
            assert(t[a].id != row.id);
        } else {
            assert(u[i] == t[a]);
            assert(u[j] == t[b]);
            assert(t[a].id != t[b].id);
        }
    }
    assert forall|i: int, j: int| 0 <= i <= j < u.len() implies u[i].created_time
        >= u[j].created_time by {
        let a = if i < p {
            i
        } else {
            i - 1
        };
        let b = if j < p {
            j
        } else {
            j - 1
        };
        if i == p && j == p {
        } else if i == p {
            assert(u[j] == t[b]);
            assert(t[b].created_time < row.created_time);
        } else if j == p {
            assert(u[i] == t[a]);
            assert(t[a].created_time >= row.created_time);
        } else {
            assert(u[i] == t[a]);
            assert(u[j] == t[b]);
            assert(t[a].created_time >= t[b].created_time);
        }
    }
}

/// After a visible row was inserted under an unused identifier, a lookup
/// of that identifier finds the row.
pub proof fn insert_then_find(t: Seq<Row>, row: Row)
    requires
        table_ok(t),
        !has_id(t, row.id),
        t.len() < i64::MAX,
        row.visible(),
    ensures
        find(after_insert(t, row), row.id) == Some(row),
        forall|variant: Variant| #[trigger]
            lookup(after_insert(t, row), row.id, variant) == Some(row.shown(variant)),
{
    insert_keeps_table(t, row);
    let u = after_insert(t, row);
    let p = choose|p: int| 0 <= p < u.len() && u[p] == row;
    find_is_row_at(u, p);
}

/// After an article was inserted under an unused identifier, a lookup of
/// that identifier hands out the source text as it was handed in where the
/// source is asked for, and what the renderer made of it where the markup
/// is.
pub proof fn insert_then_lookup<F: Fn(&str) -> String>(
    t: Seq<Row>,
    article: NewArticle,
    render: &F,
    content: Seq<char>,
    id: u128,
    now: i64,
)
    requires
        table_ok(t),
        !has_id(t, id),
        t.len() < i64::MAX,
        rendered_by(render, article.raw_content@, content),
    ensures
        lookup(after_insert(t, article.row(content, id, now)), id, Variant::Raw) matches Some(shown)
            && shown.content == article.raw_content@,
        lookup(after_insert(t, article.row(content, id, now)), id, Variant::Rendered) matches Some(
            shown,
        ) && rendered_by(render, article.raw_content@, shown.content),
{
    insert_then_find(t, article.row(content, id, now));
}

/// An insert leaves every other article as it was: what a lookup of another
/// identifier finds does not change.
pub proof fn insert_keeps_the_others(t: Seq<Row>, row: Row, other: u128)
    requires
        table_ok(t),
        !has_id(t, row.id),
        t.len() < i64::MAX,
        other != row.id,
    ensures
        find(after_insert(t, row), other) == find(t, other),
{
    insert_keeps_table(t, row);
    slot_exists(t, row.created_time);
    let p = slot(t, row.created_time);
    let u = after_insert(t, row);
    t.insert_ensures(p, row);
    if has_visible(t, other) {
        let i = choose|i: int| 0 <= i < t.len() && (#[trigger] t[i]).id == other && t[i].visible();
        find_is_row_at(t, i);
        if i < p {
            assert(u[i] == t[i]);
            find_is_row_at(u, i);
        } else {
            assert(u[i + 1] == t[i]);
            find_is_row_at(u, i + 1);
        }
    } else {
        if has_visible(u, other) {
            let j = choose|j: int|
                0 <= j < u.len() && (#[trigger] u[j]).id == other && u[j].visible();
            if j < p {
                assert(u[j] == t[j]);
                assert(t[j].id == other && t[j].visible());
            } else {
                assert(j != p);
                assert(u[(j - 1) + 1] == t[j - 1]);
                assert(t[j - 1].id == other && t[j - 1].visible());
            }
        }
    }
}

/// After a soft delete no read shows the article: a lookup of its
/// identifier finds nothing and no listing holds it. A second soft delete
/// changes nothing.
pub proof fn deleted_is_hidden(t: Seq<Row>, id: u128)
    ensures
        find(after_delete(t, id), id) is None,
        forall|variant: Variant| (#[trigger] lookup(after_delete(t, id), id, variant)) is None,
        forall|section: u128, k: int|
            0 <= k < listing(after_delete(t, id), section).len() ==> (#[trigger] listing(
                after_delete(t, id),
                section,
            )[k]).id != id,
        forall|section: u128, variant: Variant, k: int|
            0 <= k < section_list(after_delete(t, id), section, variant).len()
                ==> (#[trigger] section_list(after_delete(t, id), section, variant)[k]).id != id,
        after_delete(after_delete(t, id), id) == after_delete(t, id),
        table_ok(t) ==> table_ok(after_delete(t, id)),
        forall|k: int|
            0 <= k < t.len() ==> (#[trigger] after_delete(t, id)[k]) == t[k] || (t[k].id == id
                && after_delete(t, id)[k] == Row { status: STATUS_DELETED, ..t[k] }),
{
    let d = after_delete(t, id);
    assert(!has_visible(d, id));
    assert forall|section: u128, k: int| 0 <= k < listing(d, section).len() implies (
    #[trigger] listing(d, section)[k]).id != id by {
        listing_holds_section_rows(d, section);
        let r = listing(d, section)[k];
        assert(d.contains(r));
        let i = choose|i: int| 0 <= i < d.len() && d[i] == r;
        assert(d[i].visible());
    }
    assert forall|section: u128, variant: Variant, k: int|
        0 <= k < section_list(d, section, variant).len() implies (#[trigger] section_list(
        d,
        section,
        variant,
    )[k]).id != id by {
        assert(listing(d, section)[k].id != id);
    }
    assert(after_delete(d, id) =~= d);
}

/// A soft delete leaves every other article as it was: what a lookup of
/// another identifier finds does not change.
pub proof fn delete_keeps_the_others(t: Seq<Row>, id: u128, other: u128)
    requires
        distinct_ids(t),
        other != id,
    ensures
        find(after_delete(t, id), other) == find(t, other),
{
    let d = after_delete(t, id);
    assert(distinct_ids(d));
    if has_visible(t, other) {
        let i = choose|i: int| 0 <= i < t.len() && (#[trigger] t[i]).id == other && t[i].visible();
        assert(d[i] == t[i]);
        find_is_row_at(t, i);
        find_is_row_at(d, i);
    } else {
        if has_visible(d, other) {
            let i = choose|i: int|
                0 <= i < d.len() && (#[trigger] d[i]).id == other && d[i].visible();
            assert(t[i].id == other && t[i].visible());
        }
    }
}

/// An edit gives the row with the identifier its new title, source text,
/// markup and tags, and leaves its identifier, section, author, creation
/// time and status as they were; every other row stays as it was.
pub proof fn edit_keeps_the_rest(
    t: Seq<Row>,
    id: u128,
    title: Seq<char>,
    raw_content: Seq<char>,
    content: Seq<char>,
    tags: Seq<char>,
)
    ensures
        after_edit(t, id, title, raw_content, content, tags).len() == t.len(),
        forall|k: int|
            0 <= k < t.len() ==> {
                let was = t[k];
                let now = #[trigger] after_edit(t, id, title, raw_content, content, tags)[k];
                &&& now.id == was.id
                &&& now.section_id == was.section_id
                &&& now.author_id == was.author_id
                &&& now.created_time == was.created_time
                &&& now.status == was.status
                &&& was.id == id ==> now.title == title && now.raw_content == raw_content
                    && now.content == content && now.tags == tags
                &&& was.id != id ==> now == was
            },
        table_ok(t) ==> table_ok(after_edit(t, id, title, raw_content, content, tags)),
{
}

/// After an edit, a lookup of a visible article hands out the new source
/// text where the source is asked for, and what the renderer made of it
/// where the markup is.
pub proof fn edit_then_lookup<F: Fn(&str) -> String>(
    t: Seq<Row>,
    id: u128,
    title: Seq<char>,
    raw_content: Seq<char>,
    render: &F,
    content: Seq<char>,
    tags: Seq<char>,
)
    requires
        distinct_ids(t),
        has_visible(t, id),
        rendered_by(render, raw_content, content),
    ensures
        lookup(after_edit(t, id, title, raw_content, content, tags), id, Variant::Raw) matches Some(
            shown,
        ) && shown.content == raw_content,
        lookup(
            after_edit(t, id, title, raw_content, content, tags),
            id,
            Variant::Rendered,
        ) matches Some(shown) && rendered_by(render, raw_content, shown.content),
{
    let e = after_edit(t, id, title, raw_content, content, tags);
    let i = choose|i: int| 0 <= i < t.len() && (#[trigger] t[i]).id == id && t[i].visible();
    assert(distinct_ids(e));
    assert(e[i].id == id && e[i].visible());
    find_is_row_at(e, i);
}

} // verus!
