use article_store::article::{
    show_all, ArticleError, Articles, RawArticles, Variant, STATUS_DELETED, STATUS_FROZEN,
    STATUS_NORMAL,
};
use article_store::mutation::InsertArticle;
use article_store::query::{statement_outcome, ArticlesWithTotal};
use article_store::store::ArticleStore;

const NEWS: u128 = 7;
const BLOGS: u128 = 8;

fn draft(title: &str, section: u128) -> InsertArticle {
    InsertArticle {
        title: title.to_string(),
        raw_content: format!("# {}", title),
        content: format!("<h1>{}</h1>", title),
        section_id: section,
        author_id: 99,
        tags: "rust".to_string(),
    }
}

fn filled(count: u128, section: u128) -> ArticleStore {
    let mut store = ArticleStore::new();
    for n in 0..count {
        let res = draft(&format!("article {}", n), section).insert(&mut store, 1000 + n, n as i64);
        assert_eq!(res, Ok(1));
    }
    store
}

fn row(id: u128) -> RawArticles {
    RawArticles {
        id,
        title: "t".to_string(),
        raw_content: "*raw*".to_string(),
        content: "<em>raw</em>".to_string(),
        section_id: NEWS,
        author_id: 3,
        tags: "a,b".to_string(),
        created_time: 12,
        status: STATUS_NORMAL,
    }
}

#[test]
fn html_variant_takes_the_markup() {
    let shown = row(1).into_html();
    assert_eq!(shown.content, "<em>raw</em>");
    assert_eq!(shown.id, 1);
    assert_eq!(shown.title, "t");
    assert_eq!(shown.section_id, NEWS);
    assert_eq!(shown.author_id, 3);
    assert_eq!(shown.tags, "a,b");
    assert_eq!(shown.created_time, 12);
    assert_eq!(shown.status, STATUS_NORMAL);
}

#[test]
fn markdown_variant_takes_the_source() {
    let shown = row(1).into_markdown();
    assert_eq!(shown.content, "*raw*");
    assert_eq!(shown.id, 1);
    assert_eq!(shown.title, "t");
    assert_eq!(shown.tags, "a,b");
}

#[test]
fn variants_differ_in_content_only() {
    let html = row(5).into_variant(Variant::Rendered);
    let markdown = row(5).into_variant(Variant::Raw);
    assert_eq!(html.content, "<em>raw</em>");
    assert_eq!(markdown.content, "*raw*");
    assert_eq!(html.id, markdown.id);
    assert_eq!(html.title, markdown.title);
    assert_eq!(html.section_id, markdown.section_id);
    assert_eq!(html.author_id, markdown.author_id);
    assert_eq!(html.tags, markdown.tags);
    assert_eq!(html.created_time, markdown.created_time);
    assert_eq!(html.status, markdown.status);
}

#[test]
fn show_all_keeps_the_order() {
    let shown = show_all(vec![row(1), row(2), row(3)], Variant::Raw);
    let ids: Vec<u128> = shown.iter().map(|a| a.id).collect();
    assert_eq!(ids, vec![1, 2, 3]);
    assert!(shown.iter().all(|a| a.content == "*raw*"));
    assert!(show_all(Vec::new(), Variant::Rendered).is_empty());
}

#[test]
fn third_page_of_forty_five_holds_five() {
    let store = filled(45, NEWS);
    let paged = Articles::query_articles_with_section_id_paging(&store, NEWS, 3, 20).unwrap();
    assert_eq!(paged.articles.len(), 5);
    assert_eq!(paged.total, 45);
    assert_eq!(paged.max_page, 3);
    let ids: Vec<u128> = paged.articles.iter().map(|a| a.id).collect();
    assert_eq!(ids, vec![1004, 1003, 1002, 1001, 1000]);
}

#[test]
fn first_pages_are_full_and_newest_first() {
    let store = filled(45, NEWS);
    let first = Articles::query_articles_with_section_id_paging(&store, NEWS, 1, 20).unwrap();
    assert_eq!(first.articles.len(), 20);
    assert_eq!(first.articles[0].id, 1044);
    assert_eq!(first.articles[19].id, 1025);
    let second = Articles::query_articles_with_section_id_paging(&store, NEWS, 2, 20).unwrap();
    assert_eq!(second.articles.len(), 20);
    assert_eq!(second.articles[0].id, 1024);
    assert_eq!(second.articles[19].id, 1005);
    for page in [&first, &second] {
        assert_eq!(page.total, 45);
        assert_eq!(page.max_page, 3);
        for pair in page.articles.windows(2) {
            assert!(pair[0].created_time >= pair[1].created_time);
        }
        for article in &page.articles {
            assert_eq!(article.status, STATUS_NORMAL);
            assert_eq!(article.section_id, NEWS);
        }
    }
}

#[test]
fn page_behind_the_last_is_empty() {
    let store = filled(45, NEWS);
    let paged = Articles::query_articles_with_section_id_paging(&store, NEWS, 4, 20).unwrap();
    assert!(paged.articles.is_empty());
    assert_eq!(paged.total, 45);
    assert_eq!(paged.max_page, 3);
    let far = Articles::query_articles_with_section_id_paging(&store, NEWS, i64::MAX, i64::MAX)
        .unwrap();
    assert!(far.articles.is_empty());
    assert_eq!(far.total, 45);
    assert_eq!(far.max_page, 1);
}

#[test]
fn total_does_not_depend_on_the_page() {
    let store = filled(13, NEWS);
    for page in 1..6 {
        for page_size in 1..15 {
            let paged =
                Articles::query_articles_with_section_id_paging(&store, NEWS, page, page_size)
                    .unwrap();
            assert_eq!(paged.total, 13);
            assert!(paged.articles.len() as i64 <= page_size);
        }
    }
}

#[test]
fn empty_section_gives_an_empty_page() {
    let store = filled(3, NEWS);
    let paged = Articles::query_articles_with_section_id_paging(&store, BLOGS, 1, 20).unwrap();
    assert!(paged.articles.is_empty());
    assert_eq!(paged.total, 0);
    assert_eq!(paged.max_page, 0);
    assert_eq!(Articles::query_articles_with_section_id(&store, BLOGS).unwrap().len(), 0);
}

#[test]
fn page_below_one_is_refused() {
    let store = filled(3, NEWS);
    for page in [0, -1, i64::MIN] {
        let res = Articles::query_articles_with_section_id_paging(&store, NEWS, page, 20);
        assert!(matches!(res, Err(ArticleError::Validation)));
    }
}

#[test]
fn page_size_below_one_is_refused() {
    let store = filled(3, NEWS);
    for page_size in [0, -20] {
        let res = Articles::query_articles_with_section_id_paging(&store, NEWS, 1, page_size);
        assert!(matches!(res, Err(ArticleError::Validation)));
        let raw = Articles::raw_articles_with_section_id_paging(&store, NEWS, 1, page_size);
        assert!(matches!(raw, Err(ArticleError::Validation)));
    }
}

#[test]
fn raw_page_holds_both_texts() {
    let store = filled(3, NEWS);
    let paged = Articles::raw_articles_with_section_id_paging(&store, NEWS, 1, 2).unwrap();
    assert_eq!(paged.articles.len(), 2);
    assert_eq!(paged.total, 3);
    assert_eq!(paged.max_page, 2);
    assert_eq!(paged.articles[0].raw_content, "# article 2");
    assert_eq!(paged.articles[0].content, "<h1>article 2</h1>");
}

#[test]
fn page_in_the_source_variant() {
    let store = filled(3, NEWS);
    let paged = Articles::page_variant(&store, NEWS, 2, 2, Variant::Raw).unwrap();
    assert_eq!(paged.articles.len(), 1);
    assert_eq!(paged.articles[0].content, "# article 0");
    assert_eq!(paged.total, 3);
    assert_eq!(paged.max_page, 2);
}

#[test]
fn assemble_computes_the_page_count() {
    let paged = ArticlesWithTotal::assemble(vec![row(1), row(2)], 41, 20);
    assert_eq!(paged.articles.len(), 2);
    assert_eq!(paged.total, 41);
    assert_eq!(paged.max_page, 3);
    let shown = paged.show(Variant::Rendered);
    assert_eq!(shown.articles.len(), 2);
    assert_eq!(shown.articles[0].id, 1);
    assert_eq!(shown.articles[1].content, "<em>raw</em>");
    assert_eq!(shown.total, 41);
    assert_eq!(shown.max_page, 3);
}

#[test]
fn failed_statement_becomes_a_store_error() {
    assert_eq!(statement_outcome(Ok(3usize)), Ok(3));
    assert_eq!(
        statement_outcome::<usize>(Err("connection reset".to_string())),
        Err(ArticleError::Store("connection reset".to_string()))
    );
}

#[test]
fn page_from_two_statements() {
    let paged =
        ArticlesWithTotal::from_statements(Ok(vec![row(1), row(2)]), Ok(45), 20).unwrap();
    assert_eq!(paged.articles.len(), 2);
    assert_eq!(paged.articles[0].id, 1);
    assert_eq!(paged.articles[1].id, 2);
    assert_eq!(paged.total, 45);
    assert_eq!(paged.max_page, 3);
    let empty = ArticlesWithTotal::from_statements(Ok(Vec::new()), Ok(0), 20).unwrap();
    assert!(empty.articles.is_empty());
    assert_eq!(empty.total, 0);
    assert_eq!(empty.max_page, 0);
}

#[test]
fn page_from_statements_refuses_a_page_size_below_one() {
    for page_size in [0, -1, i64::MIN] {
        let res = ArticlesWithTotal::from_statements(Ok(vec![row(1)]), Ok(1), page_size);
        assert!(matches!(res, Err(ArticleError::Validation)));
        let failed = ArticlesWithTotal::from_statements(Err("down".to_string()), Ok(1), page_size);
        assert!(matches!(failed, Err(ArticleError::Validation)));
    }
}

#[test]
fn page_from_a_failed_statement() {
    let fetch = ArticlesWithTotal::from_statements(Err("no fetch".to_string()), Ok(45), 20);
    assert!(matches!(fetch, Err(ArticleError::Store(detail)) if detail == "no fetch"));
    let count = ArticlesWithTotal::from_statements(Ok(vec![row(1)]), Err("no count".to_string()), 20);
    assert!(matches!(count, Err(ArticleError::Store(detail)) if detail == "no count"));
    let both = ArticlesWithTotal::from_statements(
        Err("no fetch".to_string()),
        Err("no count".to_string()),
        20,
    );
    assert!(matches!(both, Err(ArticleError::Store(detail)) if detail == "no fetch"));
}

#[test]
fn listing_holds_only_visible_rows_of_the_section() {
    let mut store = filled(4, NEWS);
    assert_eq!(draft("elsewhere", BLOGS).insert(&mut store, 1, 50), Ok(1));
    assert!(store.insert_row(RawArticles { created_time: 2, status: STATUS_FROZEN, ..row(11) }));
    assert!(store.insert_row(RawArticles { created_time: 1, status: STATUS_DELETED, ..row(12) }));
    assert_eq!(store.mark_deleted(1001), 1);
    assert_eq!(store.mark_deleted(1002), 1);
    let listed = Articles::query_articles_with_section_id(&store, NEWS).unwrap();
    let ids: Vec<u128> = listed.iter().map(|a| a.id).collect();
    assert_eq!(ids, vec![1003, 1000]);
    assert_eq!(listed[0].content, "<h1>article 3</h1>");
    assert_eq!(store.count_section(NEWS), 2);
    let raw = Articles::section_variant(&store, NEWS, Variant::Raw).unwrap();
    assert_eq!(raw[0].content, "# article 3");
    let rows = Articles::raw_articles_with_section_id(&store, NEWS).unwrap();
    assert_eq!(rows.len(), 2);
    let paged = Articles::query_articles_with_section_id_paging(&store, NEWS, 1, 20).unwrap();
    assert_eq!(paged.total, 2);
    assert_eq!(paged.max_page, 1);
    assert_eq!(store.len(), 7);
}

#[test]
fn rows_of_one_time_stand_as_they_came() {
    let mut store = ArticleStore::new();
    assert_eq!(draft("a", NEWS).insert(&mut store, 1, 10), Ok(1));
    assert_eq!(draft("b", NEWS).insert(&mut store, 2, 30), Ok(1));
    assert_eq!(draft("c", NEWS).insert(&mut store, 3, 10), Ok(1));
    assert_eq!(draft("d", NEWS).insert(&mut store, 4, 20), Ok(1));
    assert_eq!(draft("e", NEWS).insert(&mut store, 5, 40), Ok(1));
    let listed = Articles::query_articles_with_section_id(&store, NEWS).unwrap();
    let ids: Vec<u128> = listed.iter().map(|a| a.id).collect();
    assert_eq!(ids, vec![5, 2, 4, 1, 3]);
}

#[test]
fn lookup_by_identifier_in_both_variants() {
    let store = filled(3, NEWS);
    let html = Articles::query_article(&store, 1001).unwrap();
    assert_eq!(html.content, "<h1>article 1</h1>");
    assert_eq!(html.title, "article 1");
    assert_eq!(html.created_time, 1);
    let markdown = Articles::query_raw_article(&store, 1001).unwrap();
    assert_eq!(markdown.content, "# article 1");
    assert_eq!(markdown.title, "article 1");
    let chosen = Articles::query_variant(&store, 1002, Variant::Raw).unwrap();
    assert_eq!(chosen.content, "# article 2");
}

#[test]
fn lookup_of_an_unknown_identifier_finds_nothing() {
    let store = filled(3, NEWS);
    assert!(matches!(Articles::query_article(&store, 5), Err(ArticleError::NotFound)));
    assert!(matches!(Articles::query_raw_article(&store, 5), Err(ArticleError::NotFound)));
    let empty = ArticleStore::new();
    assert!(matches!(Articles::query_article(&empty, 1000), Err(ArticleError::NotFound)));
}

#[test]
fn lookup_does_not_show_frozen_or_deleted_rows() {
    let mut store = filled(3, NEWS);
    assert!(store.insert_row(RawArticles { status: STATUS_FROZEN, ..row(1) }));
    assert!(store.insert_row(RawArticles { status: STATUS_DELETED, ..row(2) }));
    assert!(store.insert_row(RawArticles { status: 7, ..row(3) }));
    assert_eq!(store.mark_deleted(1001), 1);
    for id in [1, 2, 3, 1001] {
        assert!(matches!(Articles::query_article(&store, id), Err(ArticleError::NotFound)));
        assert!(matches!(Articles::query_raw_article(&store, id), Err(ArticleError::NotFound)));
        assert!(store.fetch(id).is_none());
    }
    assert_eq!(store.row(1).unwrap().status, STATUS_FROZEN);
    assert_eq!(store.row(2).unwrap().status, STATUS_DELETED);
    assert_eq!(store.row(1001).unwrap().status, STATUS_DELETED);
    assert_eq!(store.row(1001).unwrap().title, "article 1");
    assert!(store.row(4).is_none());
    assert!(Articles::query_article(&store, 1002).is_ok());
}

#[test]
fn from_lookup_tells_found_from_missing() {
    let found = Articles::from_lookup(Some(row(4)), Variant::Raw).unwrap();
    assert_eq!(found.id, 4);
    assert_eq!(found.content, "*raw*");
    assert!(matches!(
        Articles::from_lookup(None, Variant::Rendered),
        Err(ArticleError::NotFound)
    ));
}

#[test]
fn store_reads_by_section_and_identifier() {
    let store = filled(5, NEWS);
    assert_eq!(store.count_section(NEWS), 5);
    assert_eq!(store.count_section(BLOGS), 0);
    assert_eq!(store.fetch_section(NEWS).len(), 5);
    assert_eq!(store.fetch(1003).unwrap().title, "article 3");
    assert!(store.fetch(3).is_none());
}
