//! Integration tests against a real in-memory archive: listing, search,
//! counting, caching and enrichment behave as specified end to end.

use post_archiver::manager::PostArchiverManager;
use post_archiver_viewer::archive::get_file_path;
use post_archiver_viewer::category::{
    author_aliases, category_get, category_list, category_list_response, category_posts,
    category_total, CategoryKind, CategoryOrderBy, Filter,
};
use post_archiver_viewer::db::{Db, DbError};
use post_archiver_viewer::entity::CategoryEntity;
use post_archiver_viewer::ids::{AuthorId, CollectionId, FileMetaId, PlatformId, PostId, TagId};
use post_archiver_viewer::pagination::Pagination;
use post_archiver_viewer::post::get_post;
use post_archiver_viewer::posts::search_posts;
use post_archiver_viewer::redirect::{get_redirect, RedirectQuery};
use post_archiver_viewer::search::{PostOrderBy, SearchQuery};
use post_archiver_viewer::state::AppState;
use post_archiver_viewer::summary::get_summary;

fn fixture() -> AppState {
    let manager = PostArchiverManager::open_in_memory().unwrap();
    {
        let conn = manager.conn();
        // the fixture inserts rows in arbitrary order and deliberately keeps
        // one dangling thumbnail reference
        conn.execute_batch("PRAGMA foreign_keys = OFF;").unwrap();
        conn.execute("INSERT INTO platforms (id, name) VALUES (?, ?)", (7u32, "pixiv")).unwrap();
        conn.execute("INSERT INTO tags (id, name, platform) VALUES (?, ?, ?)", (1u32, "alpha", 7u32))
            .unwrap();
        conn.execute("INSERT INTO tags (id, name, platform) VALUES (?, ?, NULL)", (2u32, "beta"))
            .unwrap();
        conn.execute("INSERT INTO tags (id, name, platform) VALUES (?, ?, NULL)", (3u32, "gamma"))
            .unwrap();
        conn.execute(
            "INSERT INTO authors (id, name, thumb, updated) VALUES (?, ?, ?, ?)",
            (1u32, "alice", 12u32, "2024-01-01 00:00:00"),
        )
        .unwrap();
        conn.execute(
            "INSERT INTO authors (id, name, thumb, updated) VALUES (?, ?, NULL, ?)",
            (2u32, "bob", "2024-01-02 00:00:00"),
        )
        .unwrap();
        conn.execute(
            "INSERT INTO posts (id, source, platform, title, thumb, content, comments, published, updated) \
             VALUES (?, ?, NULL, ?, ?, ?, ?, ?, ?)",
            (
                1u32,
                "https://src.example/one",
                "first post",
                11u32,
                "[\"hello\",10,10]",
                "[{\"user\":\"u\",\"text\":\"nice\"}]",
                "2024-01-01 00:00:00",
                "2024-03-03 00:00:00",
            ),
        )
        .unwrap();
        conn.execute(
            "INSERT INTO posts (id, source, platform, title, thumb, content, comments, published, updated) \
             VALUES (?, NULL, ?, ?, NULL, ?, ?, ?, ?)",
            (
                2u32,
                7u32,
                "second post",
                "[]",
                "[]",
                "2024-01-01 00:00:00",
                "2024-02-02 00:00:00",
            ),
        )
        .unwrap();
        conn.execute(
            "INSERT INTO posts (id, source, platform, title, thumb, content, comments, published, updated) \
             VALUES (?, NULL, NULL, ?, ?, ?, ?, ?, ?)",
            (
                3u32,
                "third entry",
                99u32,
                "[]",
                "[]",
                "2024-01-01 00:00:00",
                "2024-01-01 00:00:00",
            ),
        )
        .unwrap();
        for (post, tag) in [(1u32, 1u32), (1, 2), (2, 1), (3, 2)] {
            conn.execute("INSERT INTO post_tags (post, tag) VALUES (?, ?)", (post, tag)).unwrap();
        }
        conn.execute("INSERT INTO author_posts (author, post) VALUES (?, ?)", (1u32, 1u32))
            .unwrap();
        conn.execute("INSERT INTO author_posts (author, post) VALUES (?, ?)", (2u32, 2u32))
            .unwrap();
        conn.execute(
            "INSERT INTO collections (id, name, source, thumb) VALUES (?, ?, NULL, ?)",
            (5u32, "favs", 12u32),
        )
        .unwrap();
        conn.execute("INSERT INTO collection_posts (collection, post) VALUES (?, ?)", (5u32, 1u32))
            .unwrap();
        for (id, name) in [(10u32, "page1.png"), (11, "thumb.png"), (12, "alice.png")] {
            conn.execute(
                "INSERT INTO file_metas (id, filename, post, mime, extra) VALUES (?, ?, ?, ?, ?)",
                (id, name, 1u32, "image/png", "{}"),
            )
            .unwrap();
        }
        conn.execute(
            "INSERT INTO author_aliases (source, platform, link, target) VALUES (?, ?, NULL, ?)",
            ("alice@pixiv", 7u32, 1u32),
        )
        .unwrap();
    }
    AppState::new(Db::new(manager), false)
}

fn page_all() -> Pagination {
    Pagination { limit: Some(100), page: Some(0) }
}

fn query(search: &str, tags: Vec<u32>, authors: Vec<u32>, platforms: Vec<u32>) -> SearchQuery {
    SearchQuery {
        search: search.to_string(),
        tags: tags.into_iter().map(TagId).collect(),
        collections: vec![],
        authors: authors.into_iter().map(AuthorId).collect(),
        platforms: platforms.into_iter().map(PlatformId).collect(),
        order_by: PostOrderBy::Updated,
    }
}

fn result_ids(st: &mut AppState, q: &SearchQuery) -> (Vec<u32>, u64) {
    let w = search_posts(st, &page_all(), q).unwrap();
    (w.inner.list.iter().map(|p| p.id.0).collect(), w.inner.total)
}

#[test]
fn intersection_scenario() {
    // posts {1,2,3}; post 1 tagged {alpha,beta}; post 2 {alpha}; post 3 {beta}
    let mut st = fixture();
    let (ids, total) = result_ids(&mut st, &query("", vec![1, 2], vec![], vec![]));
    assert_eq!(ids, vec![1]);
    assert_eq!(total, 1);
    let (ids, total) = result_ids(&mut st, &query("", vec![1], vec![], vec![]));
    assert_eq!(ids, vec![1, 2]);
    assert_eq!(total, 2);
}

#[test]
fn partial_tag_match_is_excluded() {
    // post 1 carries two of the three requested tags and must not match
    let mut st = fixture();
    let (ids, total) = result_ids(&mut st, &query("", vec![1, 2, 3], vec![], vec![]));
    assert!(ids.is_empty());
    assert_eq!(total, 0);
}

#[test]
fn search_text_narrows_results() {
    let mut st = fixture();
    let (all, _) = result_ids(&mut st, &query("", vec![], vec![], vec![]));
    let (hits, _) = result_ids(&mut st, &query("post", vec![], vec![], vec![]));
    assert_eq!(hits, vec![1, 2]);
    for id in &hits {
        assert!(all.contains(id));
    }
    let (spaced, _) = result_ids(&mut st, &query("  post ", vec![], vec![], vec![]));
    assert_eq!(spaced, hits);
}

#[test]
fn totals_match_untruncated_rows() {
    let mut st = fixture();
    let sweeps = vec![
        query("", vec![], vec![], vec![]),
        query("", vec![1], vec![], vec![]),
        query("", vec![1, 2], vec![], vec![]),
        query("", vec![2], vec![], vec![]),
        query("post", vec![], vec![], vec![]),
        query("post", vec![1], vec![], vec![]),
        query("", vec![], vec![1], vec![]),
        query("", vec![], vec![], vec![7]),
        query("entry", vec![2], vec![], vec![]),
    ];
    for q in &sweeps {
        let (ids, total) = result_ids(&mut st, q);
        assert_eq!(ids.len() as u64, total);
    }
}

#[test]
fn platform_and_author_filters() {
    let mut st = fixture();
    let (ids, _) = result_ids(&mut st, &query("", vec![], vec![], vec![7]));
    assert_eq!(ids, vec![2]);
    let (ids, _) = result_ids(&mut st, &query("", vec![], vec![1], vec![]));
    assert_eq!(ids, vec![1]);
}

#[test]
fn search_total_cache_is_idempotent() {
    let mut st = fixture();
    let q = query("", vec![1], vec![], vec![]);
    let c0 = st.db.query_count();
    let first = search_posts(&mut st, &page_all(), &q).unwrap();
    let c1 = st.db.query_count();
    let second = search_posts(&mut st, &page_all(), &q).unwrap();
    let c2 = st.db.query_count();
    assert_eq!(first.inner.total, second.inner.total);
    // the second call saves exactly the count statement
    assert_eq!(c2 - c1, (c1 - c0) - 1);
}

#[test]
fn category_total_cache_is_idempotent() {
    let mut st = fixture();
    let c0 = st.db.query_count();
    let t1 = category_total(&mut st, CategoryKind::Tag, "").unwrap();
    let c1 = st.db.query_count();
    assert_eq!(c1, c0 + 1);
    let t2 = category_total(&mut st, CategoryKind::Tag, "").unwrap();
    // zero additional round-trips, numerically equal results
    assert_eq!(st.db.query_count(), c1);
    assert_eq!(t1, t2);
    assert_eq!(t1, 3);
}

#[test]
fn searched_totals_are_never_cached() {
    let mut st = fixture();
    let c0 = st.db.query_count();
    let t1 = category_total(&mut st, CategoryKind::Tag, "amm").unwrap();
    let t2 = category_total(&mut st, CategoryKind::Tag, "amm").unwrap();
    assert_eq!(st.db.query_count(), c0 + 2);
    assert_eq!(t1, 1);
    assert_eq!(t2, 1);
}

#[test]
fn enrichment_file_closure() {
    // content references file 10 twice, the post's thumbnail is 11, and the
    // author's thumbnail is 12: exactly {10, 11, 12}, deduplicated
    let mut st = fixture();
    let w = get_post(&mut st, PostId(1)).unwrap().unwrap();
    let mut files: Vec<u32> = w.file_metas.iter().map(|f| f.id.0).collect();
    files.sort();
    assert_eq!(files, vec![10, 11, 12]);
    let authors: Vec<&str> = w.inner.authors.iter().map(|a| a.name.as_str()).collect();
    assert_eq!(authors, vec!["alice"]);
    let mut tags: Vec<u32> = w.inner.tags.iter().map(|t| t.id.0).collect();
    tags.sort();
    assert_eq!(tags, vec![1, 2]);
    // the platform arrives through the resolved tag
    let platforms: Vec<u32> = w.platforms.iter().map(|p| p.id.0).collect();
    assert_eq!(platforms, vec![7]);
    assert_eq!(w.inner.comments.len(), 1);
    assert_eq!(w.inner.comments[0].user, "u");
}

#[test]
fn dangling_thumbnail_degrades_gracefully() {
    // post 3 points at file 99, which does not exist: no error, the file is
    // simply absent from the resolved list
    let mut st = fixture();
    let w = get_post(&mut st, PostId(3)).unwrap().unwrap();
    assert_eq!(w.inner.thumb, Some(FileMetaId(99)));
    assert!(w.file_metas.is_empty());
}

#[test]
fn missing_post_is_none() {
    let mut st = fixture();
    assert!(get_post(&mut st, PostId(444)).unwrap().is_none());
}

#[test]
fn category_listing_orders_and_searches() {
    let mut st = fixture();
    let rows = category_list(&mut st, CategoryKind::Tag, &page_all(), "", None).unwrap();
    let names: Vec<String> = rows
        .iter()
        .map(|e| match e {
            CategoryEntity::Tag(t) => t.name.clone(),
            _ => panic!("not a tag"),
        })
        .collect();
    assert_eq!(names, vec!["alpha", "beta", "gamma"]);
    let rows = category_list(&mut st, CategoryKind::Tag, &page_all(), "amm", None).unwrap();
    assert_eq!(rows.len(), 1);
    let rows =
        category_list(&mut st, CategoryKind::Tag, &page_all(), "", Some(CategoryOrderBy::Id))
            .unwrap();
    let ids: Vec<u32> = rows
        .iter()
        .map(|e| match e {
            CategoryEntity::Tag(t) => t.id.0,
            _ => panic!("not a tag"),
        })
        .collect();
    assert_eq!(ids, vec![3, 2, 1]);
}

#[test]
fn category_listing_response_is_enriched() {
    let mut st = fixture();
    let filter = Filter { search: String::new(), order_by: None };
    let w = category_list_response(&mut st, CategoryKind::Tag, &page_all(), &filter).unwrap();
    assert_eq!(w.inner.total, 3);
    assert_eq!(w.inner.list.len(), 3);
    let platforms: Vec<u32> = w.platforms.iter().map(|p| p.id.0).collect();
    assert_eq!(platforms, vec![7]);
}

#[test]
fn category_get_resolves_relations() {
    let mut st = fixture();
    let w = category_get(&mut st, CategoryKind::Tag, 1).unwrap().unwrap();
    match &w.inner {
        CategoryEntity::Tag(t) => assert_eq!(t.name, "alpha"),
        _ => panic!("not a tag"),
    }
    assert_eq!(w.platforms.len(), 1);
    assert_eq!(w.platforms[0].name, "pixiv");
    let w = category_get(&mut st, CategoryKind::Collection, 5).unwrap().unwrap();
    match &w.inner {
        CategoryEntity::Collection(c) => assert_eq!(c.thumb, Some(FileMetaId(12))),
        _ => panic!("not a collection"),
    }
    assert_eq!(w.file_metas.len(), 1);
    assert_eq!(w.file_metas[0].filename, "alice.png");
    assert!(category_get(&mut st, CategoryKind::Tag, 999).unwrap().is_none());
}

#[test]
fn category_posts_listing_and_cache() {
    let mut st = fixture();
    let w = category_posts(&mut st, CategoryKind::Tag, 1, &page_all()).unwrap();
    let ids: Vec<u32> = w.inner.list.iter().map(|p| p.id.0).collect();
    assert_eq!(ids, vec![1, 2]);
    assert_eq!(w.inner.total, 2);
    // a second identical count comes from the per-kind cache
    let c1 = st.db.query_count();
    let w2 = category_posts(&mut st, CategoryKind::Tag, 1, &page_all()).unwrap();
    assert_eq!(w2.inner.total, 2);
    // rows and enrichment still run; the count statement does not
    assert_eq!(st.db.query_count() - c1, 2);
    // the second page of a one-row window
    let page = Pagination { limit: Some(1), page: Some(1) };
    let w = category_posts(&mut st, CategoryKind::Tag, 1, &page).unwrap();
    let ids: Vec<u32> = w.inner.list.iter().map(|p| p.id.0).collect();
    assert_eq!(ids, vec![2]);
    assert_eq!(w.inner.total, 2);
    let w = category_posts(&mut st, CategoryKind::Platform, 7, &page_all()).unwrap();
    let ids: Vec<u32> = w.inner.list.iter().map(|p| p.id.0).collect();
    assert_eq!(ids, vec![2]);
}

#[test]
fn author_alias_listing() {
    let mut st = fixture();
    let w = author_aliases(&mut st, AuthorId(1)).unwrap();
    assert_eq!(w.inner.total, 1);
    assert_eq!(w.inner.list[0].source, "alice@pixiv");
    assert_eq!(w.inner.list[0].target, AuthorId(1));
    let platforms: Vec<u32> = w.platforms.iter().map(|p| p.id.0).collect();
    assert_eq!(platforms, vec![7]);
}

#[test]
fn summary_counts_every_table() {
    let mut st = fixture();
    let s = get_summary(&mut st).unwrap();
    assert_eq!(s.tags, 3);
    assert_eq!(s.authors, 2);
    assert_eq!(s.collections, 1);
    // the archive template seeds the unknown platform, plus the fixture's
    assert_eq!(s.platforms, 2);
    assert_eq!(s.version, post_archiver::utils::VERSION);
    assert_eq!(s.post_archiver_version, post_archiver::utils::VERSION);
}

#[test]
fn redirects_resolve_known_sources() {
    let mut st = fixture();
    let r = get_redirect(&mut st, RedirectQuery { url: "https://src.example/one".to_string() });
    assert_eq!(r, "/posts/1");
    let r = get_redirect(&mut st, RedirectQuery { url: "https://src.example/nope".to_string() });
    assert_eq!(r, "https://src.example/nope");
}

#[test]
fn file_locations_resolve_or_are_absent() {
    let mut st = fixture();
    let p = get_file_path(&mut st, FileMetaId(10)).unwrap().unwrap();
    assert_eq!(p, "0/1/page1.png");
    assert!(get_file_path(&mut st, FileMetaId(404)).unwrap().is_none());
}

#[test]
fn preview_thumbnails_enrich_listings() {
    let mut st = fixture();
    let w = search_posts(&mut st, &page_all(), &query("", vec![], vec![], vec![])).unwrap();
    let files: Vec<u32> = w.file_metas.iter().map(|f| f.id.0).collect();
    // post 1's thumbnail resolves; post 3's dangling one is absent
    assert_eq!(files, vec![11]);
}

#[test]
fn collection_filter_matches() {
    let mut st = fixture();
    let q = SearchQuery {
        search: String::new(),
        tags: vec![],
        collections: vec![CollectionId(5)],
        authors: vec![],
        platforms: vec![],
        order_by: PostOrderBy::Updated,
    };
    let w = search_posts(&mut st, &page_all(), &q).unwrap();
    let ids: Vec<u32> = w.inner.list.iter().map(|p| p.id.0).collect();
    assert_eq!(ids, vec![1]);
    assert_eq!(w.inner.total, 1);
}

#[test]
fn corrupt_content_column_is_a_decode_error() {
    let st = fixture();
    // damage one stored JSON column, then read the post back
    let mut st = st;
    {
        let manager = PostArchiverManager::open_in_memory().unwrap();
        let conn = manager.conn();
        conn.execute_batch("PRAGMA foreign_keys = OFF;").unwrap();
        conn.execute(
            "INSERT INTO posts (id, title, content, comments, published, updated)              VALUES (?, ?, ?, ?, ?, ?)",
            (
                1u32,
                "broken",
                "not json at all",
                "[]",
                "2024-01-01 00:00:00",
                "2024-01-01 00:00:00",
            ),
        )
        .unwrap();
        st = AppState::new(Db::new(manager), false);
    }
    assert_eq!(get_post(&mut st, PostId(1)).unwrap_err(), DbError::Decode);
}

#[test]
fn text_search_without_the_index_is_a_query_error() {
    // full-text mode joins a virtual index this archive does not hold, so
    // the statement itself fails
    let manager = PostArchiverManager::open_in_memory().unwrap();
    let mut st = AppState::new(Db::new(manager), true);
    let err = search_posts(&mut st, &page_all(), &query("anything", vec![], vec![], vec![]))
        .unwrap_err();
    assert_eq!(err, DbError::Query);
}

#[test]
fn category_totals_match_untruncated_rows() {
    let mut st = fixture();
    for kind in [
        CategoryKind::Author,
        CategoryKind::Tag,
        CategoryKind::Platform,
        CategoryKind::Collection,
    ] {
        for search in ["", "a", "amm", "zzz"] {
            let rows = category_list(&mut st, kind, &page_all(), search, None).unwrap();
            let total = category_total(&mut st, kind, search).unwrap();
            assert_eq!(rows.len() as u64, total);
        }
    }
}
