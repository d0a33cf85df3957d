//! Unit tests over the pure pieces: SQL composition, formatting, pagination
//! and filename/path classification.

use post_archiver_viewer::archive::{file_rel_path, is_image_file, is_safe_entry_path};
use post_archiver_viewer::category::{category_get_sql, category_list_sql, category_total_sql};
use post_archiver_viewer::category::{CategoryKind, CategoryOrderBy};
use post_archiver_viewer::config::fts_transition;
use post_archiver_viewer::ids::{AuthorId, CollectionId, PlatformId, PostId, TagId};
use post_archiver_viewer::pagination::Pagination;
use post_archiver_viewer::redirect::redirect_target;
use post_archiver_viewer::search::{
    bind_relation, bind_search, search_sql, search_total_sql, PostOrderBy, SearchContext,
    SearchQuery,
};
use post_archiver_viewer::strfmt::{format_u64, ids_to_json, join_strings, trim_ws};

fn empty_ctx() -> SearchContext {
    SearchContext::new()
}

#[test]
fn empty_filter_composes_no_clauses_and_no_params() {
    let q = SearchQuery::empty();
    let mut ctx = empty_ctx();
    bind_search(&mut ctx, false, q.search.as_str());
    bind_relation(&mut ctx, &q.authors, &q.tags, &q.collections, &q.platforms);
    assert!(ctx.joins.is_empty());
    assert!(ctx.filters.is_empty());
    assert!(ctx.havings.is_empty());
    assert!(ctx.params.is_empty());
    assert_eq!(
        search_sql(&ctx, PostOrderBy::Updated),
        "SELECT id, title, updated, thumb FROM posts    ORDER BY posts.updated DESC LIMIT :limit OFFSET :offset"
    );
    assert_eq!(
        search_total_sql(&ctx),
        "SELECT count() FROM (SELECT 0 FROM posts   )"
    );
}

#[test]
fn search_text_binds_once_and_trimmed() {
    let mut ctx = empty_ctx();
    bind_search(&mut ctx, false, "  hello world \n");
    assert!(ctx.joins.is_empty());
    assert_eq!(ctx.filters, vec!["posts.title LIKE concat('%', :search, '%')".to_string()]);
    assert_eq!(ctx.params, vec![(":search".to_string(), "hello world".to_string())]);
}

#[test]
fn full_text_mode_joins_the_virtual_index() {
    let mut ctx = empty_ctx();
    bind_search(&mut ctx, true, "query");
    assert_eq!(ctx.joins, vec!["JOIN _posts_fts ON posts.id = _posts_fts.rowid".to_string()]);
    assert_eq!(ctx.filters, vec!["_posts_fts MATCH :search".to_string()]);
    assert_eq!(ctx.params, vec![(":search".to_string(), "query".to_string())]);
}

#[test]
fn single_id_set_joins_without_having() {
    let mut ctx = empty_ctx();
    bind_relation(&mut ctx, &vec![], &vec![TagId(4)], &vec![], &vec![]);
    assert_eq!(ctx.joins.len(), 1);
    assert!(ctx.havings.is_empty());
    assert_eq!(ctx.params, vec![(":tags".to_string(), "[4]".to_string())]);
}

#[test]
fn multi_id_set_adds_intersection_having() {
    let mut ctx = empty_ctx();
    bind_relation(&mut ctx, &vec![], &vec![TagId(4), TagId(9)], &vec![], &vec![]);
    assert_eq!(
        ctx.havings,
        vec!["COUNT(DISTINCT post_tags.tag) == CAST(:tag_count AS INTEGER)".to_string()]
    );
    assert_eq!(
        ctx.params,
        vec![
            (":tags".to_string(), "[4,9]".to_string()),
            (":tag_count".to_string(), "2".to_string()),
        ]
    );
    let sql = search_sql(&ctx, PostOrderBy::Updated);
    assert!(sql.contains("GROUP BY posts.id HAVING"));
}

#[test]
fn platforms_filter_without_join() {
    let mut ctx = empty_ctx();
    bind_relation(&mut ctx, &vec![], &vec![], &vec![], &vec![PlatformId(2), PlatformId(3)]);
    assert!(ctx.joins.is_empty());
    assert_eq!(
        ctx.filters,
        vec!["posts.platform IN (SELECT value FROM json_each(:platform))".to_string()]
    );
    assert_eq!(ctx.params, vec![(":platform".to_string(), "[2,3]".to_string())]);
    assert!(ctx.havings.is_empty());
}

#[test]
fn all_relation_kinds_compose_in_order() {
    let mut ctx = empty_ctx();
    bind_relation(
        &mut ctx,
        &vec![AuthorId(1), AuthorId(2)],
        &vec![TagId(3)],
        &vec![CollectionId(5), CollectionId(6)],
        &vec![PlatformId(7)],
    );
    assert_eq!(ctx.joins.len(), 3);
    assert!(ctx.joins[0].starts_with("JOIN author_posts"));
    assert!(ctx.joins[1].starts_with("JOIN post_tags"));
    assert!(ctx.joins[2].starts_with("JOIN collection_posts"));
    assert_eq!(ctx.havings.len(), 2);
    let keys: Vec<&str> = ctx.params.iter().map(|p| p.0.as_str()).collect();
    assert_eq!(
        keys,
        vec![":authors", ":author_count", ":tags", ":collections", ":collection_count", ":platform"]
    );
}

#[test]
fn order_by_variants() {
    let ctx = empty_ctx();
    assert!(search_sql(&ctx, PostOrderBy::Id).contains("ORDER BY posts.id DESC"));
    assert!(search_sql(&ctx, PostOrderBy::Random).contains("ORDER BY RANDOM()"));
}

#[test]
fn category_sql_shapes() {
    assert_eq!(
        category_list_sql(CategoryKind::Tag, false, CategoryOrderBy::Name),
        "SELECT * FROM tags  ORDER BY name ASC LIMIT ? OFFSET ?"
    );
    assert_eq!(
        category_list_sql(CategoryKind::Author, true, CategoryOrderBy::Updated),
        "SELECT * FROM authors WHERE name LIKE concat('%',?,'%') ORDER BY updated DESC LIMIT ? OFFSET ?"
    );
    // only authors carry an update column; elsewhere it falls back to id
    assert_eq!(
        category_list_sql(CategoryKind::Platform, false, CategoryOrderBy::Updated),
        "SELECT * FROM platforms  ORDER BY id DESC LIMIT ? OFFSET ?"
    );
    assert_eq!(
        category_total_sql(CategoryKind::Collection, false),
        "SELECT COUNT() FROM collections"
    );
    assert_eq!(
        category_total_sql(CategoryKind::Collection, true),
        "SELECT COUNT() FROM collections WHERE name LIKE concat('%',?,'%')"
    );
    assert_eq!(category_get_sql(CategoryKind::Platform), "SELECT * FROM platforms WHERE id = ?");
}

#[test]
fn formatting_and_json_ids() {
    assert_eq!(format_u64(0), "0");
    assert_eq!(format_u64(7), "7");
    assert_eq!(format_u64(1234567890), "1234567890");
    assert_eq!(ids_to_json(&vec![]), "[]");
    assert_eq!(ids_to_json(&vec![3, 1, 4]), "[3,1,4]");
    // matches what a JSON serializer produces for a vector of integers
    assert_eq!(serde_json::to_string(&vec![3u32, 1, 4]).unwrap(), ids_to_json(&vec![3, 1, 4]));
    assert_eq!(join_strings(&vec![], " AND "), "");
    assert_eq!(join_strings(&vec!["a".to_string(), "b".to_string()], " AND "), "a AND b");
    assert_eq!(trim_ws("  a b \t"), "a b");
    assert_eq!(trim_ws(""), "");
    assert_eq!(trim_ws(" \n "), "");
    // the whole Unicode white-space set is stripped, as str::trim strips it
    assert_eq!(trim_ws("\u{a0}\u{3000}x\u{2028}"), "x");
    assert_eq!(trim_ws("\u{a0} x \u{2009}"), "\u{a0} x \u{2009}".trim());
}

#[test]
fn pagination_defaults_and_window() {
    let p = Pagination { limit: None, page: None };
    assert_eq!(p.limit(), 20);
    assert_eq!(p.page(), 0);
    assert_eq!(p.params(), [20, 0]);
    let p = Pagination { limit: Some(5), page: Some(3) };
    assert_eq!(p.params(), [5, 15]);
    assert_eq!(p.offset_u64(), 15);
}

#[test]
fn image_names_by_extension() {
    assert!(is_image_file("photo.jpg"));
    assert!(is_image_file("photo.JPEG"));
    assert!(is_image_file("a.b.WebP"));
    assert!(is_image_file("x.svg"));
    assert!(!is_image_file("archive.zip"));
    // a name without a dot counts entirely as its own extension
    assert!(is_image_file("jpg"));
    assert!(!is_image_file("noext"));
    assert!(!is_image_file("trailing."));
}

#[test]
fn entry_path_validation() {
    assert!(is_safe_entry_path("folder/image.png"));
    assert!(is_safe_entry_path("image.png"));
    assert!(is_safe_entry_path("a/b/c"));
    assert!(!is_safe_entry_path(""));
    assert!(!is_safe_entry_path("/etc/passwd"));
    assert!(!is_safe_entry_path("../secret"));
    assert!(!is_safe_entry_path("a/../b"));
    assert!(!is_safe_entry_path("a/./b"));
    assert!(!is_safe_entry_path("."));
    assert!(!is_safe_entry_path(".."));
    assert!(!is_safe_entry_path("a//b"));
    assert!(!is_safe_entry_path("a/b/"));
    assert!(is_safe_entry_path("..a/b.."));
}

#[test]
fn file_paths_are_chunked() {
    assert_eq!(file_rel_path(PostId(2049), "example.txt"), "1/1/example.txt");
    assert_eq!(file_rel_path(PostId(0), "a.png"), "0/0/a.png");
    assert_eq!(file_rel_path(PostId(2048), "b"), "1/0/b");
}

#[test]
fn redirect_targets() {
    assert_eq!(redirect_target("https://example.com/x".to_string(), Some(PostId(12))), "/posts/12");
    assert_eq!(
        redirect_target("https://example.com/x".to_string(), None),
        "https://example.com/x"
    );
}

#[test]
fn fts_transitions() {
    assert_eq!(fts_transition(false, Some(true)), (true, true));
    assert_eq!(fts_transition(true, Some(true)), (true, false));
    assert_eq!(fts_transition(true, None), (true, false));
    assert_eq!(fts_transition(true, Some(false)), (false, true));
    assert_eq!(fts_transition(false, None), (false, false));
}

use post_archiver_viewer::archive::{archive_entries, ArchiveEntry, ArchiveListResponse};

#[test]
fn export_bindings_archiveentry() {
    let entry = ArchiveEntry { name: "cover.PNG".to_string(), size: 512, is_image: true };
    assert_eq!(entry.name, "cover.PNG");
    assert_eq!(entry.size, 512);
    assert!(entry.is_image);
}

#[test]
fn export_bindings_archivelistresponse() {
    let listing = archive_entries(vec![
        ("art/".to_string(), 0, true),
        ("art/cover.PNG".to_string(), 512, false),
        ("readme.txt".to_string(), 64, false),
    ]);
    let expected = ArchiveListResponse {
        entries: vec![
            ArchiveEntry { name: "art/cover.PNG".to_string(), size: 512, is_image: true },
            ArchiveEntry { name: "readme.txt".to_string(), size: 64, is_image: false },
        ],
    };
    assert_eq!(listing, expected);
}
