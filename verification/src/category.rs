//! The category abstraction: authors, tags, platforms and collections share
//! one listing, counting and lookup mechanism, parameterized by table name
//! and default ordering. This module holds the kind table and the exact SQL
//! each operation issues.

use vstd::prelude::*;

use crate::cache::{Caches, CountKey, CountKeyV, preserves_others};
use crate::db::{bumped, DbError};
use crate::entity::{Alias, Author, CategoryEntity, Collection, ListResponse, Platform, PostPreview, Tag};
use crate::ids::AuthorId;
use crate::pagination::Pagination;
use crate::relation::{
    bumped_n, enrich_cost, enriched, lemma_bumped_n_add, lemma_bumped_n_base_mono,
    lemma_bumped_n_ge, lemma_bumped_n_mono, lemma_within_budget, WithRelation,
};
use crate::state::AppState;
use crate::strfmt::{format_u64, push_param, push_string};

verus! {

/// The four category entity kinds.
#[derive(Debug, Clone, Copy, PartialEq, Eq, Structural)]
pub enum CategoryKind {
    Author,
    Tag,
    Platform,
    Collection,
}

/// Orderings a category listing supports.
#[derive(Debug, Clone, Copy, PartialEq, Eq, Structural)]
pub enum CategoryOrderBy {
    Id,
    Name,
    Updated,
    Random,
}

/// The filter a category listing accepts: optional substring search over
/// names, and an optional explicit ordering.
#[derive(Debug, Clone)]
pub struct Filter {
    pub search: String,
    pub order_by: Option<CategoryOrderBy>,
}

/// The table a kind's rows live in.
pub open spec fn table_name_of(k: CategoryKind) -> Seq<char> {
    match k {
        CategoryKind::Author => "authors"@,
        CategoryKind::Tag => "tags"@,
        CategoryKind::Platform => "platforms"@,
        CategoryKind::Collection => "collections"@,
    }
}

pub fn table_name(k: CategoryKind) -> (r: &'static str)
    ensures
        r@ == table_name_of(k),
{
    match k {
        CategoryKind::Author => "authors",
        CategoryKind::Tag => "tags",
        CategoryKind::Platform => "platforms",
        CategoryKind::Collection => "collections",
    }
}

/// The ordering a kind uses when the caller names none: update time,
/// newest first, for authors; name ascending for everything else.
pub open spec fn default_order_of(k: CategoryKind) -> CategoryOrderBy {
    match k {
        CategoryKind::Author => CategoryOrderBy::Updated,
        _ => CategoryOrderBy::Name,
    }
}

/// Order resolution: an explicit request wins, else the kind's default.
pub open spec fn resolved_order(k: CategoryKind, o: Option<CategoryOrderBy>) -> CategoryOrderBy {
    match o {
        Some(x) => x,
        None => default_order_of(k),
    }
}

/// The `ORDER BY` clause for a kind and ordering. Only authors carry an
/// update column, so `Updated` on any other kind falls back to id order.
pub open spec fn category_order_sql(k: CategoryKind, o: CategoryOrderBy) -> Seq<char> {
    match o {
        CategoryOrderBy::Id => "ORDER BY id DESC"@,
        CategoryOrderBy::Name => "ORDER BY name ASC"@,
        CategoryOrderBy::Updated => if k is Author {
            "ORDER BY updated DESC"@
        } else {
            "ORDER BY id DESC"@
        },
        CategoryOrderBy::Random => "ORDER BY RANDOM()"@,
    }
}

fn category_order_text(k: CategoryKind, o: CategoryOrderBy) -> (r: &'static str)
    ensures
        r@ == category_order_sql(k, o),
{
    match o {
        CategoryOrderBy::Id => "ORDER BY id DESC",
        CategoryOrderBy::Name => "ORDER BY name ASC",
        CategoryOrderBy::Updated => match k {
            CategoryKind::Author => "ORDER BY updated DESC",
            _ => "ORDER BY id DESC",
        },
        CategoryOrderBy::Random => "ORDER BY RANDOM()",
    }
}

/// The name-substring predicate a searched listing filters on.
pub open spec fn name_like_sql() -> Seq<char> {
    "WHERE name LIKE concat('%',?,'%')"@
}

/// The row statement of a category listing. An empty search adds no `WHERE`
/// clause at all — it is literally unconditional, not a `LIKE '%%'` no-op.
pub open spec fn spec_category_list_sql(
    k: CategoryKind,
    has_search: bool,
    o: CategoryOrderBy,
) -> Seq<char> {
    "SELECT * FROM "@ + table_name_of(k) + " "@ + (if has_search {
        name_like_sql()
    } else {
        Seq::empty()
    }) + " "@ + category_order_sql(k, o) + " LIMIT ? OFFSET ?"@
}

/// Assembles the row statement of a category listing.
pub fn category_list_sql(k: CategoryKind, has_search: bool, o: CategoryOrderBy) -> (r: String)
    ensures
        r@ == spec_category_list_sql(k, has_search, o),
{
    let mut r = ("SELECT * FROM ").to_owned();
    r.append(table_name(k));
    r.append(" ");
    if has_search {
        r.append("WHERE name LIKE concat('%',?,'%')");
    }
    r.append(" ");
    r.append(category_order_text(k, o));
    r.append(" LIMIT ? OFFSET ?");
    r
}

/// The total statement of a category listing, with and without search text.
pub open spec fn spec_category_total_sql(k: CategoryKind, has_search: bool) -> Seq<char> {
    if has_search {
        "SELECT COUNT() FROM "@ + table_name_of(k) + " WHERE name LIKE concat('%',?,'%')"@
    } else {
        "SELECT COUNT() FROM "@ + table_name_of(k)
    }
}

/// Assembles the total statement of a category listing.
pub fn category_total_sql(k: CategoryKind, has_search: bool) -> (r: String)
    ensures
        r@ == spec_category_total_sql(k, has_search),
{
    let mut r = ("SELECT COUNT() FROM ").to_owned();
    r.append(table_name(k));
    if has_search {
        r.append(" WHERE name LIKE concat('%',?,'%')");
    }
    r
}

/// The primary-key lookup statement for a kind.
pub open spec fn spec_category_get_sql(k: CategoryKind) -> Seq<char> {
    "SELECT * FROM "@ + table_name_of(k) + " WHERE id = ?"@
}

/// Assembles the primary-key lookup statement for a kind.
pub fn category_get_sql(k: CategoryKind) -> (r: String)
    ensures
        r@ == spec_category_get_sql(k),
{
    let mut r = ("SELECT * FROM ").to_owned();
    r.append(table_name(k));
    r.append(" WHERE id = ?");
    r
}

/// An explicitly requested ordering wins; else the kind's default.
pub fn resolve_order(k: CategoryKind, o: Option<CategoryOrderBy>) -> (r: CategoryOrderBy)
    ensures
        r == resolved_order(k, o),
{
    match o {
        Some(x) => x,
        None => match k {
            CategoryKind::Author => CategoryOrderBy::Updated,
            _ => CategoryOrderBy::Name,
        },
    }
}

/// The kind a category row belongs to.
pub open spec fn entity_kind_of(e: CategoryEntity) -> CategoryKind {
    match e {
        CategoryEntity::Author(_) => CategoryKind::Author,
        CategoryEntity::Tag(_) => CategoryKind::Tag,
        CategoryEntity::Platform(_) => CategoryKind::Platform,
        CategoryEntity::Collection(_) => CategoryKind::Collection,
    }
}

/// Every row of the list belongs to the one kind that was asked for.
pub open spec fn all_of_kind(list: Seq<CategoryEntity>, k: CategoryKind) -> bool {
    forall|i: int| 0 <= i < list.len() ==> entity_kind_of(#[trigger] list[i]) == k
}

fn wrap_authors(rows: Vec<Author>) -> (r: Vec<CategoryEntity>)
    ensures
        all_of_kind(r@, CategoryKind::Author),
{
    let mut r: Vec<CategoryEntity> = Vec::new();
    let mut i: usize = 0;
    while i < rows.len()
        invariant
            i <= rows.len(),
            all_of_kind(r@, CategoryKind::Author),
        decreases rows.len() - i,
    {
        r.push(CategoryEntity::Author(rows[i].clone()));
        i = i + 1;
    }
    r
}

fn wrap_tags(rows: Vec<Tag>) -> (r: Vec<CategoryEntity>)
    ensures
        all_of_kind(r@, CategoryKind::Tag),
{
    let mut r: Vec<CategoryEntity> = Vec::new();
    let mut i: usize = 0;
    while i < rows.len()
        invariant
            i <= rows.len(),
            all_of_kind(r@, CategoryKind::Tag),
        decreases rows.len() - i,
    {
        r.push(CategoryEntity::Tag(rows[i].clone()));
        i = i + 1;
    }
    r
}

fn wrap_platforms(rows: Vec<Platform>) -> (r: Vec<CategoryEntity>)
    ensures
        all_of_kind(r@, CategoryKind::Platform),
{
    let mut r: Vec<CategoryEntity> = Vec::new();
    let mut i: usize = 0;
    while i < rows.len()
        invariant
            i <= rows.len(),
            all_of_kind(r@, CategoryKind::Platform),
        decreases rows.len() - i,
    {
        r.push(CategoryEntity::Platform(rows[i].clone()));
        i = i + 1;
    }
    r
}

fn wrap_collections(rows: Vec<Collection>) -> (r: Vec<CategoryEntity>)
    ensures
        all_of_kind(r@, CategoryKind::Collection),
{
    let mut r: Vec<CategoryEntity> = Vec::new();
    let mut i: usize = 0;
    while i < rows.len()
        invariant
            i <= rows.len(),
            all_of_kind(r@, CategoryKind::Collection),
        decreases rows.len() - i,
    {
        r.push(CategoryEntity::Collection(rows[i].clone()));
        i = i + 1;
    }
    r
}

/// Lists one page of a category's rows: the composed listing statement
/// runs once, with the search text (when any), the limit and the offset
/// bound as parameters. The caches are untouched.
pub fn category_list(
    st: &mut AppState,
    kind: CategoryKind,
    pagination: &Pagination,
    search: &str,
    order_by: Option<CategoryOrderBy>,
) -> (r: Result<Vec<CategoryEntity>, DbError>)
    ensures
        final(st).db.spec_queries() == bumped(old(st).db.spec_queries()),
        final(st).caches == old(st).caches,
        final(st).full_text_search == old(st).full_text_search,
        r matches Ok(list) ==> all_of_kind(list@, kind),
{
    let has_search = !search.is_empty();
    let o = resolve_order(kind, order_by);
    let sql = category_list_sql(kind, has_search, o);
    let mut params: Vec<String> = Vec::new();
    if has_search {
        push_string(&mut params, search.to_owned());
    }
    push_string(&mut params, format_u64(pagination.limit() as u64));
    push_string(&mut params, format_u64(pagination.offset_u64()));
    match kind {
        CategoryKind::Author => {
            match st.db.run_author_rows(sql.as_str(), &params) {
                Ok(rows) => Ok(wrap_authors(rows)),
                Err(e) => Err(e),
            }
        },
        CategoryKind::Tag => {
            match st.db.run_tag_rows(sql.as_str(), &params) {
                Ok(rows) => Ok(wrap_tags(rows)),
                Err(e) => Err(e),
            }
        },
        CategoryKind::Platform => {
            match st.db.run_platform_rows(sql.as_str(), &params) {
                Ok(rows) => Ok(wrap_platforms(rows)),
                Err(e) => Err(e),
            }
        },
        CategoryKind::Collection => {
            match st.db.run_collection_rows(sql.as_str(), &params) {
                Ok(rows) => Ok(wrap_collections(rows)),
                Err(e) => Err(e),
            }
        },
    }
}

/// A category's total row count. A searched count always runs fresh — its
/// key space is too wide to cache. An unfiltered total is read through the
/// table cache: a hit answers from the cache with no statement at all; a
/// miss runs one count and stores it.
pub fn category_total(st: &mut AppState, kind: CategoryKind, search: &str) -> (r: Result<
    u64,
    DbError,
>)
    requires
        old(st).wf(),
    ensures
        final(st).wf(),
        final(st).full_text_search == old(st).full_text_search,
        final(st).caches.tags == old(st).caches.tags,
        final(st).caches.authors == old(st).caches.authors,
        final(st).caches.platforms == old(st).caches.platforms,
        final(st).caches.collections == old(st).caches.collections,
        final(st).caches.search == old(st).caches.search,
        search@.len() > 0 ==> final(st).caches == old(st).caches && final(st).db.spec_queries()
            == bumped(old(st).db.spec_queries()),
        search@.len() == 0 && old(st).caches.tables@.contains_key(CountKeyV::Table(kind)) ==> {
            &&& (match r {
                Ok(n) => n == old(st).caches.tables@[CountKeyV::Table(kind)],
                Err(_) => false,
            })
            &&& final(st).db.spec_queries() == old(st).db.spec_queries()
            &&& final(st).caches == old(st).caches
        },
        search@.len() == 0 && !old(st).caches.tables@.contains_key(CountKeyV::Table(kind)) ==> {
            &&& final(st).db.spec_queries() == bumped(old(st).db.spec_queries())
            &&& (match r {
                Ok(n) => final(st).caches.tables@.contains_key(CountKeyV::Table(kind))
                    && final(st).caches.tables@[CountKeyV::Table(kind)] == n && preserves_others(
                    old(st).caches.tables@,
                    final(st).caches.tables@,
                    CountKeyV::Table(kind),
                ),
                Err(_) => true,
            })
        },
{
    if !search.is_empty() {
        let sql = category_total_sql(kind, true);
        let mut params: Vec<String> = Vec::new();
        push_string(&mut params, search.to_owned());
        return st.db.run_count(sql.as_str(), &params);
    }
    let key = CountKey::Table(kind);
    match st.caches.tables.lookup(&key) {
        Some(n) => Ok(n),
        None => {
            let sql = category_total_sql(kind, false);
            let params: Vec<String> = Vec::new();
            match st.db.run_count(sql.as_str(), &params) {
                Ok(n) => {
                    st.caches.tables.store(key, n);
                    Ok(n)
                },
                Err(e) => Err(e),
            }
        },
    }
}

fn fetch_category_row(st: &mut AppState, kind: CategoryKind, id: u32) -> (r: Result<
    Option<CategoryEntity>,
    DbError,
>)
    ensures
        final(st).caches == old(st).caches,
        final(st).full_text_search == old(st).full_text_search,
        final(st).db.spec_queries() == bumped(old(st).db.spec_queries()),
        r matches Ok(Some(e)) ==> entity_kind_of(e) == kind,
{
    let sql = category_get_sql(kind);
    let mut params: Vec<String> = Vec::new();
    push_string(&mut params, format_u64(id as u64));
    let entity: CategoryEntity = match kind {
        CategoryKind::Author => {
            let mut rows = match st.db.run_author_rows(sql.as_str(), &params) {
                Ok(rows) => rows,
                Err(e) => {
                    return Err(e);
                },
            };
            if rows.len() == 0 {
                return Ok(None);
            }
            CategoryEntity::Author(rows.remove(0))
        },
        CategoryKind::Tag => {
            let mut rows = match st.db.run_tag_rows(sql.as_str(), &params) {
                Ok(rows) => rows,
                Err(e) => {
                    return Err(e);
                },
            };
            if rows.len() == 0 {
                return Ok(None);
            }
            CategoryEntity::Tag(rows.remove(0))
        },
        CategoryKind::Platform => {
            let mut rows = match st.db.run_platform_rows(sql.as_str(), &params) {
                Ok(rows) => rows,
                Err(e) => {
                    return Err(e);
                },
            };
            if rows.len() == 0 {
                return Ok(None);
            }
            CategoryEntity::Platform(rows.remove(0))
        },
        CategoryKind::Collection => {
            let mut rows = match st.db.run_collection_rows(sql.as_str(), &params) {
                Ok(rows) => rows,
                Err(e) => {
                    return Err(e);
                },
            };
            if rows.len() == 0 {
                return Ok(None);
            }
            CategoryEntity::Collection(rows.remove(0))
        },
    };
    Ok(Some(entity))
}

/// Looks one category row up by id and enriches it. `None` is a valid
/// "not found" answer, never an error. The caches are untouched, and at
/// most six statements run: the lookup and up to five for the enrichment.
pub fn category_get(st: &mut AppState, kind: CategoryKind, id: u32) -> (r: Result<
    Option<WithRelation<CategoryEntity>>,
    DbError,
>)
    ensures
        r matches Ok(Some(w)) ==> entity_kind_of(w.inner) == kind && enriched(w),
        final(st).caches == old(st).caches,
        final(st).full_text_search == old(st).full_text_search,
        old(st).db.spec_queries() <= final(st).db.spec_queries(),
        final(st).db.spec_queries() <= bumped_n(old(st).db.spec_queries(), 6),
{
    let ghost q0 = st.db.spec_queries();
    proof {
        assert(bumped_n(q0, 0) == q0);
        assert(bumped_n(q0, 1) == bumped(bumped_n(q0, 0)));
    }
    let entity = match fetch_category_row(st, kind, id) {
        Ok(Some(e)) => e,
        Ok(None) => {
            proof {
                lemma_within_budget(q0, st.db.spec_queries(), 1, 6);
            }
            return Ok(None);
        },
        Err(e) => {
            proof {
                lemma_within_budget(q0, st.db.spec_queries(), 1, 6);
            }
            return Err(e);
        },
    };
    let ghost q1 = st.db.spec_queries();
    let r = WithRelation::new(&mut st.db, entity);
    proof {
        lemma_bumped_n_add(q0, 1, 5);
        lemma_bumped_n_ge(q0, 1);
    }
    match r {
        Ok(w) => Ok(Some(w)),
        Err(e) => Err(e),
    }
}

/// One page of a category listing with its total and its enrichment: what
/// the listing endpoint answers.
pub fn category_list_response(
    st: &mut AppState,
    kind: CategoryKind,
    pagination: &Pagination,
    filter: &Filter,
) -> (r: Result<WithRelation<ListResponse<CategoryEntity>>, DbError>)
    requires
        old(st).wf(),
    ensures
        final(st).wf(),
        r matches Ok(w) ==> all_of_kind(w.inner.list@, kind) && enriched(w),
        final(st).full_text_search == old(st).full_text_search,
        final(st).caches.tags == old(st).caches.tags,
        final(st).caches.authors == old(st).caches.authors,
        final(st).caches.platforms == old(st).caches.platforms,
        final(st).caches.collections == old(st).caches.collections,
        final(st).caches.search == old(st).caches.search,
        old(st).db.spec_queries() <= final(st).db.spec_queries(),
        final(st).db.spec_queries() <= bumped_n(old(st).db.spec_queries(), 7),
{
    let ghost q0 = st.db.spec_queries();
    proof {
        assert(bumped_n(q0, 0) == q0);
        assert(bumped_n(q0, 1) == bumped(bumped_n(q0, 0)));
        assert(bumped_n(q0, 2) == bumped(bumped_n(q0, 1)));
    }
    let list = match category_list(st, kind, pagination, filter.search.as_str(), filter.order_by) {
        Ok(list) => list,
        Err(e) => {
            proof {
                lemma_within_budget(q0, st.db.spec_queries(), 1, 7);
            }
            return Err(e);
        },
    };
    let total = match category_total(st, kind, filter.search.as_str()) {
        Ok(total) => total,
        Err(e) => {
            proof {
                assert(st.db.spec_queries() <= bumped_n(q0, 2));
                lemma_bumped_n_mono(q0, 2, 7);
                lemma_bumped_n_ge(q0, 1);
            }
            return Err(e);
        },
    };
    let ghost q2 = st.db.spec_queries();
    proof {
        assert(q2 <= bumped_n(q0, 2));
        lemma_bumped_n_ge(q0, 1);
    }
    let r = WithRelation::new(&mut st.db, ListResponse { list, total });
    proof {
        lemma_bumped_n_add(q0, 2, 5);
        lemma_bumped_n_base_mono(q2, bumped_n(q0, 2), 5);
    }
    match r {
        Ok(w) => Ok(w),
        Err(e) => Err(e),
    }
}

/// The row statement listing the posts one category row owns, newest
/// update first, windowed by `:limit` and `:offset`.
pub open spec fn spec_category_posts_sql(k: CategoryKind) -> Seq<char> {
    match k {
        CategoryKind::Author => "SELECT posts.id, posts.title, posts.updated, posts.thumb FROM posts JOIN author_posts ON posts.id = author_posts.post WHERE author_posts.author = :id ORDER BY posts.updated DESC LIMIT :limit OFFSET :offset"@,
        CategoryKind::Tag => "SELECT posts.id, posts.title, posts.updated, posts.thumb FROM posts JOIN post_tags ON posts.id = post_tags.post WHERE post_tags.tag = :id ORDER BY posts.updated DESC LIMIT :limit OFFSET :offset"@,
        CategoryKind::Platform => "SELECT posts.id, posts.title, posts.updated, posts.thumb FROM posts WHERE posts.platform = :id ORDER BY posts.updated DESC LIMIT :limit OFFSET :offset"@,
        CategoryKind::Collection => "SELECT posts.id, posts.title, posts.updated, posts.thumb FROM posts JOIN collection_posts ON posts.id = collection_posts.post WHERE collection_posts.collection = :id ORDER BY posts.updated DESC LIMIT :limit OFFSET :offset"@,
    }
}

fn category_posts_sql(k: CategoryKind) -> (r: &'static str)
    ensures
        r@ == spec_category_posts_sql(k),
{
    match k {
        CategoryKind::Author => "SELECT posts.id, posts.title, posts.updated, posts.thumb FROM posts JOIN author_posts ON posts.id = author_posts.post WHERE author_posts.author = :id ORDER BY posts.updated DESC LIMIT :limit OFFSET :offset",
        CategoryKind::Tag => "SELECT posts.id, posts.title, posts.updated, posts.thumb FROM posts JOIN post_tags ON posts.id = post_tags.post WHERE post_tags.tag = :id ORDER BY posts.updated DESC LIMIT :limit OFFSET :offset",
        CategoryKind::Platform => "SELECT posts.id, posts.title, posts.updated, posts.thumb FROM posts WHERE posts.platform = :id ORDER BY posts.updated DESC LIMIT :limit OFFSET :offset",
        CategoryKind::Collection => "SELECT posts.id, posts.title, posts.updated, posts.thumb FROM posts JOIN collection_posts ON posts.id = collection_posts.post WHERE collection_posts.collection = :id ORDER BY posts.updated DESC LIMIT :limit OFFSET :offset",
    }
}

/// The matching total statement: association rows pair a post with the
/// category row at most once, so counting them counts posts.
pub open spec fn spec_category_posts_total_sql(k: CategoryKind) -> Seq<char> {
    match k {
        CategoryKind::Author => "SELECT COUNT() FROM author_posts WHERE author = :id"@,
        CategoryKind::Tag => "SELECT COUNT() FROM post_tags WHERE tag = :id"@,
        CategoryKind::Platform => "SELECT COUNT() FROM posts WHERE platform = :id"@,
        CategoryKind::Collection => "SELECT COUNT() FROM collection_posts WHERE collection = :id"@,
    }
}

fn category_posts_total_sql(k: CategoryKind) -> (r: &'static str)
    ensures
        r@ == spec_category_posts_total_sql(k),
{
    match k {
        CategoryKind::Author => "SELECT COUNT() FROM author_posts WHERE author = :id",
        CategoryKind::Tag => "SELECT COUNT() FROM post_tags WHERE tag = :id",
        CategoryKind::Platform => "SELECT COUNT() FROM posts WHERE platform = :id",
        CategoryKind::Collection => "SELECT COUNT() FROM collection_posts WHERE collection = :id",
    }
}

/// The cache that holds per-row post totals of one kind.
pub open spec fn posts_cache_of(c: Caches, k: CategoryKind) -> Map<CountKeyV, u64> {
    match k {
        CategoryKind::Author => c.authors@,
        CategoryKind::Tag => c.tags@,
        CategoryKind::Platform => c.platforms@,
        CategoryKind::Collection => c.collections@,
    }
}

fn posts_cache_lookup(c: &Caches, k: CategoryKind, id: u32) -> (r: Option<u64>)
    requires
        c.wf(),
    ensures
        match r {
            Some(n) => posts_cache_of(*c, k).contains_key(CountKeyV::Id(id)) && posts_cache_of(
                *c,
                k,
            )[CountKeyV::Id(id)] == n,
            None => !posts_cache_of(*c, k).contains_key(CountKeyV::Id(id)),
        },
{
    let key = CountKey::Id(id);
    match k {
        CategoryKind::Author => c.authors.lookup(&key),
        CategoryKind::Tag => c.tags.lookup(&key),
        CategoryKind::Platform => c.platforms.lookup(&key),
        CategoryKind::Collection => c.collections.lookup(&key),
    }
}

fn posts_cache_store(c: &mut Caches, k: CategoryKind, id: u32, n: u64)
    requires
        old(c).wf(),
    ensures
        final(c).wf(),
        posts_cache_of(*final(c), k).contains_key(CountKeyV::Id(id)),
        posts_cache_of(*final(c), k)[CountKeyV::Id(id)] == n,
        preserves_others(
            posts_cache_of(*old(c), k),
            posts_cache_of(*final(c), k),
            CountKeyV::Id(id),
        ),
        final(c).tables == old(c).tables,
        final(c).search == old(c).search,
{
    match k {
        CategoryKind::Author => c.authors.store(CountKey::Id(id), n),
        CategoryKind::Tag => c.tags.store(CountKey::Id(id), n),
        CategoryKind::Platform => c.platforms.store(CountKey::Id(id), n),
        CategoryKind::Collection => c.collections.store(CountKey::Id(id), n),
    }
}

/// One page of the posts a category row owns, with the total and its
/// enrichment. The total is read through the kind's per-row cache, keyed by
/// the row id: a hit answers it with no extra statement; a miss runs one
/// count and stores it.
pub fn category_posts(
    st: &mut AppState,
    kind: CategoryKind,
    id: u32,
    pagination: &Pagination,
) -> (r: Result<WithRelation<ListResponse<PostPreview>>, DbError>)
    requires
        old(st).wf(),
    ensures
        final(st).wf(),
        r matches Ok(w) ==> enriched(w),
        final(st).full_text_search == old(st).full_text_search,
        posts_cache_of(old(st).caches, kind).contains_key(CountKeyV::Id(id)) ==> final(st).caches
            == old(st).caches && (match r {
            Ok(w) => w.inner.total == posts_cache_of(old(st).caches, kind)[CountKeyV::Id(id)]
                && final(st).db.spec_queries() == bumped_n(
                bumped(old(st).db.spec_queries()),
                enrich_cost(w),
            ),
            Err(_) => true,
        }),
        !posts_cache_of(old(st).caches, kind).contains_key(CountKeyV::Id(id)) ==> (match r {
            Ok(w) => posts_cache_of(final(st).caches, kind).contains_key(CountKeyV::Id(id))
                && posts_cache_of(final(st).caches, kind)[CountKeyV::Id(id)] == w.inner.total
                && preserves_others(
                posts_cache_of(old(st).caches, kind),
                posts_cache_of(final(st).caches, kind),
                CountKeyV::Id(id),
            ) && final(st).db.spec_queries() == bumped_n(
                bumped(bumped(old(st).db.spec_queries())),
                enrich_cost(w),
            ),
            Err(_) => true,
        }),
{
    let sql = category_posts_sql(kind);
    let mut named: Vec<(String, String)> = Vec::new();
    push_param(&mut named, ":id", format_u64(id as u64));
    push_param(&mut named, ":limit", format_u64(pagination.limit() as u64));
    push_param(&mut named, ":offset", format_u64(pagination.offset_u64()));
    let list = match st.db.run_preview_rows(sql, &named) {
        Ok(l) => l,
        Err(e) => {
            return Err(e);
        },
    };
    let total = match posts_cache_lookup(&st.caches, kind, id) {
        Some(n) => n,
        None => {
            let tsql = category_posts_total_sql(kind);
            let mut tp: Vec<(String, String)> = Vec::new();
            push_param(&mut tp, ":id", format_u64(id as u64));
            let n = match st.db.run_count_named(tsql, &tp) {
                Ok(n) => n,
                Err(e) => {
                    return Err(e);
                },
            };
            posts_cache_store(&mut st.caches, kind, id, n);
            n
        },
    };
    match WithRelation::new(&mut st.db, ListResponse { list, total }) {
        Ok(w) => Ok(w),
        Err(e) => Err(e),
    }
}

/// Lists an author's aliases with their enrichment. The total is the list's
/// own length — aliases are few and never paginated. The caches are
/// untouched; at most six statements run.
pub fn author_aliases(st: &mut AppState, id: AuthorId) -> (r: Result<
    WithRelation<ListResponse<Alias>>,
    DbError,
>)
    ensures
        r matches Ok(w) ==> enriched(w) && w.inner.total == w.inner.list@.len(),
        final(st).caches == old(st).caches,
        final(st).full_text_search == old(st).full_text_search,
        old(st).db.spec_queries() <= final(st).db.spec_queries(),
        final(st).db.spec_queries() <= bumped_n(old(st).db.spec_queries(), 6),
{
    let ghost q0 = st.db.spec_queries();
    proof {
        assert(bumped_n(q0, 0) == q0);
        assert(bumped_n(q0, 1) == bumped(bumped_n(q0, 0)));
    }
    let list = match st.db.run_author_aliases(id) {
        Ok(v) => v,
        Err(e) => {
            proof {
                lemma_within_budget(q0, st.db.spec_queries(), 1, 6);
            }
            return Err(e);
        },
    };
    let total = list.len() as u64;
    let r = WithRelation::new(&mut st.db, ListResponse { list, total });
    proof {
        lemma_bumped_n_add(q0, 1, 5);
        lemma_bumped_n_ge(q0, 1);
    }
    match r {
        Ok(w) => Ok(w),
        Err(e) => Err(e),
    }
}

} // verus!
