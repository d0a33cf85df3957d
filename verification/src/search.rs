//! The search query composer.
//!
//! A post search is described by a [`SearchQuery`]: free text, four id sets
//! (tags, collections, authors, platforms) and an ordering. The composer
//! turns it into four accumulators — join fragments, filter fragments,
//! having fragments and named parameters — and then into the exact SQL text
//! of the row statement and the matching total statement. Table and column
//! names only ever come from fixed fragments; every user-supplied value is
//! bound as a named parameter, id sets as one serialized JSON array each.

use vstd::prelude::*;

use crate::ids::{AuthorId, CollectionId, PlatformId, TagId};
use crate::strfmt::{
    dec_str, ids_to_json, join_strings, param_views, push_param, push_str, spec_id_json,
    trim_spec, trim_ws, views_of, spec_join,
};

verus! {

/// Orderings a post listing supports. `Random` is database-native random
/// order and carries no pagination stability.
#[derive(Debug, Clone, Copy, PartialEq, Eq, Structural)]
pub enum PostOrderBy {
    Id,
    Updated,
    Random,
}

impl Default for PostOrderBy {
    /// Post listings default to newest-updated first.
    fn default() -> (r: Self)
        ensures
            r == PostOrderBy::Updated,
    {
        PostOrderBy::Updated
    }
}

/// A structured post-search filter: the full signature of one search.
#[derive(Debug, Clone)]
pub struct SearchQuery {
    pub search: String,
    pub tags: Vec<TagId>,
    pub collections: Vec<CollectionId>,
    pub authors: Vec<AuthorId>,
    pub platforms: Vec<PlatformId>,
    pub order_by: PostOrderBy,
}

/// The raw numbers behind a sequence of tag ids.
pub open spec fn tag_raws(s: Seq<TagId>) -> Seq<u32> {
    s.map_values(|x: TagId| x.0)
}

/// The raw numbers behind a sequence of collection ids.
pub open spec fn collection_raws(s: Seq<CollectionId>) -> Seq<u32> {
    s.map_values(|x: CollectionId| x.0)
}

/// The raw numbers behind a sequence of author ids.
pub open spec fn author_raws(s: Seq<AuthorId>) -> Seq<u32> {
    s.map_values(|x: AuthorId| x.0)
}

/// The raw numbers behind a sequence of platform ids.
pub open spec fn platform_raws(s: Seq<PlatformId>) -> Seq<u32> {
    s.map_values(|x: PlatformId| x.0)
}

impl SearchQuery {
    /// The filter signature: everything that influences a search's result
    /// set, and therefore the key its cached total lives under.
    pub open spec fn sig(&self) -> (
        Seq<char>,
        Seq<u32>,
        Seq<u32>,
        Seq<u32>,
        Seq<u32>,
        PostOrderBy,
    ) {
        (
            self.search@,
            tag_raws(self.tags@),
            collection_raws(self.collections@),
            author_raws(self.authors@),
            platform_raws(self.platforms@),
            self.order_by,
        )
    }

    /// A query with no text, no id sets and the default order.
    pub fn empty() -> (r: SearchQuery)
        ensures
            r.search@ == Seq::<char>::empty(),
            r.tags@ == Seq::<TagId>::empty(),
            r.collections@ == Seq::<CollectionId>::empty(),
            r.authors@ == Seq::<AuthorId>::empty(),
            r.platforms@ == Seq::<PlatformId>::empty(),
            r.order_by == PostOrderBy::Updated,
    {
        SearchQuery {
            search: String::new(),
            tags: Vec::new(),
            collections: Vec::new(),
            authors: Vec::new(),
            platforms: Vec::new(),
            order_by: PostOrderBy::Updated,
        }
    }
}

/// The four accumulators a search is composed into.
pub struct SearchContext {
    pub joins: Vec<String>,
    pub filters: Vec<String>,
    pub havings: Vec<String>,
    pub params: Vec<(String, String)>,
}

/// The mathematical value of a [`SearchContext`].
#[verifier::ext_equal]
pub struct CtxView {
    pub joins: Seq<Seq<char>>,
    pub filters: Seq<Seq<char>>,
    pub havings: Seq<Seq<char>>,
    pub params: Seq<(Seq<char>, Seq<char>)>,
}

impl View for SearchContext {
    type V = CtxView;

    open spec fn view(&self) -> CtxView {
        CtxView {
            joins: views_of(self.joins@),
            filters: views_of(self.filters@),
            havings: views_of(self.havings@),
            params: param_views(self.params@),
        }
    }
}

impl SearchContext {
    /// Four empty accumulators.
    pub fn new() -> (r: SearchContext)
        ensures
            r@ == empty_ctx(),
    {
        let r = SearchContext {
            joins: Vec::new(),
            filters: Vec::new(),
            havings: Vec::new(),
            params: Vec::new(),
        };
        proof {
            assert(r@ =~= empty_ctx());
        }
        r
    }
}

/// The accumulators before anything is bound.
pub open spec fn empty_ctx() -> CtxView {
    CtxView {
        joins: Seq::empty(),
        filters: Seq::empty(),
        havings: Seq::empty(),
        params: Seq::empty(),
    }
}

// The fixed SQL fragments. Each spec function names the exact text its
// executable twin pushes.

pub open spec fn fts_join_sql() -> Seq<char> {
    "JOIN _posts_fts ON posts.id = _posts_fts.rowid"@
}

pub open spec fn fts_filter_sql() -> Seq<char> {
    "_posts_fts MATCH :search"@
}

pub open spec fn like_filter_sql() -> Seq<char> {
    "posts.title LIKE concat('%', :search, '%')"@
}

pub open spec fn author_join_sql() -> Seq<char> {
    "JOIN author_posts ON posts.id = author_posts.post AND author_posts.author IN (SELECT value FROM json_each(:authors))"@
}

pub open spec fn author_having_sql() -> Seq<char> {
    "COUNT(DISTINCT author_posts.author) == CAST(:author_count AS INTEGER)"@
}

pub open spec fn tag_join_sql() -> Seq<char> {
    "JOIN post_tags ON posts.id = post_tags.post AND post_tags.tag IN (SELECT value FROM json_each(:tags))"@
}

pub open spec fn tag_having_sql() -> Seq<char> {
    "COUNT(DISTINCT post_tags.tag) == CAST(:tag_count AS INTEGER)"@
}

pub open spec fn collection_join_sql() -> Seq<char> {
    "JOIN collection_posts ON posts.id = collection_posts.post AND collection_posts.collection IN (SELECT value FROM json_each(:collections))"@
}

pub open spec fn collection_having_sql() -> Seq<char> {
    "COUNT(DISTINCT collection_posts.collection) == CAST(:collection_count AS INTEGER)"@
}

pub open spec fn platform_filter_sql() -> Seq<char> {
    "posts.platform IN (SELECT value FROM json_each(:platform))"@
}

/// What binding the text search does to the accumulators: nothing for empty
/// text; otherwise the trimmed text is bound under `:search` and either the
/// full-text join plus `MATCH` filter or the `LIKE` filter is added.
pub open spec fn spec_bind_search(c: CtxView, fts: bool, search: Seq<char>) -> CtxView {
    if search.len() == 0 {
        c
    } else if fts {
        CtxView {
            joins: c.joins.push(fts_join_sql()),
            filters: c.filters.push(fts_filter_sql()),
            havings: c.havings,
            params: c.params.push(((":search")@, trim_spec(search))),
        }
    } else {
        CtxView {
            joins: c.joins,
            filters: c.filters.push(like_filter_sql()),
            havings: c.havings,
            params: c.params.push(((":search")@, trim_spec(search))),
        }
    }
}

/// What binding one association id set does: nothing when the set is empty;
/// otherwise a join restricted to the bound set, and — only when the set has
/// more than one member — a having clause that turns "any of" into "all of".
pub open spec fn spec_bind_assoc(
    c: CtxView,
    join_txt: Seq<char>,
    key: Seq<char>,
    having_txt: Seq<char>,
    count_key: Seq<char>,
    ids: Seq<u32>,
) -> CtxView {
    if ids.len() == 0 {
        c
    } else if ids.len() > 1 {
        CtxView {
            joins: c.joins.push(join_txt),
            filters: c.filters,
            havings: c.havings.push(having_txt),
            params: c.params.push((key, spec_id_json(ids))).push(
                (count_key, dec_str(ids.len() as nat)),
            ),
        }
    } else {
        CtxView {
            joins: c.joins.push(join_txt),
            filters: c.filters,
            havings: c.havings,
            params: c.params.push((key, spec_id_json(ids))),
        }
    }
}

/// What binding the platform id set does: platforms are a plain column, so
/// a filter rather than a join, and never a having clause.
pub open spec fn spec_bind_platforms(c: CtxView, ids: Seq<u32>) -> CtxView {
    if ids.len() == 0 {
        c
    } else {
        CtxView {
            joins: c.joins,
            filters: c.filters.push(platform_filter_sql()),
            havings: c.havings,
            params: c.params.push(((":platform")@, spec_id_json(ids))),
        }
    }
}

/// What binding all four relation id sets does, in the order the composer
/// applies them: authors, tags, collections, platforms.
pub open spec fn spec_bind_relation(
    c: CtxView,
    authors: Seq<u32>,
    tags: Seq<u32>,
    collections: Seq<u32>,
    platforms: Seq<u32>,
) -> CtxView {
    spec_bind_platforms(
        spec_bind_assoc(
            spec_bind_assoc(
                spec_bind_assoc(
                    c,
                    author_join_sql(),
                    (":authors")@,
                    author_having_sql(),
                    (":author_count")@,
                    authors,
                ),
                tag_join_sql(),
                (":tags")@,
                tag_having_sql(),
                (":tag_count")@,
                tags,
            ),
            collection_join_sql(),
            (":collections")@,
            collection_having_sql(),
            (":collection_count")@,
            collections,
        ),
        platforms,
    )
}

pub(crate) fn raw_tag_ids(v: &Vec<TagId>) -> (r: Vec<u32>)
    ensures
        r@ == tag_raws(v@),
{
    let mut r: Vec<u32> = Vec::new();
    let mut i: usize = 0;
    while i < v.len()
        invariant
            i <= v.len(),
            r@ =~= tag_raws(v@.take(i as int)),
        decreases v.len() - i,
    {
        r.push(v[i].0);
        proof {
            assert(r@ =~= tag_raws(v@.take(i + 1)));
        }
        i = i + 1;
    }
    proof {
        assert(v@.take(v@.len() as int) =~= v@);
    }
    r
}

pub(crate) fn raw_collection_ids(v: &Vec<CollectionId>) -> (r: Vec<u32>)
    ensures
        r@ == collection_raws(v@),
{
    let mut r: Vec<u32> = Vec::new();
    let mut i: usize = 0;
    while i < v.len()
        invariant
            i <= v.len(),
            r@ =~= collection_raws(v@.take(i as int)),
        decreases v.len() - i,
    {
        r.push(v[i].0);
        proof {
            assert(r@ =~= collection_raws(v@.take(i + 1)));
        }
        i = i + 1;
    }
    proof {
        assert(v@.take(v@.len() as int) =~= v@);
    }
    r
}

pub(crate) fn raw_author_ids(v: &Vec<AuthorId>) -> (r: Vec<u32>)
    ensures
        r@ == author_raws(v@),
{
    let mut r: Vec<u32> = Vec::new();
    let mut i: usize = 0;
    while i < v.len()
        invariant
            i <= v.len(),
            r@ =~= author_raws(v@.take(i as int)),
        decreases v.len() - i,
    {
        r.push(v[i].0);
        proof {
            assert(r@ =~= author_raws(v@.take(i + 1)));
        }
        i = i + 1;
    }
    proof {
        assert(v@.take(v@.len() as int) =~= v@);
    }
    r
}

pub(crate) fn raw_platform_ids(v: &Vec<PlatformId>) -> (r: Vec<u32>)
    ensures
        r@ == platform_raws(v@),
{
    let mut r: Vec<u32> = Vec::new();
    let mut i: usize = 0;
    while i < v.len()
        invariant
            i <= v.len(),
            r@ =~= platform_raws(v@.take(i as int)),
        decreases v.len() - i,
    {
        r.push(v[i].0);
        proof {
            assert(r@ =~= platform_raws(v@.take(i + 1)));
        }
        i = i + 1;
    }
    proof {
        assert(v@.take(v@.len() as int) =~= v@);
    }
    r
}

/// Binds the free-text search: empty text is a strict no-op; otherwise the
/// trimmed text is bound once under `:search`, and the predicate is a
/// full-text `MATCH` or a title `LIKE` depending on the mode flag.
pub fn bind_search(ctx: &mut SearchContext, full_text_search: bool, search: &str)
    ensures
        final(ctx)@ == spec_bind_search(old(ctx)@, full_text_search, search@),
{
    if search.is_empty() {
        return ;
    }
    let trimmed = trim_ws(search);
    push_param(&mut ctx.params, ":search", trimmed);
    if full_text_search {
        push_str(&mut ctx.joins, "JOIN _posts_fts ON posts.id = _posts_fts.rowid");
        push_str(&mut ctx.filters, "_posts_fts MATCH :search");
    } else {
        push_str(&mut ctx.filters, "posts.title LIKE concat('%', :search, '%')");
    }
    proof {
        assert(ctx@ =~= spec_bind_search(old(ctx)@, full_text_search, search@));
    }
}

/// Binds the four relation id sets, each only when non-empty: association
/// kinds add a membership join (plus an intersection having clause when the
/// set has more than one member); platforms add a column filter. Each set is
/// bound as one JSON array parameter.
pub fn bind_relation(
    ctx: &mut SearchContext,
    authors: &Vec<AuthorId>,
    tags: &Vec<TagId>,
    collections: &Vec<CollectionId>,
    platforms: &Vec<PlatformId>,
)
    ensures
        final(ctx)@ == spec_bind_relation(
            old(ctx)@,
            author_raws(authors@),
            tag_raws(tags@),
            collection_raws(collections@),
            platform_raws(platforms@),
        ),
{
    let ghost c0 = ctx@;
    if authors.len() > 0 {
        push_str(
            &mut ctx.joins,
            "JOIN author_posts ON posts.id = author_posts.post AND author_posts.author IN (SELECT value FROM json_each(:authors))",
        );
        push_param(&mut ctx.params, ":authors", ids_to_json(&raw_author_ids(authors)));
        if authors.len() > 1 {
            push_str(
                &mut ctx.havings,
                "COUNT(DISTINCT author_posts.author) == CAST(:author_count AS INTEGER)",
            );
            push_param(&mut ctx.params, ":author_count", crate::strfmt::format_u64(authors.len() as u64));
        }
    }
    let ghost c1 = spec_bind_assoc(
        c0,
        author_join_sql(),
        (":authors")@,
        author_having_sql(),
        (":author_count")@,
        author_raws(authors@),
    );
    proof {
        assert(author_raws(authors@).len() == authors@.len());
        assert(ctx@ =~= c1);
    }
    if tags.len() > 0 {
        push_str(
            &mut ctx.joins,
            "JOIN post_tags ON posts.id = post_tags.post AND post_tags.tag IN (SELECT value FROM json_each(:tags))",
        );
        push_param(&mut ctx.params, ":tags", ids_to_json(&raw_tag_ids(tags)));
        if tags.len() > 1 {
            push_str(
                &mut ctx.havings,
                "COUNT(DISTINCT post_tags.tag) == CAST(:tag_count AS INTEGER)",
            );
            push_param(&mut ctx.params, ":tag_count", crate::strfmt::format_u64(tags.len() as u64));
        }
    }
    let ghost c2 = spec_bind_assoc(
        c1,
        tag_join_sql(),
        (":tags")@,
        tag_having_sql(),
        (":tag_count")@,
        tag_raws(tags@),
    );
    proof {
        assert(tag_raws(tags@).len() == tags@.len());
        assert(ctx@ =~= c2);
    }
    if collections.len() > 0 {
        push_str(
            &mut ctx.joins,
            "JOIN collection_posts ON posts.id = collection_posts.post AND collection_posts.collection IN (SELECT value FROM json_each(:collections))",
        );
        push_param(&mut ctx.params, ":collections", ids_to_json(&raw_collection_ids(collections)));
        if collections.len() > 1 {
            push_str(
                &mut ctx.havings,
                "COUNT(DISTINCT collection_posts.collection) == CAST(:collection_count AS INTEGER)",
            );
            push_param(
                &mut ctx.params,
                ":collection_count",
                crate::strfmt::format_u64(collections.len() as u64),
            );
        }
    }
    let ghost c3 = spec_bind_assoc(
        c2,
        collection_join_sql(),
        (":collections")@,
        collection_having_sql(),
        (":collection_count")@,
        collection_raws(collections@),
    );
    proof {
        assert(collection_raws(collections@).len() == collections@.len());
        assert(ctx@ =~= c3);
    }
    if platforms.len() > 0 {
        push_str(&mut ctx.filters, "posts.platform IN (SELECT value FROM json_each(:platform))");
        push_param(&mut ctx.params, ":platform", ids_to_json(&raw_platform_ids(platforms)));
    }
    proof {
        assert(platform_raws(platforms@).len() == platforms@.len());
        assert(ctx@ =~= spec_bind_platforms(c3, platform_raws(platforms@)));
    }
}

/// The `ORDER BY` operand for each supported ordering.
pub open spec fn order_by_sql(o: PostOrderBy) -> Seq<char> {
    match o {
        PostOrderBy::Id => "posts.id DESC"@,
        PostOrderBy::Updated => "posts.updated DESC"@,
        PostOrderBy::Random => "RANDOM()"@,
    }
}

/// The `WHERE` clause for a filter list: empty text when there is nothing
/// to filter on, never a degenerate `WHERE`.
pub open spec fn spec_where_clause(filters: Seq<Seq<char>>) -> Seq<char> {
    if filters.len() == 0 {
        Seq::empty()
    } else {
        ("WHERE ")@ + spec_join(filters, (" AND ")@)
    }
}

/// The grouped `HAVING` clause for a having list, empty when unused.
pub open spec fn spec_having_clause(havings: Seq<Seq<char>>) -> Seq<char> {
    if havings.len() == 0 {
        Seq::empty()
    } else {
        ("GROUP BY posts.id HAVING ")@ + spec_join(havings, (" AND ")@)
    }
}

/// The exact text of the row statement for a composed search.
pub open spec fn spec_search_sql(c: CtxView, o: PostOrderBy) -> Seq<char> {
    ("SELECT id, title, updated, thumb FROM posts ")@ + spec_join(c.joins, (" ")@) + (" ")@
        + spec_where_clause(c.filters) + (" ")@ + spec_having_clause(c.havings) + (" ORDER BY ")@
        + order_by_sql(o) + (" LIMIT :limit OFFSET :offset")@
}

/// The exact text of the matching total statement: the same joins, filters
/// and havings wrapped in a subquery, so grouped posts count once each.
pub open spec fn spec_search_total_sql(c: CtxView) -> Seq<char> {
    ("SELECT count() FROM (SELECT 0 FROM posts ")@ + spec_join(c.joins, (" ")@) + (" ")@
        + spec_where_clause(c.filters) + (" ")@ + spec_having_clause(c.havings) + (")")@
}

fn where_clause(filters: &Vec<String>) -> (r: String)
    ensures
        r@ == spec_where_clause(views_of(filters@)),
{
    if filters.len() == 0 {
        String::new()
    } else {
        let mut r = ("WHERE ").to_owned();
        let joined = join_strings(filters, " AND ");
        r.append(joined.as_str());
        r
    }
}

fn having_clause(havings: &Vec<String>) -> (r: String)
    ensures
        r@ == spec_having_clause(views_of(havings@)),
{
    if havings.len() == 0 {
        String::new()
    } else {
        let mut r = ("GROUP BY posts.id HAVING ").to_owned();
        let joined = join_strings(havings, " AND ");
        r.append(joined.as_str());
        r
    }
}

fn order_by_text(o: PostOrderBy) -> (r: &'static str)
    ensures
        r@ == order_by_sql(o),
{
    match o {
        PostOrderBy::Id => "posts.id DESC",
        PostOrderBy::Updated => "posts.updated DESC",
        PostOrderBy::Random => "RANDOM()",
    }
}

/// Assembles the row statement for a composed search: projection, joins,
/// filters, grouping, ordering and the `:limit`/`:offset` window.
pub fn search_sql(ctx: &SearchContext, order_by: PostOrderBy) -> (r: String)
    ensures
        r@ == spec_search_sql(ctx@, order_by),
{
    let mut r = ("SELECT id, title, updated, thumb FROM posts ").to_owned();
    let joins = join_strings(&ctx.joins, " ");
    r.append(joins.as_str());
    r.append(" ");
    let w = where_clause(&ctx.filters);
    r.append(w.as_str());
    r.append(" ");
    let h = having_clause(&ctx.havings);
    r.append(h.as_str());
    r.append(" ORDER BY ");
    r.append(order_by_text(order_by));
    r.append(" LIMIT :limit OFFSET :offset");
    r
}

/// Assembles the total statement for a composed search.
pub fn search_total_sql(ctx: &SearchContext) -> (r: String)
    ensures
        r@ == spec_search_total_sql(ctx@),
{
    let mut r = ("SELECT count() FROM (SELECT 0 FROM posts ").to_owned();
    let joins = join_strings(&ctx.joins, " ");
    r.append(joins.as_str());
    r.append(" ");
    let w = where_clause(&ctx.filters);
    r.append(w.as_str());
    r.append(" ");
    let h = having_clause(&ctx.havings);
    r.append(h.as_str());
    r.append(")");
    r
}

/// An empty filter composes to empty accumulators: with no search text and
/// four empty id sets, no join, filter or having clause is added and no
/// parameter is bound.
pub proof fn lemma_empty_filter_binds_nothing(fts: bool)
    ensures
        spec_bind_relation(
            spec_bind_search(empty_ctx(), fts, Seq::empty()),
            Seq::empty(),
            Seq::empty(),
            Seq::empty(),
            Seq::empty(),
        ) == empty_ctx(),
{
}

/// Binding search text never removes anything already composed: every
/// accumulator of the input context is a prefix of the output's, so a filter
/// can only narrow the result set, never widen it. Clearing the text
/// (an empty search) leaves the context exactly as it was.
pub proof fn lemma_search_only_narrows(c: CtxView, fts: bool, search: Seq<char>)
    ensures
        c.joins.is_prefix_of(spec_bind_search(c, fts, search).joins),
        c.filters.is_prefix_of(spec_bind_search(c, fts, search).filters),
        c.havings.is_prefix_of(spec_bind_search(c, fts, search).havings),
        c.params.is_prefix_of(spec_bind_search(c, fts, search).params),
        search.len() == 0 ==> spec_bind_search(c, fts, search) == c,
{
    let d = spec_bind_search(c, fts, search);
    assert(c.joins.is_prefix_of(d.joins)) by {
        assert(d.joins.take(c.joins.len() as int) =~= c.joins);
    };
    assert(c.filters.is_prefix_of(d.filters)) by {
        assert(d.filters.take(c.filters.len() as int) =~= c.filters);
    };
    assert(c.havings.is_prefix_of(d.havings)) by {
        assert(d.havings.take(c.havings.len() as int) =~= c.havings);
    };
    assert(c.params.is_prefix_of(d.params)) by {
        assert(d.params.take(c.params.len() as int) =~= c.params);
    };
}

/// Binding relation id sets never removes anything already composed either:
/// every accumulator of the input context is a prefix of the output's. With
/// [`lemma_search_only_narrows`], any filter can only append clauses and
/// parameters to a search — narrowing its result set, never widening it.
pub proof fn lemma_relation_only_narrows(
    c: CtxView,
    authors: Seq<u32>,
    tags: Seq<u32>,
    collections: Seq<u32>,
    platforms: Seq<u32>,
)
    ensures
        c.joins.is_prefix_of(spec_bind_relation(c, authors, tags, collections, platforms).joins),
        c.filters.is_prefix_of(
            spec_bind_relation(c, authors, tags, collections, platforms).filters,
        ),
        c.havings.is_prefix_of(
            spec_bind_relation(c, authors, tags, collections, platforms).havings,
        ),
        c.params.is_prefix_of(spec_bind_relation(c, authors, tags, collections, platforms).params),
{
    let d = spec_bind_relation(c, authors, tags, collections, platforms);
    assert(c.joins.is_prefix_of(d.joins)) by {
        assert(d.joins.take(c.joins.len() as int) =~= c.joins);
    };
    assert(c.filters.is_prefix_of(d.filters)) by {
        assert(d.filters.take(c.filters.len() as int) =~= c.filters);
    };
    assert(c.havings.is_prefix_of(d.havings)) by {
        assert(d.havings.take(c.havings.len() as int) =~= c.havings);
    };
    assert(c.params.is_prefix_of(d.params)) by {
        assert(d.params.take(c.params.len() as int) =~= c.params);
    };
}

/// An association id set with more than one member composes its intersection
/// having clause — every matched post must carry all ids, not merely one —
/// while a singleton set adds no having clause (the join alone decides) and
/// an empty set changes nothing at all.
pub proof fn lemma_assoc_intersection(
    c: CtxView,
    join_txt: Seq<char>,
    key: Seq<char>,
    having_txt: Seq<char>,
    count_key: Seq<char>,
    ids: Seq<u32>,
)
    ensures
        ids.len() > 1 ==> spec_bind_assoc(c, join_txt, key, having_txt, count_key, ids).havings
            == c.havings.push(having_txt),
        ids.len() == 1 ==> spec_bind_assoc(c, join_txt, key, having_txt, count_key, ids).havings
            == c.havings,
        ids.len() == 0 ==> spec_bind_assoc(c, join_txt, key, having_txt, count_key, ids) == c,
{
}

} // verus!
