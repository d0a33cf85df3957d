//! The trusted boundary around the archive database.
//!
//! Everything that actually touches `rusqlite` or `post_archiver` lives
//! here, in small `external_body` items whose contracts the rest of the
//! crate is verified against. Each verified `run_*` method also counts the
//! statement it issues, so callers can state — and tests can observe — how
//! many round-trips an operation cost.

use vstd::prelude::*;

use post_archiver::query::FromQuery;
use rusqlite::OptionalExtension;

use crate::entity::{
    Alias, Author, Collection, Content, FileMeta, Platform, PostComment, PostPreview, Tag,
    authors_within,
    collections_within, files_within, platforms_within, tags_within,
};
use crate::ids::{AuthorId, CollectionId, FileMetaId, PlatformId, PostId, TagId};

verus! {

/// How a database operation can fail: the statement itself failed, or a
/// stored JSON column did not parse (archive corruption). A missing row is
/// never an error; it surfaces as `None` or an absent entity.
#[derive(Debug, Clone, Copy, PartialEq, Eq, Structural)]
pub enum DbError {
    Query,
    Decode,
}

/// `n` advanced by one statement, saturating at the counter's end.
pub open spec fn bumped(n: u64) -> u64 {
    if n < u64::MAX {
        (n + 1) as u64
    } else {
        n
    }
}

/// One raw row of the posts table, JSON columns still undecoded.
#[derive(Debug, Clone)]
pub struct PostRow {
    pub id: u32,
    pub source: Option<String>,
    pub title: String,
    pub content_json: String,
    pub comments_json: String,
    pub thumb: Option<u32>,
    pub platform: Option<u32>,
    pub updated: i64,
    pub published: i64,
}

/// Relies on rusqlite's `Row::get` to read the single integer column of a
/// count statement.
#[verifier::external_body]
fn row_u64<'a>(row: &rusqlite::Row<'a>) -> (r: Result<u64, rusqlite::Error>) {
    row.get(0)
}

/// Relies on rusqlite's `Row::get` to read a single integer column.
#[verifier::external_body]
fn row_u32<'a>(row: &rusqlite::Row<'a>) -> (r: Result<u32, rusqlite::Error>) {
    row.get(0)
}

/// Relies on rusqlite's `Row::get` to read a single text column.
#[verifier::external_body]
fn row_string<'a>(row: &rusqlite::Row<'a>) -> (r: Result<String, rusqlite::Error>) {
    row.get(0)
}

/// Relies on rusqlite's `Row::get` (and chrono decoding for the two
/// timestamp columns) to read one posts row, field for field; the JSON
/// columns stay as text.
#[verifier::external_body]
fn post_row_from<'a>(row: &rusqlite::Row<'a>) -> (r: Result<PostRow, rusqlite::Error>) {
    Ok(PostRow {
        id: row.get("id")?,
        source: row.get("source")?,
        title: row.get("title")?,
        content_json: row.get("content")?,
        comments_json: row.get("comments")?,
        thumb: row.get("thumb")?,
        platform: row.get("platform")?,
        updated: row.get::<_, chrono::DateTime<chrono::Utc>>("updated")?.timestamp_millis(),
        published: row.get::<_, chrono::DateTime<chrono::Utc>>("published")?.timestamp_millis(),
    })
}

/// Relies on rusqlite's `Row::get` and chrono to read one file-listing row:
/// the filename and the owning post number.
#[verifier::external_body]
fn row_file_location<'a>(row: &rusqlite::Row<'a>) -> (r: Result<(String, u32), rusqlite::Error>) {
    Ok((row.get(0)?, row.get(1)?))
}

/// Relies on serde_json to decode a post's `content` column — a JSON array
/// of blocks, each either a markdown string or a file id number — into the
/// crate's content blocks, one arm per variant.
#[verifier::external_body]
pub(crate) fn parse_contents(s: &str) -> (r: Result<Vec<Content>, DbError>) {
    let blocks: Vec<post_archiver::Content> = match serde_json::from_str(s) {
        Ok(b) => b,
        Err(_) => return Err(DbError::Decode),
    };
    Ok(blocks.into_iter().map(|b| match b {
        post_archiver::Content::Text(t) => Content::Text(t),
        post_archiver::Content::File(f) => Content::File(FileMetaId(f.0)),
    }).collect())
}

/// Mirrors a `post_archiver::Comment` field for field, replies recursively.
#[verifier::external_body]
fn convert_comment(c: post_archiver::Comment) -> (r: PostComment) {
    PostComment {
        user: c.user,
        text: c.text,
        replies: c.replies.into_iter().map(convert_comment).collect(),
    }
}

/// Relies on serde_json to decode a post's `comments` column — a JSON array
/// of comment objects with nested replies.
#[verifier::external_body]
pub(crate) fn parse_comments(s: &str) -> (r: Result<Vec<PostComment>, DbError>) {
    let comments: Vec<post_archiver::Comment> = match serde_json::from_str(s) {
        Ok(c) => c,
        Err(_) => return Err(DbError::Decode),
    };
    Ok(comments.into_iter().map(convert_comment).collect())
}

/// The live archive connection plus a statement counter. All SQL the crate
/// issues flows through the `run_*` methods of this type, each of which
/// advances the counter by exactly one.
pub struct Db {
    manager: post_archiver::manager::PostArchiverManager<rusqlite::Connection>,
    queries: u64,
}

type Manager = post_archiver::manager::PostArchiverManager<rusqlite::Connection>;

/// Relies on rusqlite's `prepare_cached`/`query_row` to run a count
/// statement with positional text parameters; a statement over an empty
/// grouped set yields no row, which counts as zero.
#[verifier::external_body]
fn count_raw(m: &Manager, sql: &str, params: &Vec<String>) -> (r: Result<u64, DbError>) {
    let mut stmt = match m.conn().prepare_cached(sql) {
        Ok(s) => s,
        Err(_) => return Err(DbError::Query),
    };
    match stmt.query_row(rusqlite::params_from_iter(params.iter()), row_u64) {
        Ok(n) => Ok(n),
        Err(rusqlite::Error::QueryReturnedNoRows) => Ok(0),
        Err(_) => Err(DbError::Query),
    }
}

/// Relies on rusqlite's `prepare_cached`/`query_map` and post_archiver's
/// row decoder to run an author listing statement.
#[verifier::external_body]
fn author_rows_raw(m: &Manager, sql: &str, params: &Vec<String>) -> (r: Result<Vec<Author>, DbError>) {
    let mut stmt = m.conn().prepare_cached(sql).map_err(|_| DbError::Query)?;
    let rows = stmt.query_map(rusqlite::params_from_iter(params.iter()), post_archiver::Author::from_row).map_err(|_| DbError::Query)?;
    let list: Vec<post_archiver::Author> = rows.collect::<Result<_, _>>().map_err(|_| DbError::Query)?;
    Ok(list.into_iter().map(|a| Author { id: AuthorId(a.id.0), name: a.name, thumb: a.thumb.map(|t| FileMetaId(t.0)), updated: a.updated.timestamp_millis() }).collect())
}

/// Relies on rusqlite's `prepare_cached`/`query_map` and post_archiver's
/// row decoder to run a tag listing statement.
#[verifier::external_body]
fn tag_rows_raw(m: &Manager, sql: &str, params: &Vec<String>) -> (r: Result<Vec<Tag>, DbError>) {
    let mut stmt = m.conn().prepare_cached(sql).map_err(|_| DbError::Query)?;
    let rows = stmt.query_map(rusqlite::params_from_iter(params.iter()), post_archiver::Tag::from_row).map_err(|_| DbError::Query)?;
    let list: Vec<post_archiver::Tag> = rows.collect::<Result<_, _>>().map_err(|_| DbError::Query)?;
    Ok(list.into_iter().map(|t| Tag { id: TagId(t.id.0), name: t.name, platform: t.platform.map(|p| PlatformId(p.0)) }).collect())
}

/// Relies on rusqlite's `prepare_cached`/`query_map` and post_archiver's
/// row decoder to run a platform listing statement.
#[verifier::external_body]
fn platform_rows_raw(m: &Manager, sql: &str, params: &Vec<String>) -> (r: Result<Vec<Platform>, DbError>) {
    let mut stmt = m.conn().prepare_cached(sql).map_err(|_| DbError::Query)?;
    let rows = stmt.query_map(rusqlite::params_from_iter(params.iter()), post_archiver::Platform::from_row).map_err(|_| DbError::Query)?;
    let list: Vec<post_archiver::Platform> = rows.collect::<Result<_, _>>().map_err(|_| DbError::Query)?;
    Ok(list.into_iter().map(|p| Platform { id: PlatformId(p.id.0), name: p.name }).collect())
}

/// Relies on rusqlite's `prepare_cached`/`query_map` and post_archiver's
/// row decoder to run a collection listing statement.
#[verifier::external_body]
fn collection_rows_raw(m: &Manager, sql: &str, params: &Vec<String>) -> (r: Result<Vec<Collection>, DbError>) {
    let mut stmt = m.conn().prepare_cached(sql).map_err(|_| DbError::Query)?;
    let rows = stmt.query_map(rusqlite::params_from_iter(params.iter()), post_archiver::Collection::from_row).map_err(|_| DbError::Query)?;
    let list: Vec<post_archiver::Collection> = rows.collect::<Result<_, _>>().map_err(|_| DbError::Query)?;
    Ok(list.into_iter().map(|c| Collection { id: CollectionId(c.id.0), name: c.name, source: c.source, thumb: c.thumb.map(|t| FileMetaId(t.0)) }).collect())
}

/// Relies on rusqlite's `Row::get` to read one file-metadata row; the
/// free-form `extra` column rides along as its raw JSON text, so a
/// malformed value surfaces as an error from the statement, never a panic.
#[verifier::external_body]
fn file_meta_from_row<'a>(row: &rusqlite::Row<'a>) -> (r: Result<FileMeta, rusqlite::Error>) {
    Ok(FileMeta {
        id: FileMetaId(row.get("id")?),
        filename: row.get("filename")?,
        post: PostId(row.get("post")?),
        mime: row.get("mime")?,
        extra: row.get("extra")?,
    })
}

/// Relies on rusqlite's `prepare_cached`/`query_map` to run a file-metadata
/// listing statement.
#[verifier::external_body]
fn file_rows_raw(m: &Manager, sql: &str, params: &Vec<String>) -> (r: Result<Vec<FileMeta>, DbError>) {
    let mut stmt = m.conn().prepare_cached(sql).map_err(|_| DbError::Query)?;
    let rows = stmt.query_map(rusqlite::params_from_iter(params.iter()), file_meta_from_row).map_err(|_| DbError::Query)?;
    rows.collect::<Result<Vec<FileMeta>, _>>().map_err(|_| DbError::Query)
}

/// Relies on rusqlite's `prepare_cached`/`query_row` to run a count
/// statement with named text parameters; a statement over an empty grouped
/// set yields no row, which counts as zero.
#[verifier::external_body]
fn count_named_raw(m: &Manager, sql: &str, named: &Vec<(String, String)>) -> (r: Result<
    u64,
    DbError,
>) {
    let p: Vec<(&str, &dyn rusqlite::ToSql)> = named.iter().map(
        |kv| (kv.0.as_str(), &kv.1 as &dyn rusqlite::ToSql),
    ).collect();
    let mut stmt = match m.conn().prepare_cached(sql) {
        Ok(s) => s,
        Err(_) => return Err(DbError::Query),
    };
    match stmt.query_row(p.as_slice(), row_u64) {
        Ok(n) => Ok(n),
        Err(rusqlite::Error::QueryReturnedNoRows) => Ok(0),
        Err(_) => Err(DbError::Query),
    }
}

/// Relies on rusqlite's `prepare_cached`/`query_map` to run a post-preview
/// statement with named text parameters.
#[verifier::external_body]
fn preview_rows_raw(m: &Manager, sql: &str, named: &Vec<(String, String)>) -> (r: Result<Vec<PostPreview>, DbError>) {
    let p: Vec<(&str, &dyn rusqlite::ToSql)> = named.iter().map(|kv| (kv.0.as_str(), &kv.1 as &dyn rusqlite::ToSql)).collect();
    let mut stmt = m.conn().prepare_cached(sql).map_err(|_| DbError::Query)?;
    let rows = stmt.query_map(p.as_slice(), preview_from_row).map_err(|_| DbError::Query)?;
    rows.collect::<Result<Vec<PostPreview>, _>>().map_err(|_| DbError::Query)
}

/// Relies on rusqlite's `Row::get` and chrono decoding to read one preview
/// row: id, title, thumb and update time.
#[verifier::external_body]
fn preview_from_row<'a>(row: &rusqlite::Row<'a>) -> (r: Result<PostPreview, rusqlite::Error>) {
    Ok(PostPreview {
        id: PostId(row.get("id")?),
        title: row.get("title")?,
        thumb: match row.get::<_, Option<u32>>("thumb")? {
            Some(t) => Some(FileMetaId(t)),
            None => None,
        },
        updated: row.get::<_, chrono::DateTime<chrono::Utc>>("updated")?.timestamp_millis(),
    })
}

/// Relies on rusqlite executing `SELECT * FROM authors WHERE id IN (SELECT
/// value FROM json_each(?))` with the set bound as one JSON array: `id` is
/// the table's primary key, so every returned row's id lies in the bound
/// set and no id repeats.
#[verifier::external_body]
fn authors_by_ids_raw(m: &Manager, ids: &Vec<AuthorId>) -> (r: Result<Vec<Author>, DbError>)
    ensures
        r matches Ok(list) ==> authors_within(list@, ids@),
{
    let json = serde_json::to_string(&ids.iter().map(|i| i.0).collect::<Vec<u32>>()).unwrap_or_default();
    author_rows_raw(m, "SELECT * FROM authors WHERE id IN (SELECT value FROM json_each(?))", &vec![json])
}

/// Relies on rusqlite executing `SELECT * FROM tags WHERE id IN (SELECT
/// value FROM json_each(?))` with the set bound as one JSON array: `id` is
/// the table's primary key, so every returned row's id lies in the bound
/// set and no id repeats.
#[verifier::external_body]
fn tags_by_ids_raw(m: &Manager, ids: &Vec<TagId>) -> (r: Result<Vec<Tag>, DbError>)
    ensures
        r matches Ok(list) ==> tags_within(list@, ids@),
{
    let json = serde_json::to_string(&ids.iter().map(|i| i.0).collect::<Vec<u32>>()).unwrap_or_default();
    tag_rows_raw(m, "SELECT * FROM tags WHERE id IN (SELECT value FROM json_each(?))", &vec![json])
}

/// Relies on rusqlite executing `SELECT * FROM platforms WHERE id IN (SELECT
/// value FROM json_each(?))` with the set bound as one JSON array: `id` is
/// the table's primary key, so every returned row's id lies in the bound
/// set and no id repeats.
#[verifier::external_body]
fn platforms_by_ids_raw(m: &Manager, ids: &Vec<PlatformId>) -> (r: Result<Vec<Platform>, DbError>)
    ensures
        r matches Ok(list) ==> platforms_within(list@, ids@),
{
    let json = serde_json::to_string(&ids.iter().map(|i| i.0).collect::<Vec<u32>>()).unwrap_or_default();
    platform_rows_raw(m, "SELECT * FROM platforms WHERE id IN (SELECT value FROM json_each(?))", &vec![json])
}

/// Relies on rusqlite executing `SELECT * FROM collections WHERE id IN (SELECT
/// value FROM json_each(?))` with the set bound as one JSON array: `id` is
/// the table's primary key, so every returned row's id lies in the bound
/// set and no id repeats.
#[verifier::external_body]
fn collections_by_ids_raw(m: &Manager, ids: &Vec<CollectionId>) -> (r: Result<Vec<Collection>, DbError>)
    ensures
        r matches Ok(list) ==> collections_within(list@, ids@),
{
    let json = serde_json::to_string(&ids.iter().map(|i| i.0).collect::<Vec<u32>>()).unwrap_or_default();
    collection_rows_raw(m, "SELECT * FROM collections WHERE id IN (SELECT value FROM json_each(?))", &vec![json])
}

/// Relies on rusqlite executing `SELECT * FROM file_metas WHERE id IN (SELECT
/// value FROM json_each(?))` with the set bound as one JSON array: `id` is
/// the table's primary key, so every returned row's id lies in the bound
/// set and no id repeats.
#[verifier::external_body]
fn files_by_ids_raw(m: &Manager, ids: &Vec<FileMetaId>) -> (r: Result<Vec<FileMeta>, DbError>)
    ensures
        r matches Ok(list) ==> files_within(list@, ids@),
{
    let json = serde_json::to_string(&ids.iter().map(|i| i.0).collect::<Vec<u32>>()).unwrap_or_default();
    file_rows_raw(m, "SELECT * FROM file_metas WHERE id IN (SELECT value FROM json_each(?))", &vec![json])
}

/// Relies on rusqlite's `prepare_cached`/`query_row` to look one posts row
/// up by primary key; a missing row is `None`, not an error.
#[verifier::external_body]
fn post_row_raw(m: &Manager, id: u32) -> (r: Result<Option<PostRow>, DbError>) {
    let mut stmt = match m.conn().prepare_cached("SELECT * FROM posts WHERE id = ?") {
        Ok(s) => s,
        Err(_) => return Err(DbError::Query),
    };
    match stmt.query_row([id], post_row_from).optional() {
        Ok(r) => Ok(r),
        Err(_) => Err(DbError::Query),
    }
}

/// Relies on post_archiver's bound manager to list the tag ids one post
/// carries.
#[verifier::external_body]
fn post_tag_ids_raw(m: &Manager, id: u32) -> (r: Result<Vec<TagId>, DbError>) {
    match m.bind(post_archiver::PostId(id)).list_tags() {
        Ok(v) => Ok(v.into_iter().map(|t| TagId(t.0)).collect()),
        Err(_) => Err(DbError::Query),
    }
}

/// Relies on post_archiver's bound manager to list the author ids one post
/// carries.
#[verifier::external_body]
fn post_author_ids_raw(m: &Manager, id: u32) -> (r: Result<Vec<AuthorId>, DbError>) {
    match m.bind(post_archiver::PostId(id)).list_authors() {
        Ok(v) => Ok(v.into_iter().map(|a| AuthorId(a.0)).collect()),
        Err(_) => Err(DbError::Query),
    }
}

/// Relies on post_archiver's bound manager to list the collection ids one
/// post belongs to.
#[verifier::external_body]
fn post_collection_ids_raw(m: &Manager, id: u32) -> (r: Result<Vec<CollectionId>, DbError>) {
    match m.bind(post_archiver::PostId(id)).list_collections() {
        Ok(v) => Ok(v.into_iter().map(|c| CollectionId(c.0)).collect()),
        Err(_) => Err(DbError::Query),
    }
}

/// Relies on post_archiver's bound manager to list an author's aliases.
#[verifier::external_body]
fn author_aliases_raw(m: &Manager, id: u32) -> (r: Result<Vec<Alias>, DbError>) {
    match m.bind(post_archiver::AuthorId(id)).list_aliases() {
        Ok(v) => Ok(v.into_iter().map(|a| Alias {
            source: a.source,
            platform: PlatformId(a.platform.0),
            target: AuthorId(a.target.0),
            link: a.link,
        }).collect()),
        Err(_) => Err(DbError::Query),
    }
}

/// Relies on rusqlite's `query_row` to read the archive's version string
/// from its metadata table.
#[verifier::external_body]
fn meta_version_raw(m: &Manager) -> (r: Result<String, DbError>) {
    match m.conn().query_row("SELECT version FROM post_archiver_meta", [], row_string) {
        Ok(v) => Ok(v),
        Err(_) => Err(DbError::Query),
    }
}

/// Relies on rusqlite's `prepare_cached`/`query_row` to find the post a
/// source URL belongs to; any failure counts as "no such post".
#[verifier::external_body]
fn post_id_by_source_raw(m: &Manager, url: &str) -> (r: Option<u32>) {
    let mut stmt = match m.conn().prepare_cached("SELECT id FROM posts WHERE source = ?") {
        Ok(s) => s,
        Err(_) => return None,
    };
    stmt.query_row([url], row_u32).ok()
}

/// Relies on rusqlite's `prepare_cached`/`query_row` to read the filename
/// and owning post number of one file-metadata row.
#[verifier::external_body]
fn file_location_raw(m: &Manager, id: u32) -> (r: Result<Option<(String, u32)>, DbError>) {
    let mut stmt = match m.conn().prepare_cached(
        "SELECT filename, post FROM file_metas WHERE id = ?",
    ) {
        Ok(s) => s,
        Err(_) => return Err(DbError::Query),
    };
    match stmt.query_row([id], row_file_location).optional() {
        Ok(r) => Ok(r),
        Err(_) => Err(DbError::Query),
    }
}

/// Relies on post_archiver's version constant.
#[verifier::external_body]
pub(crate) fn archiver_version() -> (r: String) {
    post_archiver::utils::VERSION.to_owned()
}

impl Db {
    /// Wraps an opened archive manager; the statement counter starts at
    /// zero.
    pub fn new(manager: post_archiver::manager::PostArchiverManager<rusqlite::Connection>) -> (r:
        Db)
        ensures
            r.spec_queries() == 0,
    {
        Db { manager, queries: 0 }
    }

    /// How many statements this handle has issued.
    pub closed spec fn spec_queries(&self) -> u64 {
        self.queries
    }

    /// Reads the statement counter.
    pub fn query_count(&self) -> (r: u64)
        ensures
            r == self.spec_queries(),
    {
        self.queries
    }

    fn note_query(&mut self)
        ensures
            final(self).spec_queries() == bumped(old(self).spec_queries()),
    {
        if self.queries < u64::MAX {
            self.queries = self.queries + 1;
        }
    }

    /// Runs a count statement with positional text parameters.
    pub(crate) fn run_count(&mut self, sql: &str, params: &Vec<String>) -> (r: Result<u64, DbError>)
        ensures
            final(self).spec_queries() == bumped(old(self).spec_queries()),
    {
        self.note_query();
        count_raw(&self.manager, sql, params)
    }

    /// Runs a count statement with named text parameters.
    pub(crate) fn run_count_named(&mut self, sql: &str, named: &Vec<(String, String)>) -> (r: Result<
        u64,
        DbError,
    >)
        ensures
            final(self).spec_queries() == bumped(old(self).spec_queries()),
    {
        self.note_query();
        count_named_raw(&self.manager, sql, named)
    }

    /// Runs an author listing statement.
    pub(crate) fn run_author_rows(&mut self, sql: &str, params: &Vec<String>) -> (r: Result<
        Vec<Author>,
        DbError,
    >)
        ensures
            final(self).spec_queries() == bumped(old(self).spec_queries()),
    {
        self.note_query();
        author_rows_raw(&self.manager, sql, params)
    }

    /// Runs a tag listing statement.
    pub(crate) fn run_tag_rows(&mut self, sql: &str, params: &Vec<String>) -> (r: Result<
        Vec<Tag>,
        DbError,
    >)
        ensures
            final(self).spec_queries() == bumped(old(self).spec_queries()),
    {
        self.note_query();
        tag_rows_raw(&self.manager, sql, params)
    }

    /// Runs a platform listing statement.
    pub(crate) fn run_platform_rows(&mut self, sql: &str, params: &Vec<String>) -> (r: Result<
        Vec<Platform>,
        DbError,
    >)
        ensures
            final(self).spec_queries() == bumped(old(self).spec_queries()),
    {
        self.note_query();
        platform_rows_raw(&self.manager, sql, params)
    }

    /// Runs a collection listing statement.
    pub(crate) fn run_collection_rows(&mut self, sql: &str, params: &Vec<String>) -> (r: Result<
        Vec<Collection>,
        DbError,
    >)
        ensures
            final(self).spec_queries() == bumped(old(self).spec_queries()),
    {
        self.note_query();
        collection_rows_raw(&self.manager, sql, params)
    }

    /// Runs a post-preview statement with named text parameters.
    pub(crate) fn run_preview_rows(&mut self, sql: &str, named: &Vec<(String, String)>) -> (r: Result<
        Vec<PostPreview>,
        DbError,
    >)
        ensures
            final(self).spec_queries() == bumped(old(self).spec_queries()),
    {
        self.note_query();
        preview_rows_raw(&self.manager, sql, named)
    }

    /// Batch-loads author rows by id set.
    pub(crate) fn run_authors_by_ids(&mut self, ids: &Vec<AuthorId>) -> (r: Result<Vec<Author>, DbError>)
        ensures
            final(self).spec_queries() == bumped(old(self).spec_queries()),
            r matches Ok(list) ==> authors_within(list@, ids@),
    {
        self.note_query();
        authors_by_ids_raw(&self.manager, ids)
    }

    /// Batch-loads tag rows by id set.
    pub(crate) fn run_tags_by_ids(&mut self, ids: &Vec<TagId>) -> (r: Result<Vec<Tag>, DbError>)
        ensures
            final(self).spec_queries() == bumped(old(self).spec_queries()),
            r matches Ok(list) ==> tags_within(list@, ids@),
    {
        self.note_query();
        tags_by_ids_raw(&self.manager, ids)
    }

    /// Batch-loads platform rows by id set.
    pub(crate) fn run_platforms_by_ids(&mut self, ids: &Vec<PlatformId>) -> (r: Result<
        Vec<Platform>,
        DbError,
    >)
        ensures
            final(self).spec_queries() == bumped(old(self).spec_queries()),
            r matches Ok(list) ==> platforms_within(list@, ids@),
    {
        self.note_query();
        platforms_by_ids_raw(&self.manager, ids)
    }

    /// Batch-loads collection rows by id set.
    pub(crate) fn run_collections_by_ids(&mut self, ids: &Vec<CollectionId>) -> (r: Result<
        Vec<Collection>,
        DbError,
    >)
        ensures
            final(self).spec_queries() == bumped(old(self).spec_queries()),
            r matches Ok(list) ==> collections_within(list@, ids@),
    {
        self.note_query();
        collections_by_ids_raw(&self.manager, ids)
    }

    /// Batch-loads file-metadata rows by id set.
    pub(crate) fn run_files_by_ids(&mut self, ids: &Vec<FileMetaId>) -> (r: Result<Vec<FileMeta>, DbError>)
        ensures
            final(self).spec_queries() == bumped(old(self).spec_queries()),
            r matches Ok(list) ==> files_within(list@, ids@),
    {
        self.note_query();
        files_by_ids_raw(&self.manager, ids)
    }

    /// Looks one post up by primary key; `None` means no such row.
    pub(crate) fn run_post_row(&mut self, id: PostId) -> (r: Result<Option<PostRow>, DbError>)
        ensures
            final(self).spec_queries() == bumped(old(self).spec_queries()),
    {
        self.note_query();
        post_row_raw(&self.manager, id.0)
    }

    /// Lists the tag ids one post carries.
    pub(crate) fn run_post_tag_ids(&mut self, id: PostId) -> (r: Result<Vec<TagId>, DbError>)
        ensures
            final(self).spec_queries() == bumped(old(self).spec_queries()),
    {
        self.note_query();
        post_tag_ids_raw(&self.manager, id.0)
    }

    /// Lists the author ids one post carries.
    pub(crate) fn run_post_author_ids(&mut self, id: PostId) -> (r: Result<Vec<AuthorId>, DbError>)
        ensures
            final(self).spec_queries() == bumped(old(self).spec_queries()),
    {
        self.note_query();
        post_author_ids_raw(&self.manager, id.0)
    }

    /// Lists the collection ids one post belongs to.
    pub(crate) fn run_post_collection_ids(&mut self, id: PostId) -> (r: Result<Vec<CollectionId>, DbError>)
        ensures
            final(self).spec_queries() == bumped(old(self).spec_queries()),
    {
        self.note_query();
        post_collection_ids_raw(&self.manager, id.0)
    }

    /// Lists an author's aliases.
    pub(crate) fn run_author_aliases(&mut self, id: AuthorId) -> (r: Result<Vec<Alias>, DbError>)
        ensures
            final(self).spec_queries() == bumped(old(self).spec_queries()),
    {
        self.note_query();
        author_aliases_raw(&self.manager, id.0)
    }

    /// Reads the archive's stored version string.
    pub(crate) fn run_meta_version(&mut self) -> (r: Result<String, DbError>)
        ensures
            final(self).spec_queries() == bumped(old(self).spec_queries()),
    {
        self.note_query();
        meta_version_raw(&self.manager)
    }

    /// Finds the post a source URL belongs to, if any.
    pub(crate) fn run_post_id_by_source(&mut self, url: &str) -> (r: Option<PostId>)
        ensures
            final(self).spec_queries() == bumped(old(self).spec_queries()),
    {
        self.note_query();
        match post_id_by_source_raw(&self.manager, url) {
            Some(id) => Some(PostId(id)),
            None => None,
        }
    }

    /// Reads the filename and owning post number of one file row.
    pub(crate) fn run_file_location(&mut self, id: FileMetaId) -> (r: Result<
        Option<(String, u32)>,
        DbError,
    >)
        ensures
            final(self).spec_queries() == bumped(old(self).spec_queries()),
    {
        self.note_query();
        file_location_raw(&self.manager, id.0)
    }
}

} // verus!
