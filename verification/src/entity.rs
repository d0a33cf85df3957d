//! The entity model: plain values for every row the archive can hand back.
//!
//! Timestamps are unix milliseconds; the free-form `extra` metadata of a
//! file rides along as its raw JSON text. Each identifier keeps its own
//! newtype so ids of different kinds can never be mixed up.

use vstd::prelude::*;

use crate::ids::{AuthorId, CollectionId, FileMetaId, PlatformId, PostId, TagId};

verus! {

/// A content creator or contributor.
#[derive(Debug, Clone, PartialEq)]
pub struct Author {
    pub id: AuthorId,
    pub name: String,
    pub thumb: Option<FileMetaId>,
    pub updated: i64,
}

/// An alternative name of an author on some platform.
#[derive(Debug, Clone, PartialEq)]
pub struct Alias {
    pub source: String,
    pub platform: PlatformId,
    pub target: AuthorId,
    pub link: Option<String>,
}

/// A label posts carry, optionally owned by a platform.
#[derive(Debug, Clone, PartialEq)]
pub struct Tag {
    pub id: TagId,
    pub name: String,
    pub platform: Option<PlatformId>,
}

/// A source platform posts and tags come from.
#[derive(Debug, Clone, PartialEq)]
pub struct Platform {
    pub id: PlatformId,
    pub name: String,
}

/// A named grouping of posts.
#[derive(Debug, Clone, PartialEq)]
pub struct Collection {
    pub id: CollectionId,
    pub name: String,
    pub source: Option<String>,
    pub thumb: Option<FileMetaId>,
}

/// Metadata of one archived file.
#[derive(Debug, Clone, PartialEq)]
pub struct FileMeta {
    pub id: FileMetaId,
    pub filename: String,
    pub post: PostId,
    pub mime: String,
    /// The free-form metadata map, as its raw JSON object text.
    pub extra: String,
}

/// One block of a post's body: literal text or a file reference.
#[derive(Debug, Clone, PartialEq)]
pub enum Content {
    Text(String),
    File(FileMetaId),
}

/// An embedded comment, with nested replies.
#[derive(Debug, PartialEq)]
pub struct PostComment {
    pub user: String,
    pub text: String,
    pub replies: Vec<PostComment>,
}

/// The slim shape a post takes in listings.
#[derive(Debug, Clone, PartialEq)]
pub struct PostPreview {
    pub id: PostId,
    pub title: String,
    pub thumb: Option<FileMetaId>,
    pub updated: i64,
}

/// The full shape of one post, with its own tags, authors, collections and
/// comments embedded.
#[derive(Debug, PartialEq)]
pub struct PostResponse {
    pub id: PostId,
    pub title: String,
    pub content: Vec<Content>,
    pub source: Option<String>,
    pub updated: i64,
    pub published: i64,
    pub thumb: Option<FileMetaId>,
    pub platform: Option<PlatformId>,
    pub tags: Vec<Tag>,
    pub authors: Vec<Author>,
    pub collections: Vec<Collection>,
    pub comments: Vec<PostComment>,
}

/// A page of rows together with the total the whole listing holds.
#[derive(Debug, Clone, PartialEq)]
pub struct ListResponse<T> {
    pub list: Vec<T>,
    pub total: u64,
}

/// One row of whichever category table was asked for.
#[derive(Debug, Clone, PartialEq)]
pub enum CategoryEntity {
    Author(Author),
    Tag(Tag),
    Platform(Platform),
    Collection(Collection),
}

/// The archive-wide summary: library and archive versions, and how many
/// rows each category table holds.
#[derive(Debug, Clone, PartialEq)]
pub struct SummaryJson {
    pub version: String,
    pub post_archiver_version: String,
    pub tags: u32,
    pub authors: u32,
    pub collections: u32,
    pub platforms: u32,
}

// What a batched primary-key lookup can hand back: every row's id lies in
// the requested set and no id repeats. A requested id may be absent — a
// dangling reference resolves to nothing rather than an error.

/// Author rows confined to a requested id set, each id at most once.
pub open spec fn authors_within(list: Seq<Author>, ids: Seq<AuthorId>) -> bool {
    &&& forall|i: int| 0 <= i < list.len() ==> ids.contains(#[trigger] list[i].id)
    &&& forall|i: int, j: int| 0 <= i < j < list.len() ==> list[i].id != list[j].id
}

/// Tag rows confined to a requested id set, each id at most once.
pub open spec fn tags_within(list: Seq<Tag>, ids: Seq<TagId>) -> bool {
    &&& forall|i: int| 0 <= i < list.len() ==> ids.contains(#[trigger] list[i].id)
    &&& forall|i: int, j: int| 0 <= i < j < list.len() ==> list[i].id != list[j].id
}

/// Platform rows confined to a requested id set, each id at most once.
pub open spec fn platforms_within(list: Seq<Platform>, ids: Seq<PlatformId>) -> bool {
    &&& forall|i: int| 0 <= i < list.len() ==> ids.contains(#[trigger] list[i].id)
    &&& forall|i: int, j: int| 0 <= i < j < list.len() ==> list[i].id != list[j].id
}

/// Collection rows confined to a requested id set, each id at most once.
pub open spec fn collections_within(list: Seq<Collection>, ids: Seq<CollectionId>) -> bool {
    &&& forall|i: int| 0 <= i < list.len() ==> ids.contains(#[trigger] list[i].id)
    &&& forall|i: int, j: int| 0 <= i < j < list.len() ==> list[i].id != list[j].id
}

/// File rows confined to a requested id set, each id at most once.
pub open spec fn files_within(list: Seq<FileMeta>, ids: Seq<FileMetaId>) -> bool {
    &&& forall|i: int| 0 <= i < list.len() ==> ids.contains(#[trigger] list[i].id)
    &&& forall|i: int, j: int| 0 <= i < j < list.len() ==> list[i].id != list[j].id
}

} // verus!
