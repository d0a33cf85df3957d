//! The relation enrichment engine.
//!
//! A payload declares, per relation kind, which foreign ids it needs:
//! authors, collections, platforms, tags and file attachments. Enrichment
//! resolves each kind in one batched query, after deduplicating the id set,
//! and skips the query entirely when the set is empty. The order is load
//! bearing: tags resolve before platforms (a tag contributes its platform
//! id), and authors and collections resolve before files (their thumbnails
//! contribute file ids). A requested id with no row is simply absent from
//! the resolved list — enrichment degrades gracefully, never errors, on a
//! dangling reference.

use vstd::prelude::*;

use crate::db::{bumped, Db, DbError};
use crate::entity::{
    Author, Collection, Content, FileMeta, Platform, PostPreview, PostResponse, Tag,
    authors_within, collections_within, files_within, platforms_within, tags_within,
    Alias, CategoryEntity, ListResponse,
};
use crate::ids::{AuthorId, CollectionId, FileMetaId, PlatformId, TagId};

verus! {

/// A one- or zero-element sequence out of an optional value.
pub open spec fn opt_seq<A>(o: Option<A>) -> Seq<A> {
    match o {
        Some(x) => seq![x],
        None => Seq::empty(),
    }
}

fn opt_vec<A: Copy>(o: Option<A>) -> (r: Vec<A>)
    ensures
        r@ == opt_seq(o),
{
    let mut r: Vec<A> = Vec::new();
    match o {
        Some(x) => {
            r.push(x);
            proof {
                assert(r@ =~= opt_seq(o));
            }
        },
        None => {
            proof {
                assert(r@ =~= opt_seq(o));
            }
        },
    }
    r
}

/// The platform ids a tag list contributes: each tag's platform, in order.
pub open spec fn tag_platforms(tags: Seq<Tag>) -> Seq<PlatformId>
    decreases tags.len(),
{
    if tags.len() == 0 {
        Seq::empty()
    } else {
        tag_platforms(tags.drop_last()) + opt_seq(tags.last().platform)
    }
}

/// The file ids an author list contributes: each author's thumbnail.
pub open spec fn author_thumbs(authors: Seq<Author>) -> Seq<FileMetaId>
    decreases authors.len(),
{
    if authors.len() == 0 {
        Seq::empty()
    } else {
        author_thumbs(authors.drop_last()) + opt_seq(authors.last().thumb)
    }
}

/// The file ids a collection list contributes: each collection's thumbnail.
pub open spec fn collection_thumbs(collections: Seq<Collection>) -> Seq<FileMetaId>
    decreases collections.len(),
{
    if collections.len() == 0 {
        Seq::empty()
    } else {
        collection_thumbs(collections.drop_last()) + opt_seq(collections.last().thumb)
    }
}

/// The file ids a content list references: every file block, in order.
pub open spec fn content_files(content: Seq<Content>) -> Seq<FileMetaId>
    decreases content.len(),
{
    if content.len() == 0 {
        Seq::empty()
    } else {
        content_files(content.drop_last()) + (match content.last() {
            Content::File(f) => seq![f],
            Content::Text(_) => Seq::empty(),
        })
    }
}

fn collect_tag_platforms(acc: &mut Vec<PlatformId>, tags: &Vec<Tag>)
    ensures
        final(acc)@ == old(acc)@ + tag_platforms(tags@),
{
    let ghost base = acc@;
    let mut i: usize = 0;
    while i < tags.len()
        invariant
            i <= tags.len(),
            acc@ == base + tag_platforms(tags@.take(i as int)),
        decreases tags.len() - i,
    {
        match tags[i].platform {
            Some(p) => acc.push(p),
            None => (),
        }
        proof {
            assert(tags@.take(i + 1).drop_last() =~= tags@.take(i as int));
            assert(tags@.take(i + 1).last() == tags@[i as int]);
            assert(acc@ =~= base + tag_platforms(tags@.take(i + 1)));
        }
        i = i + 1;
    }
    proof {
        assert(tags@.take(tags@.len() as int) =~= tags@);
    }
}

fn collect_author_thumbs(acc: &mut Vec<FileMetaId>, authors: &Vec<Author>)
    ensures
        final(acc)@ == old(acc)@ + author_thumbs(authors@),
{
    let ghost base = acc@;
    let mut i: usize = 0;
    while i < authors.len()
        invariant
            i <= authors.len(),
            acc@ == base + author_thumbs(authors@.take(i as int)),
        decreases authors.len() - i,
    {
        match authors[i].thumb {
            Some(t) => acc.push(t),
            None => (),
        }
        proof {
            assert(authors@.take(i + 1).drop_last() =~= authors@.take(i as int));
            assert(authors@.take(i + 1).last() == authors@[i as int]);
            assert(acc@ =~= base + author_thumbs(authors@.take(i + 1)));
        }
        i = i + 1;
    }
    proof {
        assert(authors@.take(authors@.len() as int) =~= authors@);
    }
}

fn collect_collection_thumbs(acc: &mut Vec<FileMetaId>, collections: &Vec<Collection>)
    ensures
        final(acc)@ == old(acc)@ + collection_thumbs(collections@),
{
    let ghost base = acc@;
    let mut i: usize = 0;
    while i < collections.len()
        invariant
            i <= collections.len(),
            acc@ == base + collection_thumbs(collections@.take(i as int)),
        decreases collections.len() - i,
    {
        match collections[i].thumb {
            Some(t) => acc.push(t),
            None => (),
        }
        proof {
            assert(collections@.take(i + 1).drop_last() =~= collections@.take(i as int));
            assert(collections@.take(i + 1).last() == collections@[i as int]);
            assert(acc@ =~= base + collection_thumbs(collections@.take(i + 1)));
        }
        i = i + 1;
    }
    proof {
        assert(collections@.take(collections@.len() as int) =~= collections@);
    }
}

fn collect_content_files(acc: &mut Vec<FileMetaId>, content: &Vec<Content>)
    ensures
        final(acc)@ == old(acc)@ + content_files(content@),
{
    let ghost base = acc@;
    let mut i: usize = 0;
    while i < content.len()
        invariant
            i <= content.len(),
            acc@ == base + content_files(content@.take(i as int)),
        decreases content.len() - i,
    {
        match &content[i] {
            Content::File(f) => acc.push(*f),
            Content::Text(_) => (),
        }
        proof {
            assert(content@.take(i + 1).drop_last() =~= content@.take(i as int));
            assert(content@.take(i + 1).last() == content@[i as int]);
            assert(acc@ =~= base + content_files(content@.take(i + 1)));
        }
        i = i + 1;
    }
    proof {
        assert(content@.take(content@.len() as int) =~= content@);
    }
}

/// A payload that can say, per relation kind, which foreign ids it needs
/// resolved — including ids it only holds indirectly.
pub trait RequireRelations: Sized {
    /// The author ids the payload references.
    spec fn authors_req(&self) -> Seq<AuthorId>;

    /// The collection ids the payload references.
    spec fn collections_req(&self) -> Seq<CollectionId>;

    /// The platform ids the payload itself references.
    spec fn platforms_req(&self) -> Seq<PlatformId>;

    /// The tag ids the payload references.
    spec fn tags_req(&self) -> Seq<TagId>;

    /// The file ids the payload itself references.
    spec fn file_metas_req(&self) -> Seq<FileMetaId>;

    fn authors(&self) -> (r: Vec<AuthorId>)
        ensures
            r@ == self.authors_req(),
    ;

    fn collections(&self) -> (r: Vec<CollectionId>)
        ensures
            r@ == self.collections_req(),
    ;

    fn platforms(&self) -> (r: Vec<PlatformId>)
        ensures
            r@ == self.platforms_req(),
    ;

    fn tags(&self) -> (r: Vec<TagId>)
        ensures
            r@ == self.tags_req(),
    ;

    fn file_metas(&self) -> (r: Vec<FileMetaId>)
        ensures
            r@ == self.file_metas_req(),
    ;
}

impl RequireRelations for Author {
    open spec fn authors_req(&self) -> Seq<AuthorId> {
        Seq::empty()
    }

    open spec fn collections_req(&self) -> Seq<CollectionId> {
        Seq::empty()
    }

    open spec fn platforms_req(&self) -> Seq<PlatformId> {
        Seq::empty()
    }

    open spec fn tags_req(&self) -> Seq<TagId> {
        Seq::empty()
    }

    open spec fn file_metas_req(&self) -> Seq<FileMetaId> {
        opt_seq(self.thumb)
    }

    fn authors(&self) -> (r: Vec<AuthorId>) {
        Vec::new()
    }

    fn collections(&self) -> (r: Vec<CollectionId>) {
        Vec::new()
    }

    fn platforms(&self) -> (r: Vec<PlatformId>) {
        Vec::new()
    }

    fn tags(&self) -> (r: Vec<TagId>) {
        Vec::new()
    }

    fn file_metas(&self) -> (r: Vec<FileMetaId>) {
        opt_vec(self.thumb)
    }
}

impl RequireRelations for Alias {
    open spec fn authors_req(&self) -> Seq<AuthorId> {
        Seq::empty()
    }

    open spec fn collections_req(&self) -> Seq<CollectionId> {
        Seq::empty()
    }

    open spec fn platforms_req(&self) -> Seq<PlatformId> {
        seq![self.platform]
    }

    open spec fn tags_req(&self) -> Seq<TagId> {
        Seq::empty()
    }

    open spec fn file_metas_req(&self) -> Seq<FileMetaId> {
        Seq::empty()
    }

    fn authors(&self) -> (r: Vec<AuthorId>) {
        Vec::new()
    }

    fn collections(&self) -> (r: Vec<CollectionId>) {
        Vec::new()
    }

    fn platforms(&self) -> (r: Vec<PlatformId>) {
        let mut r: Vec<PlatformId> = Vec::new();
        r.push(self.platform);
        proof {
            assert(r@ =~= seq![self.platform]);
        }
        r
    }

    fn tags(&self) -> (r: Vec<TagId>) {
        Vec::new()
    }

    fn file_metas(&self) -> (r: Vec<FileMetaId>) {
        Vec::new()
    }
}

impl RequireRelations for Tag {
    open spec fn authors_req(&self) -> Seq<AuthorId> {
        Seq::empty()
    }

    open spec fn collections_req(&self) -> Seq<CollectionId> {
        Seq::empty()
    }

    open spec fn platforms_req(&self) -> Seq<PlatformId> {
        opt_seq(self.platform)
    }

    open spec fn tags_req(&self) -> Seq<TagId> {
        Seq::empty()
    }

    open spec fn file_metas_req(&self) -> Seq<FileMetaId> {
        Seq::empty()
    }

    fn authors(&self) -> (r: Vec<AuthorId>) {
        Vec::new()
    }

    fn collections(&self) -> (r: Vec<CollectionId>) {
        Vec::new()
    }

    fn platforms(&self) -> (r: Vec<PlatformId>) {
        opt_vec(self.platform)
    }

    fn tags(&self) -> (r: Vec<TagId>) {
        Vec::new()
    }

    fn file_metas(&self) -> (r: Vec<FileMetaId>) {
        Vec::new()
    }
}

impl RequireRelations for Platform {
    open spec fn authors_req(&self) -> Seq<AuthorId> {
        Seq::empty()
    }

    open spec fn collections_req(&self) -> Seq<CollectionId> {
        Seq::empty()
    }

    open spec fn platforms_req(&self) -> Seq<PlatformId> {
        Seq::empty()
    }

    open spec fn tags_req(&self) -> Seq<TagId> {
        Seq::empty()
    }

    open spec fn file_metas_req(&self) -> Seq<FileMetaId> {
        Seq::empty()
    }

    fn authors(&self) -> (r: Vec<AuthorId>) {
        Vec::new()
    }

    fn collections(&self) -> (r: Vec<CollectionId>) {
        Vec::new()
    }

    fn platforms(&self) -> (r: Vec<PlatformId>) {
        Vec::new()
    }

    fn tags(&self) -> (r: Vec<TagId>) {
        Vec::new()
    }

    fn file_metas(&self) -> (r: Vec<FileMetaId>) {
        Vec::new()
    }
}

impl RequireRelations for Collection {
    open spec fn authors_req(&self) -> Seq<AuthorId> {
        Seq::empty()
    }

    open spec fn collections_req(&self) -> Seq<CollectionId> {
        Seq::empty()
    }

    open spec fn platforms_req(&self) -> Seq<PlatformId> {
        Seq::empty()
    }

    open spec fn tags_req(&self) -> Seq<TagId> {
        Seq::empty()
    }

    open spec fn file_metas_req(&self) -> Seq<FileMetaId> {
        opt_seq(self.thumb)
    }

    fn authors(&self) -> (r: Vec<AuthorId>) {
        Vec::new()
    }

    fn collections(&self) -> (r: Vec<CollectionId>) {
        Vec::new()
    }

    fn platforms(&self) -> (r: Vec<PlatformId>) {
        Vec::new()
    }

    fn tags(&self) -> (r: Vec<TagId>) {
        Vec::new()
    }

    fn file_metas(&self) -> (r: Vec<FileMetaId>) {
        opt_vec(self.thumb)
    }
}

impl RequireRelations for PostPreview {
    open spec fn authors_req(&self) -> Seq<AuthorId> {
        Seq::empty()
    }

    open spec fn collections_req(&self) -> Seq<CollectionId> {
        Seq::empty()
    }

    open spec fn platforms_req(&self) -> Seq<PlatformId> {
        Seq::empty()
    }

    open spec fn tags_req(&self) -> Seq<TagId> {
        Seq::empty()
    }

    open spec fn file_metas_req(&self) -> Seq<FileMetaId> {
        opt_seq(self.thumb)
    }

    fn authors(&self) -> (r: Vec<AuthorId>) {
        Vec::new()
    }

    fn collections(&self) -> (r: Vec<CollectionId>) {
        Vec::new()
    }

    fn platforms(&self) -> (r: Vec<PlatformId>) {
        Vec::new()
    }

    fn tags(&self) -> (r: Vec<TagId>) {
        Vec::new()
    }

    fn file_metas(&self) -> (r: Vec<FileMetaId>) {
        opt_vec(self.thumb)
    }
}

impl RequireRelations for PostResponse {
    open spec fn authors_req(&self) -> Seq<AuthorId> {
        Seq::empty()
    }

    open spec fn collections_req(&self) -> Seq<CollectionId> {
        Seq::empty()
    }

    /// The post's own platform, then each embedded tag's platform.
    open spec fn platforms_req(&self) -> Seq<PlatformId> {
        opt_seq(self.platform) + tag_platforms(self.tags@)
    }

    open spec fn tags_req(&self) -> Seq<TagId> {
        Seq::empty()
    }

    /// Every file its content blocks reference, its own thumbnail, then the
    /// thumbnails of its embedded authors and collections.
    open spec fn file_metas_req(&self) -> Seq<FileMetaId> {
        content_files(self.content@) + opt_seq(self.thumb) + author_thumbs(self.authors@)
            + collection_thumbs(self.collections@)
    }

    fn authors(&self) -> (r: Vec<AuthorId>) {
        Vec::new()
    }

    fn collections(&self) -> (r: Vec<CollectionId>) {
        Vec::new()
    }

    fn platforms(&self) -> (r: Vec<PlatformId>) {
        let mut r = opt_vec(self.platform);
        collect_tag_platforms(&mut r, &self.tags);
        r
    }

    fn tags(&self) -> (r: Vec<TagId>) {
        Vec::new()
    }

    fn file_metas(&self) -> (r: Vec<FileMetaId>) {
        let mut r: Vec<FileMetaId> = Vec::new();
        collect_content_files(&mut r, &self.content);
        let mut own = opt_vec(self.thumb);
        r.append(&mut own);
        collect_author_thumbs(&mut r, &self.authors);
        collect_collection_thumbs(&mut r, &self.collections);
        proof {
            assert(r@ =~= self.file_metas_req());
        }
        r
    }
}

impl RequireRelations for CategoryEntity {
    open spec fn authors_req(&self) -> Seq<AuthorId> {
        Seq::empty()
    }

    open spec fn collections_req(&self) -> Seq<CollectionId> {
        Seq::empty()
    }

    open spec fn platforms_req(&self) -> Seq<PlatformId> {
        match self {
            CategoryEntity::Tag(t) => t.platforms_req(),
            _ => Seq::empty(),
        }
    }

    open spec fn tags_req(&self) -> Seq<TagId> {
        Seq::empty()
    }

    open spec fn file_metas_req(&self) -> Seq<FileMetaId> {
        match self {
            CategoryEntity::Author(a) => a.file_metas_req(),
            CategoryEntity::Collection(c) => c.file_metas_req(),
            _ => Seq::empty(),
        }
    }

    fn authors(&self) -> (r: Vec<AuthorId>) {
        Vec::new()
    }

    fn collections(&self) -> (r: Vec<CollectionId>) {
        Vec::new()
    }

    fn platforms(&self) -> (r: Vec<PlatformId>) {
        match self {
            CategoryEntity::Tag(t) => t.platforms(),
            _ => Vec::new(),
        }
    }

    fn tags(&self) -> (r: Vec<TagId>) {
        Vec::new()
    }

    fn file_metas(&self) -> (r: Vec<FileMetaId>) {
        match self {
            CategoryEntity::Author(a) => a.file_metas(),
            CategoryEntity::Collection(c) => c.file_metas(),
            _ => Vec::new(),
        }
    }
}

/// The author ids a payload list needs: each element's, in order.
pub open spec fn list_authors_req<T: RequireRelations>(s: Seq<T>) -> Seq<AuthorId>
    decreases s.len(),
{
    if s.len() == 0 {
        Seq::empty()
    } else {
        list_authors_req(s.drop_last()) + s.last().authors_req()
    }
}

/// The collection ids a payload list needs.
pub open spec fn list_collections_req<T: RequireRelations>(s: Seq<T>) -> Seq<CollectionId>
    decreases s.len(),
{
    if s.len() == 0 {
        Seq::empty()
    } else {
        list_collections_req(s.drop_last()) + s.last().collections_req()
    }
}

/// The platform ids a payload list needs.
pub open spec fn list_platforms_req<T: RequireRelations>(s: Seq<T>) -> Seq<PlatformId>
    decreases s.len(),
{
    if s.len() == 0 {
        Seq::empty()
    } else {
        list_platforms_req(s.drop_last()) + s.last().platforms_req()
    }
}

/// The tag ids a payload list needs.
pub open spec fn list_tags_req<T: RequireRelations>(s: Seq<T>) -> Seq<TagId>
    decreases s.len(),
{
    if s.len() == 0 {
        Seq::empty()
    } else {
        list_tags_req(s.drop_last()) + s.last().tags_req()
    }
}

/// The file ids a payload list needs.
pub open spec fn list_file_metas_req<T: RequireRelations>(s: Seq<T>) -> Seq<FileMetaId>
    decreases s.len(),
{
    if s.len() == 0 {
        Seq::empty()
    } else {
        list_file_metas_req(s.drop_last()) + s.last().file_metas_req()
    }
}

impl<T: RequireRelations> RequireRelations for ListResponse<T> {
    open spec fn authors_req(&self) -> Seq<AuthorId> {
        list_authors_req(self.list@)
    }

    open spec fn collections_req(&self) -> Seq<CollectionId> {
        list_collections_req(self.list@)
    }

    open spec fn platforms_req(&self) -> Seq<PlatformId> {
        list_platforms_req(self.list@)
    }

    open spec fn tags_req(&self) -> Seq<TagId> {
        list_tags_req(self.list@)
    }

    open spec fn file_metas_req(&self) -> Seq<FileMetaId> {
        list_file_metas_req(self.list@)
    }

    fn authors(&self) -> (r: Vec<AuthorId>) {
        let mut r: Vec<AuthorId> = Vec::new();
        let mut i: usize = 0;
        while i < self.list.len()
            invariant
                i <= self.list.len(),
                r@ == list_authors_req(self.list@.take(i as int)),
            decreases self.list.len() - i,
        {
            let mut part = self.list[i].authors();
            r.append(&mut part);
            proof {
                assert(self.list@.take(i + 1).drop_last() =~= self.list@.take(i as int));
                assert(self.list@.take(i + 1).last() == self.list@[i as int]);
            }
            i = i + 1;
        }
        proof {
            assert(self.list@.take(self.list@.len() as int) =~= self.list@);
        }
        r
    }

    fn collections(&self) -> (r: Vec<CollectionId>) {
        let mut r: Vec<CollectionId> = Vec::new();
        let mut i: usize = 0;
        while i < self.list.len()
            invariant
                i <= self.list.len(),
                r@ == list_collections_req(self.list@.take(i as int)),
            decreases self.list.len() - i,
        {
            let mut part = self.list[i].collections();
            r.append(&mut part);
            proof {
                assert(self.list@.take(i + 1).drop_last() =~= self.list@.take(i as int));
                assert(self.list@.take(i + 1).last() == self.list@[i as int]);
            }
            i = i + 1;
        }
        proof {
            assert(self.list@.take(self.list@.len() as int) =~= self.list@);
        }
        r
    }

    fn platforms(&self) -> (r: Vec<PlatformId>) {
        let mut r: Vec<PlatformId> = Vec::new();
        let mut i: usize = 0;
        while i < self.list.len()
            invariant
                i <= self.list.len(),
                r@ == list_platforms_req(self.list@.take(i as int)),
            decreases self.list.len() - i,
        {
            let mut part = self.list[i].platforms();
            r.append(&mut part);
            proof {
                assert(self.list@.take(i + 1).drop_last() =~= self.list@.take(i as int));
                assert(self.list@.take(i + 1).last() == self.list@[i as int]);
            }
            i = i + 1;
        }
        proof {
            assert(self.list@.take(self.list@.len() as int) =~= self.list@);
        }
        r
    }

    fn tags(&self) -> (r: Vec<TagId>) {
        let mut r: Vec<TagId> = Vec::new();
        let mut i: usize = 0;
        while i < self.list.len()
            invariant
                i <= self.list.len(),
                r@ == list_tags_req(self.list@.take(i as int)),
            decreases self.list.len() - i,
        {
            let mut part = self.list[i].tags();
            r.append(&mut part);
            proof {
                assert(self.list@.take(i + 1).drop_last() =~= self.list@.take(i as int));
                assert(self.list@.take(i + 1).last() == self.list@[i as int]);
            }
            i = i + 1;
        }
        proof {
            assert(self.list@.take(self.list@.len() as int) =~= self.list@);
        }
        r
    }

    fn file_metas(&self) -> (r: Vec<FileMetaId>) {
        let mut r: Vec<FileMetaId> = Vec::new();
        let mut i: usize = 0;
        while i < self.list.len()
            invariant
                i <= self.list.len(),
                r@ == list_file_metas_req(self.list@.take(i as int)),
            decreases self.list.len() - i,
        {
            let mut part = self.list[i].file_metas();
            r.append(&mut part);
            proof {
                assert(self.list@.take(i + 1).drop_last() =~= self.list@.take(i as int));
                assert(self.list@.take(i + 1).last() == self.list@[i as int]);
            }
            i = i + 1;
        }
        proof {
            assert(self.list@.take(self.list@.len() as int) =~= self.list@);
        }
        r
    }
}

proof fn lemma_take_contains_step<A>(s: Seq<A>, j: int, x: A)
    requires
        0 <= j < s.len(),
    ensures
        s.take(j + 1).contains(x) <==> (s.take(j).contains(x) || s[j] == x),
{
    if s.take(j + 1).contains(x) {
        let t = choose|t: int| 0 <= t < s.take(j + 1).len() && #[trigger] s.take(j + 1)[t] == x;
        if t < j {
            assert(s.take(j)[t] == x);
        }
    }
    if s.take(j).contains(x) {
        let t = choose|t: int| 0 <= t < s.take(j).len() && #[trigger] s.take(j)[t] == x;
        assert(s.take(j + 1)[t] == x);
    }
    if s[j] == x {
        assert(s.take(j + 1)[j] == x);
    }
}

proof fn lemma_push_contains<A>(s: Seq<A>, x: A, y: A)
    ensures
        s.push(x).contains(y) <==> (s.contains(y) || y == x),
{
    if s.push(x).contains(y) {
        let t = choose|t: int| 0 <= t < s.push(x).len() && #[trigger] s.push(x)[t] == y;
        if t < s.len() {
            assert(s[t] == y);
        }
    }
    if s.contains(y) {
        let t = choose|t: int| 0 <= t < s.len() && #[trigger] s[t] == y;
        assert(s.push(x)[t] == y);
    }
    if y == x {
        assert(s.push(x)[s.len() as int] == y);
    }
}

fn dedup_author_ids(v: &Vec<AuthorId>) -> (r: Vec<AuthorId>)
    ensures
        forall|x: AuthorId| #[trigger] r@.contains(x) <==> v@.contains(x),
        forall|a: int, b: int| 0 <= a < b < r@.len() ==> r@[a] != r@[b],
{
    let mut r: Vec<AuthorId> = Vec::new();
    let mut i: usize = 0;
    while i < v.len()
        invariant
            i <= v.len(),
            forall|x: AuthorId| #[trigger] r@.contains(x) <==> v@.take(i as int).contains(x),
            forall|a: int, b: int| 0 <= a < b < r@.len() ==> r@[a] != r@[b],
        decreases v.len() - i,
    {
        let x = v[i];
        let mut found = false;
        let mut j: usize = 0;
        while j < r.len()
            invariant
                j <= r@.len(),
                x == v@[i as int],
                found <==> r@.take(j as int).contains(x),
            decreases r@.len() - j,
        {
            if r[j] == x {
                found = true;
            }
            proof {
                lemma_take_contains_step(r@, j as int, x);
            }
            j = j + 1;
        }
        proof {
            assert(r@.take(r@.len() as int) =~= r@);
        }
        let ghost r0 = r@;
        if !found {
            r.push(x);
        }
        proof {
            assert forall|y: AuthorId| #[trigger] r@.contains(y) <==> v@.take(i + 1).contains(
                y,
            ) by {
                lemma_take_contains_step(v@, i as int, y);
                lemma_push_contains(r0, x, y);
            };
        }
        i = i + 1;
    }
    proof {
        assert(v@.take(v@.len() as int) =~= v@);
    }
    r
}

fn dedup_collection_ids(v: &Vec<CollectionId>) -> (r: Vec<CollectionId>)
    ensures
        forall|x: CollectionId| #[trigger] r@.contains(x) <==> v@.contains(x),
        forall|a: int, b: int| 0 <= a < b < r@.len() ==> r@[a] != r@[b],
{
    let mut r: Vec<CollectionId> = Vec::new();
    let mut i: usize = 0;
    while i < v.len()
        invariant
            i <= v.len(),
            forall|x: CollectionId| #[trigger] r@.contains(x) <==> v@.take(i as int).contains(x),
            forall|a: int, b: int| 0 <= a < b < r@.len() ==> r@[a] != r@[b],
        decreases v.len() - i,
    {
        let x = v[i];
        let mut found = false;
        let mut j: usize = 0;
        while j < r.len()
            invariant
                j <= r@.len(),
                x == v@[i as int],
                found <==> r@.take(j as int).contains(x),
            decreases r@.len() - j,
        {
            if r[j] == x {
                found = true;
            }
            proof {
                lemma_take_contains_step(r@, j as int, x);
            }
            j = j + 1;
        }
        proof {
            assert(r@.take(r@.len() as int) =~= r@);
        }
        let ghost r0 = r@;
        if !found {
            r.push(x);
        }
        proof {
            assert forall|y: CollectionId| #[trigger] r@.contains(y) <==> v@.take(i + 1).contains(
                y,
            ) by {
                lemma_take_contains_step(v@, i as int, y);
                lemma_push_contains(r0, x, y);
            };
        }
        i = i + 1;
    }
    proof {
        assert(v@.take(v@.len() as int) =~= v@);
    }
    r
}

fn dedup_platform_ids(v: &Vec<PlatformId>) -> (r: Vec<PlatformId>)
    ensures
        forall|x: PlatformId| #[trigger] r@.contains(x) <==> v@.contains(x),
        forall|a: int, b: int| 0 <= a < b < r@.len() ==> r@[a] != r@[b],
{
    let mut r: Vec<PlatformId> = Vec::new();
    let mut i: usize = 0;
    while i < v.len()
        invariant
            i <= v.len(),
            forall|x: PlatformId| #[trigger] r@.contains(x) <==> v@.take(i as int).contains(x),
            forall|a: int, b: int| 0 <= a < b < r@.len() ==> r@[a] != r@[b],
        decreases v.len() - i,
    {
        let x = v[i];
        let mut found = false;
        let mut j: usize = 0;
        while j < r.len()
            invariant
                j <= r@.len(),
                x == v@[i as int],
                found <==> r@.take(j as int).contains(x),
            decreases r@.len() - j,
        {
            if r[j] == x {
                found = true;
            }
            proof {
                lemma_take_contains_step(r@, j as int, x);
            }
            j = j + 1;
        }
        proof {
            assert(r@.take(r@.len() as int) =~= r@);
        }
        let ghost r0 = r@;
        if !found {
            r.push(x);
        }
        proof {
            assert forall|y: PlatformId| #[trigger] r@.contains(y) <==> v@.take(i + 1).contains(
                y,
            ) by {
                lemma_take_contains_step(v@, i as int, y);
                lemma_push_contains(r0, x, y);
            };
        }
        i = i + 1;
    }
    proof {
        assert(v@.take(v@.len() as int) =~= v@);
    }
    r
}

fn dedup_tag_ids(v: &Vec<TagId>) -> (r: Vec<TagId>)
    ensures
        forall|x: TagId| #[trigger] r@.contains(x) <==> v@.contains(x),
        forall|a: int, b: int| 0 <= a < b < r@.len() ==> r@[a] != r@[b],
{
    let mut r: Vec<TagId> = Vec::new();
    let mut i: usize = 0;
    while i < v.len()
        invariant
            i <= v.len(),
            forall|x: TagId| #[trigger] r@.contains(x) <==> v@.take(i as int).contains(x),
            forall|a: int, b: int| 0 <= a < b < r@.len() ==> r@[a] != r@[b],
        decreases v.len() - i,
    {
        let x = v[i];
        let mut found = false;
        let mut j: usize = 0;
        while j < r.len()
            invariant
                j <= r@.len(),
                x == v@[i as int],
                found <==> r@.take(j as int).contains(x),
            decreases r@.len() - j,
        {
            if r[j] == x {
                found = true;
            }
            proof {
                lemma_take_contains_step(r@, j as int, x);
            }
            j = j + 1;
        }
        proof {
            assert(r@.take(r@.len() as int) =~= r@);
        }
        let ghost r0 = r@;
        if !found {
            r.push(x);
        }
        proof {
            assert forall|y: TagId| #[trigger] r@.contains(y) <==> v@.take(i + 1).contains(y) by {
                lemma_take_contains_step(v@, i as int, y);
                lemma_push_contains(r0, x, y);
            };
        }
        i = i + 1;
    }
    proof {
        assert(v@.take(v@.len() as int) =~= v@);
    }
    r
}

fn dedup_file_ids(v: &Vec<FileMetaId>) -> (r: Vec<FileMetaId>)
    ensures
        forall|x: FileMetaId| #[trigger] r@.contains(x) <==> v@.contains(x),
        forall|a: int, b: int| 0 <= a < b < r@.len() ==> r@[a] != r@[b],
{
    let mut r: Vec<FileMetaId> = Vec::new();
    let mut i: usize = 0;
    while i < v.len()
        invariant
            i <= v.len(),
            forall|x: FileMetaId| #[trigger] r@.contains(x) <==> v@.take(i as int).contains(x),
            forall|a: int, b: int| 0 <= a < b < r@.len() ==> r@[a] != r@[b],
        decreases v.len() - i,
    {
        let x = v[i];
        let mut found = false;
        let mut j: usize = 0;
        while j < r.len()
            invariant
                j <= r@.len(),
                x == v@[i as int],
                found <==> r@.take(j as int).contains(x),
            decreases r@.len() - j,
        {
            if r[j] == x {
                found = true;
            }
            proof {
                lemma_take_contains_step(r@, j as int, x);
            }
            j = j + 1;
        }
        proof {
            assert(r@.take(r@.len() as int) =~= r@);
        }
        let ghost r0 = r@;
        if !found {
            r.push(x);
        }
        proof {
            assert forall|y: FileMetaId| #[trigger] r@.contains(y) <==> v@.take(i + 1).contains(
                y,
            ) by {
                lemma_take_contains_step(v@, i as int, y);
                lemma_push_contains(r0, x, y);
            };
        }
        i = i + 1;
    }
    proof {
        assert(v@.take(v@.len() as int) =~= v@);
    }
    r
}

/// Resolves a set of author ids: deduplicates, then batch-loads in one
/// query — or none at all when the set is empty.
pub fn resolve_authors(db: &mut Db, ids: &Vec<AuthorId>) -> (r: Result<Vec<Author>, DbError>)
    ensures
        r matches Ok(list) ==> authors_within(list@, ids@),
        ids@.len() == 0 ==> final(db).spec_queries() == old(db).spec_queries() && (match r {
            Ok(list) => list@.len() == 0,
            Err(_) => false,
        }),
        ids@.len() > 0 ==> final(db).spec_queries() == bumped(old(db).spec_queries()),
{
    if ids.len() == 0 {
        return Ok(Vec::new());
    }
    let uniq = dedup_author_ids(ids);
    match db.run_authors_by_ids(&uniq) {
        Ok(list) => {
            proof {
                assert forall|t: int| 0 <= t < list@.len() implies ids@.contains(
                    #[trigger] list@[t].id,
                ) by {
                    assert(uniq@.contains(list@[t].id));
                };
            }
            Ok(list)
        },
        Err(e) => Err(e),
    }
}

/// Resolves a set of collection ids, deduplicated, in at most one query.
pub fn resolve_collections(db: &mut Db, ids: &Vec<CollectionId>) -> (r: Result<
    Vec<Collection>,
    DbError,
>)
    ensures
        r matches Ok(list) ==> collections_within(list@, ids@),
        ids@.len() == 0 ==> final(db).spec_queries() == old(db).spec_queries() && (match r {
            Ok(list) => list@.len() == 0,
            Err(_) => false,
        }),
        ids@.len() > 0 ==> final(db).spec_queries() == bumped(old(db).spec_queries()),
{
    if ids.len() == 0 {
        return Ok(Vec::new());
    }
    let uniq = dedup_collection_ids(ids);
    match db.run_collections_by_ids(&uniq) {
        Ok(list) => {
            proof {
                assert forall|t: int| 0 <= t < list@.len() implies ids@.contains(
                    #[trigger] list@[t].id,
                ) by {
                    assert(uniq@.contains(list@[t].id));
                };
            }
            Ok(list)
        },
        Err(e) => Err(e),
    }
}

/// Resolves a set of platform ids, deduplicated, in at most one query.
pub fn resolve_platforms(db: &mut Db, ids: &Vec<PlatformId>) -> (r: Result<Vec<Platform>, DbError>)
    ensures
        r matches Ok(list) ==> platforms_within(list@, ids@),
        ids@.len() == 0 ==> final(db).spec_queries() == old(db).spec_queries() && (match r {
            Ok(list) => list@.len() == 0,
            Err(_) => false,
        }),
        ids@.len() > 0 ==> final(db).spec_queries() == bumped(old(db).spec_queries()),
{
    if ids.len() == 0 {
        return Ok(Vec::new());
    }
    let uniq = dedup_platform_ids(ids);
    match db.run_platforms_by_ids(&uniq) {
        Ok(list) => {
            proof {
                assert forall|t: int| 0 <= t < list@.len() implies ids@.contains(
                    #[trigger] list@[t].id,
                ) by {
                    assert(uniq@.contains(list@[t].id));
                };
            }
            Ok(list)
        },
        Err(e) => Err(e),
    }
}

/// Resolves a set of tag ids, deduplicated, in at most one query.
pub fn resolve_tags(db: &mut Db, ids: &Vec<TagId>) -> (r: Result<Vec<Tag>, DbError>)
    ensures
        r matches Ok(list) ==> tags_within(list@, ids@),
        ids@.len() == 0 ==> final(db).spec_queries() == old(db).spec_queries() && (match r {
            Ok(list) => list@.len() == 0,
            Err(_) => false,
        }),
        ids@.len() > 0 ==> final(db).spec_queries() == bumped(old(db).spec_queries()),
{
    if ids.len() == 0 {
        return Ok(Vec::new());
    }
    let uniq = dedup_tag_ids(ids);
    match db.run_tags_by_ids(&uniq) {
        Ok(list) => {
            proof {
                assert forall|t: int| 0 <= t < list@.len() implies ids@.contains(
                    #[trigger] list@[t].id,
                ) by {
                    assert(uniq@.contains(list@[t].id));
                };
            }
            Ok(list)
        },
        Err(e) => Err(e),
    }
}

/// Resolves a set of file ids, deduplicated, in at most one query.
pub fn resolve_files(db: &mut Db, ids: &Vec<FileMetaId>) -> (r: Result<Vec<FileMeta>, DbError>)
    ensures
        r matches Ok(list) ==> files_within(list@, ids@),
        ids@.len() == 0 ==> final(db).spec_queries() == old(db).spec_queries() && (match r {
            Ok(list) => list@.len() == 0,
            Err(_) => false,
        }),
        ids@.len() > 0 ==> final(db).spec_queries() == bumped(old(db).spec_queries()),
{
    if ids.len() == 0 {
        return Ok(Vec::new());
    }
    let uniq = dedup_file_ids(ids);
    match db.run_files_by_ids(&uniq) {
        Ok(list) => {
            proof {
                assert forall|t: int| 0 <= t < list@.len() implies ids@.contains(
                    #[trigger] list@[t].id,
                ) by {
                    assert(uniq@.contains(list@[t].id));
                };
            }
            Ok(list)
        },
        Err(e) => Err(e),
    }
}

/// `1` when a set was worth a query, else `0`.
pub open spec fn one_if(b: bool) -> nat {
    if b {
        1
    } else {
        0
    }
}

/// `n` advanced by `k` statements.
pub open spec fn bumped_n(n: u64, k: nat) -> u64
    decreases k,
{
    if k == 0 {
        n
    } else {
        bumped(bumped_n(n, (k - 1) as nat))
    }
}

pub(crate) proof fn lemma_bumped_n_add(n: u64, a: nat, b: nat)
    ensures
        bumped_n(n, a + b) == bumped_n(bumped_n(n, a), b),
    decreases b,
{
    if b > 0 {
        lemma_bumped_n_add(n, a, (b - 1) as nat);
    }
}

pub(crate) proof fn lemma_bumped_n_base_mono(a: u64, b: u64, k: nat)
    requires
        a <= b,
    ensures
        bumped_n(a, k) <= bumped_n(b, k),
    decreases k,
{
    if k > 0 {
        lemma_bumped_n_base_mono(a, b, (k - 1) as nat);
    }
}

/// The statement counter never moves backwards.
pub(crate) proof fn lemma_bumped_n_ge(n: u64, k: nat)
    ensures
        n <= bumped_n(n, k),
    decreases k,
{
    if k > 0 {
        lemma_bumped_n_ge(n, (k - 1) as nat);
    }
}

pub(crate) proof fn lemma_bumped_n_mono(n: u64, a: nat, b: nat)
    requires
        a <= b,
    ensures
        bumped_n(n, a) <= bumped_n(n, b),
    decreases b,
{
    if a < b {
        lemma_bumped_n_mono(n, a, (b - 1) as nat);
    }
}

/// A counter that advanced by `k` statements stays within a budget of
/// `cap` statements.
pub(crate) proof fn lemma_within_budget(n: u64, q: u64, k: nat, cap: nat)
    requires
        q == bumped_n(n, k),
        k <= cap,
    ensures
        n <= q,
        q <= bumped_n(n, cap),
{
    lemma_bumped_n_ge(n, k);
    lemma_bumped_n_mono(n, k, cap);
}

/// A payload together with its five resolved side-lists.
#[derive(Debug)]
pub struct WithRelation<T> {
    pub inner: T,
    pub authors: Vec<Author>,
    pub collections: Vec<Collection>,
    pub platforms: Vec<Platform>,
    pub tags: Vec<Tag>,
    pub file_metas: Vec<FileMeta>,
}

/// The enrichment contract: each side-list holds only rows the payload
/// asked for — directly, or through an earlier side-list (a resolved tag's
/// platform; a resolved author's or collection's thumbnail) — with no id
/// twice. Ids whose rows are gone are simply absent.
pub open spec fn enriched<T: RequireRelations>(w: WithRelation<T>) -> bool {
    &&& authors_within(w.authors@, w.inner.authors_req())
    &&& collections_within(w.collections@, w.inner.collections_req())
    &&& tags_within(w.tags@, w.inner.tags_req())
    &&& platforms_within(w.platforms@, w.inner.platforms_req() + tag_platforms(w.tags@))
    &&& files_within(
        w.file_metas@,
        w.inner.file_metas_req() + author_thumbs(w.authors@) + collection_thumbs(w.collections@),
    )
}

/// How many statements enriching this payload costs: one per relation kind
/// whose (derived) id set is non-empty, none for an empty set.
pub open spec fn enrich_cost<T: RequireRelations>(w: WithRelation<T>) -> nat {
    one_if(w.inner.authors_req().len() > 0) + one_if(w.inner.collections_req().len() > 0)
        + one_if(w.inner.tags_req().len() > 0) + one_if(
        (w.inner.platforms_req() + tag_platforms(w.tags@)).len() > 0,
    ) + one_if(
        (w.inner.file_metas_req() + author_thumbs(w.authors@) + collection_thumbs(
            w.collections@,
        )).len() > 0,
    )
}

impl<T: RequireRelations> WithRelation<T> {
    /// Enriches a payload: resolves authors, collections and tags from the
    /// payload's declared ids, then platforms (the payload's own plus those
    /// of the just-resolved tags), then files (the payload's own plus the
    /// thumbnails of the just-resolved authors and collections). Each kind
    /// is one batched, deduplicated query, skipped entirely when its id set
    /// is empty — so a payload that declares nothing issues no statement
    /// and cannot fail. Whatever comes back, at most five statements run.
    pub fn new(db: &mut Db, inner: T) -> (r: Result<WithRelation<T>, DbError>)
        ensures
            r matches Ok(w) ==> w.inner == inner,
            r matches Ok(w) ==> enriched(w),
            r matches Ok(w) ==> final(db).spec_queries() == bumped_n(
                old(db).spec_queries(),
                enrich_cost(w),
            ),
            (inner.authors_req().len() == 0 && inner.collections_req().len() == 0
                && inner.tags_req().len() == 0 && inner.platforms_req().len() == 0
                && inner.file_metas_req().len() == 0) ==> (match r {
                Ok(_) => true,
                Err(_) => false,
            }),
            old(db).spec_queries() <= final(db).spec_queries(),
            final(db).spec_queries() <= bumped_n(old(db).spec_queries(), 5),
    {
        let ghost q0 = db.spec_queries();
        let ghost none_needed = inner.authors_req().len() == 0 && inner.collections_req().len()
            == 0 && inner.tags_req().len() == 0 && inner.platforms_req().len() == 0
            && inner.file_metas_req().len() == 0;
        let ghost e1 = one_if(inner.authors_req().len() > 0);
        let author_ids = inner.authors();
        let authors = match resolve_authors(db, &author_ids) {
            Ok(v) => v,
            Err(e) => {
                proof {
                    if none_needed {
                        assert(false);
                    }
                    assert(bumped_n(q0, 0) == q0);
                    assert(bumped_n(q0, 1) == bumped(bumped_n(q0, 0)));
                    lemma_within_budget(q0, db.spec_queries(), e1, 5);
                }
                return Err(e);
            },
        };
        proof {
            assert(bumped_n(q0, 0) == q0);
            assert(bumped_n(q0, 1) == bumped(bumped_n(q0, 0)));
            assert(db.spec_queries() == bumped_n(q0, e1));
        }
        let ghost e2 = one_if(inner.collections_req().len() > 0);
        let ghost b1 = bumped_n(q0, e1);
        let collection_ids = inner.collections();
        let collections = match resolve_collections(db, &collection_ids) {
            Ok(v) => v,
            Err(e) => {
                proof {
                    if none_needed {
                        assert(false);
                    }
                    assert(bumped_n(b1, 0) == b1);
                    assert(bumped_n(b1, 1) == bumped(bumped_n(b1, 0)));
                    lemma_bumped_n_add(q0, e1, e2);
                    lemma_within_budget(q0, db.spec_queries(), e1 + e2, 5);
                }
                return Err(e);
            },
        };
        proof {
            assert(bumped_n(b1, 0) == b1);
            assert(bumped_n(b1, 1) == bumped(bumped_n(b1, 0)));
            lemma_bumped_n_add(q0, e1, e2);
            assert(db.spec_queries() == bumped_n(q0, e1 + e2));
        }
        let ghost e3 = one_if(inner.tags_req().len() > 0);
        let ghost b2 = bumped_n(q0, e1 + e2);
        let tag_ids = inner.tags();
        let tags = match resolve_tags(db, &tag_ids) {
            Ok(v) => v,
            Err(e) => {
                proof {
                    if none_needed {
                        assert(false);
                    }
                    assert(bumped_n(b2, 0) == b2);
                    assert(bumped_n(b2, 1) == bumped(bumped_n(b2, 0)));
                    lemma_bumped_n_add(q0, e1 + e2, e3);
                    lemma_within_budget(q0, db.spec_queries(), e1 + e2 + e3, 5);
                }
                return Err(e);
            },
        };
        proof {
            assert(bumped_n(b2, 0) == b2);
            assert(bumped_n(b2, 1) == bumped(bumped_n(b2, 0)));
            lemma_bumped_n_add(q0, e1 + e2, e3);
            assert(db.spec_queries() == bumped_n(q0, e1 + e2 + e3));
        }
        let ghost e4 = one_if((inner.platforms_req() + tag_platforms(tags@)).len() > 0);
        let ghost b3 = bumped_n(q0, e1 + e2 + e3);
        let mut platform_ids = inner.platforms();
        collect_tag_platforms(&mut platform_ids, &tags);
        let platforms = match resolve_platforms(db, &platform_ids) {
            Ok(v) => v,
            Err(e) => {
                proof {
                    if none_needed {
                        assert(tags@.len() == 0) by {
                            if tags@.len() > 0 {
                                assert(inner.tags_req().contains(tags@[0].id));
                            }
                        };
                        assert(platform_ids@.len() == 0);
                        assert(false);
                    }
                    assert(bumped_n(b3, 0) == b3);
                    assert(bumped_n(b3, 1) == bumped(bumped_n(b3, 0)));
                    lemma_bumped_n_add(q0, e1 + e2 + e3, e4);
                    lemma_within_budget(q0, db.spec_queries(), e1 + e2 + e3 + e4, 5);
                }
                return Err(e);
            },
        };
        proof {
            assert(bumped_n(b3, 0) == b3);
            assert(bumped_n(b3, 1) == bumped(bumped_n(b3, 0)));
            lemma_bumped_n_add(q0, e1 + e2 + e3, e4);
            assert(db.spec_queries() == bumped_n(q0, e1 + e2 + e3 + e4));
        }
        let ghost e5 = one_if(
            (inner.file_metas_req() + author_thumbs(authors@) + collection_thumbs(
                collections@,
            )).len() > 0,
        );
        let ghost b4 = bumped_n(q0, e1 + e2 + e3 + e4);
        let mut file_ids = inner.file_metas();
        collect_author_thumbs(&mut file_ids, &authors);
        collect_collection_thumbs(&mut file_ids, &collections);
        proof {
            assert(file_ids@ =~= inner.file_metas_req() + author_thumbs(authors@)
                + collection_thumbs(collections@));
        }
        let file_metas = match resolve_files(db, &file_ids) {
            Ok(v) => v,
            Err(e) => {
                proof {
                    if none_needed {
                        assert(authors@.len() == 0) by {
                            if authors@.len() > 0 {
                                assert(inner.authors_req().contains(authors@[0].id));
                            }
                        };
                        assert(collections@.len() == 0) by {
                            if collections@.len() > 0 {
                                assert(inner.collections_req().contains(collections@[0].id));
                            }
                        };
                        assert(file_ids@.len() == 0);
                        assert(false);
                    }
                    assert(bumped_n(b4, 0) == b4);
                    assert(bumped_n(b4, 1) == bumped(bumped_n(b4, 0)));
                    lemma_bumped_n_add(q0, e1 + e2 + e3 + e4, e5);
                    lemma_within_budget(q0, db.spec_queries(), e1 + e2 + e3 + e4 + e5, 5);
                }
                return Err(e);
            },
        };
        proof {
            assert(bumped_n(b4, 0) == b4);
            assert(bumped_n(b4, 1) == bumped(bumped_n(b4, 0)));
            lemma_bumped_n_add(q0, e1 + e2 + e3 + e4, e5);
            assert(db.spec_queries() == bumped_n(q0, e1 + e2 + e3 + e4 + e5));
            lemma_within_budget(q0, db.spec_queries(), e1 + e2 + e3 + e4 + e5, 5);
        }
        let w = WithRelation { inner, authors, collections, platforms, tags, file_metas };
        proof {
            assert(enriched(w));
            assert(enrich_cost(w) == e1 + e2 + e3 + e4 + e5);
        }
        Ok(w)
    }
}

/// The enrichment closure for a full post: every resolved file belongs to
/// the files its content references, its own thumbnail, or the thumbnails
/// of its embedded authors and collections — and no file appears twice,
/// however often it was referenced.
pub proof fn lemma_post_file_closure(w: WithRelation<PostResponse>)
    requires
        enriched(w),
    ensures
        forall|i: int|
            0 <= i < w.file_metas@.len() ==> (content_files(w.inner.content@) + opt_seq(
                w.inner.thumb,
            ) + author_thumbs(w.inner.authors@) + collection_thumbs(
                w.inner.collections@,
            )).contains(#[trigger] w.file_metas@[i].id),
        forall|i: int, j: int|
            0 <= i < j < w.file_metas@.len() ==> w.file_metas@[i].id != w.file_metas@[j].id,
{
    assert(w.authors@.len() == 0) by {
        if w.authors@.len() > 0 {
            assert(w.inner.authors_req().contains(w.authors@[0].id));
        }
    };
    assert(w.collections@.len() == 0) by {
        if w.collections@.len() > 0 {
            assert(w.inner.collections_req().contains(w.collections@[0].id));
        }
    };
    let want = w.inner.file_metas_req() + author_thumbs(w.authors@) + collection_thumbs(
        w.collections@,
    );
    assert(want =~= w.inner.file_metas_req());
    assert forall|i: int|
        0 <= i < w.file_metas@.len() implies (content_files(w.inner.content@) + opt_seq(
        w.inner.thumb,
    ) + author_thumbs(w.inner.authors@) + collection_thumbs(w.inner.collections@)).contains(
        #[trigger] w.file_metas@[i].id,
    ) by {
        assert(want.contains(w.file_metas@[i].id));
    };
}

} // verus!
