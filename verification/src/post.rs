//! Fetching one post in full: the row itself, its decoded content and
//! comment columns, its tags, authors and collections resolved from the
//! association tables, and the enrichment over all of it.

use vstd::prelude::*;

use crate::db::{bumped, parse_comments, parse_contents, DbError, PostRow};
use crate::entity::{Author, Collection, Content, PostComment, PostResponse, Tag};
use crate::ids::{FileMetaId, PlatformId, PostId};
use crate::relation::{
    bumped_n, enriched, lemma_bumped_n_add, lemma_bumped_n_ge, lemma_bumped_n_mono,
    lemma_within_budget, resolve_authors, resolve_collections, resolve_tags, WithRelation,
};
use crate::state::AppState;

verus! {

/// Assembles the full post shape: the plain columns come from the raw row,
/// the decoded columns and the resolved relations from the arguments, each
/// field tied exactly.
pub fn post_response_of(
    id: PostId,
    row: PostRow,
    content: Vec<Content>,
    comments: Vec<PostComment>,
    tags: Vec<Tag>,
    authors: Vec<Author>,
    collections: Vec<Collection>,
) -> (r: PostResponse)
    ensures
        r.id == id,
        r.title == row.title,
        r.content == content,
        r.source == row.source,
        r.updated == row.updated,
        r.published == row.published,
        r.thumb == (match row.thumb {
            Some(t) => Some(FileMetaId(t)),
            None => None::<FileMetaId>,
        }),
        r.platform == (match row.platform {
            Some(p) => Some(PlatformId(p)),
            None => None::<PlatformId>,
        }),
        r.tags == tags,
        r.authors == authors,
        r.collections == collections,
        r.comments == comments,
{
    PostResponse {
        id,
        title: row.title,
        content,
        source: row.source,
        updated: row.updated,
        published: row.published,
        thumb: match row.thumb {
            Some(t) => Some(FileMetaId(t)),
            None => None,
        },
        platform: match row.platform {
            Some(p) => Some(PlatformId(p)),
            None => None,
        },
        tags,
        authors,
        collections,
        comments,
    }
}

/// Looks one post up by id. `None` is a valid "not found" answer. A content
/// or comment column that does not parse is archive corruption and fails
/// with a decode error; it is never silently defaulted. Associated tags,
/// authors and collections come back as full rows, and the enrichment adds
/// the platforms and files they and the post refer to. The caches are
/// untouched; at most twelve statements run — the row, three association id
/// lists, their three resolutions, and up to five for the enrichment.
#[verifier::rlimit(60)]
pub fn get_post(st: &mut AppState, id: PostId) -> (r: Result<
    Option<WithRelation<PostResponse>>,
    DbError,
>)
    ensures
        r matches Ok(Some(w)) ==> w.inner.id == id && enriched(w),
        final(st).caches == old(st).caches,
        final(st).full_text_search == old(st).full_text_search,
        old(st).db.spec_queries() <= final(st).db.spec_queries(),
        final(st).db.spec_queries() <= bumped_n(old(st).db.spec_queries(), 12),
{
    let ghost q0 = st.db.spec_queries();
    let ghost mut c: nat = 0;
    proof {
        assert(bumped_n(q0, 0) == q0);
        assert(bumped_n(q0, 1) == bumped(bumped_n(q0, 0)));
        c = 1;
    }
    let row = match st.db.run_post_row(id) {
        Ok(Some(row)) => row,
        Ok(None) => {
            proof {
                lemma_within_budget(q0, st.db.spec_queries(), c, 12);
            }
            return Ok(None);
        },
        Err(e) => {
            proof {
                lemma_within_budget(q0, st.db.spec_queries(), c, 12);
            }
            return Err(e);
        },
    };
    let content = match parse_contents(row.content_json.as_str()) {
        Ok(v) => v,
        Err(e) => {
            proof {
                lemma_within_budget(q0, st.db.spec_queries(), c, 12);
            }
            return Err(e);
        },
    };
    let comments = match parse_comments(row.comments_json.as_str()) {
        Ok(v) => v,
        Err(e) => {
            proof {
                lemma_within_budget(q0, st.db.spec_queries(), c, 12);
            }
            return Err(e);
        },
    };
    proof {
        assert(bumped_n(q0, (c + 1) as nat) == bumped(bumped_n(q0, c)));
        c = c + 1;
    }
    let tag_ids = match st.db.run_post_tag_ids(id) {
        Ok(v) => v,
        Err(e) => {
            proof {
                lemma_within_budget(q0, st.db.spec_queries(), c, 12);
            }
            return Err(e);
        },
    };
    proof {
        if tag_ids@.len() > 0 {
            assert(bumped_n(q0, (c + 1) as nat) == bumped(bumped_n(q0, c)));
            c = c + 1;
        }
    }
    let tags = match resolve_tags(&mut st.db, &tag_ids) {
        Ok(v) => v,
        Err(e) => {
            proof {
                lemma_within_budget(q0, st.db.spec_queries(), c, 12);
            }
            return Err(e);
        },
    };
    proof {
        assert(bumped_n(q0, (c + 1) as nat) == bumped(bumped_n(q0, c)));
        c = c + 1;
    }
    let author_ids = match st.db.run_post_author_ids(id) {
        Ok(v) => v,
        Err(e) => {
            proof {
                lemma_within_budget(q0, st.db.spec_queries(), c, 12);
            }
            return Err(e);
        },
    };
    proof {
        if author_ids@.len() > 0 {
            assert(bumped_n(q0, (c + 1) as nat) == bumped(bumped_n(q0, c)));
            c = c + 1;
        }
    }
    let authors = match resolve_authors(&mut st.db, &author_ids) {
        Ok(v) => v,
        Err(e) => {
            proof {
                lemma_within_budget(q0, st.db.spec_queries(), c, 12);
            }
            return Err(e);
        },
    };
    proof {
        assert(bumped_n(q0, (c + 1) as nat) == bumped(bumped_n(q0, c)));
        c = c + 1;
    }
    let collection_ids = match st.db.run_post_collection_ids(id) {
        Ok(v) => v,
        Err(e) => {
            proof {
                lemma_within_budget(q0, st.db.spec_queries(), c, 12);
            }
            return Err(e);
        },
    };
    proof {
        if collection_ids@.len() > 0 {
            assert(bumped_n(q0, (c + 1) as nat) == bumped(bumped_n(q0, c)));
            c = c + 1;
        }
    }
    let collections = match resolve_collections(&mut st.db, &collection_ids) {
        Ok(v) => v,
        Err(e) => {
            proof {
                lemma_within_budget(q0, st.db.spec_queries(), c, 12);
            }
            return Err(e);
        },
    };
    let response = post_response_of(id, row, content, comments, tags, authors, collections);
    let r = WithRelation::new(&mut st.db, response);
    proof {
        lemma_bumped_n_add(q0, c, 5);
        lemma_bumped_n_mono(q0, c + 5, 12);
        lemma_bumped_n_ge(q0, c);
    }
    match r {
        Ok(w) => Ok(Some(w)),
        Err(e) => Err(e),
    }
}

} // verus!
