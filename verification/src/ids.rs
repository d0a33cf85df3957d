//! Strongly typed entity identifiers.
//!
//! Every entity kind has its own integer namespace: an author id and a tag id
//! that hold the same number name unrelated rows and are never substitutable.

use vstd::prelude::*;

verus! {

/// Identifier of an author row.
#[derive(Debug, Clone, Copy, PartialEq, Eq, Structural)]
pub struct AuthorId(pub u32);

/// Identifier of a tag row.
#[derive(Debug, Clone, Copy, PartialEq, Eq, Structural)]
pub struct TagId(pub u32);

/// Identifier of a platform row.
#[derive(Debug, Clone, Copy, PartialEq, Eq, Structural)]
pub struct PlatformId(pub u32);

/// Identifier of a collection row.
#[derive(Debug, Clone, Copy, PartialEq, Eq, Structural)]
pub struct CollectionId(pub u32);

/// Identifier of a post row.
#[derive(Debug, Clone, Copy, PartialEq, Eq, Structural)]
pub struct PostId(pub u32);

/// Identifier of a file-metadata row.
#[derive(Debug, Clone, Copy, PartialEq, Eq, Structural)]
pub struct FileMetaId(pub u32);

} // verus!
