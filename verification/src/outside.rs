//! Declarations of the outside types the trusted boundary handles, so they
//! can stand in signatures and fields. Each is opaque: the crate carries
//! such values through without looking inside them.

use vstd::prelude::*;

verus! {

#[verifier::external_type_specification]
#[verifier::external_body]
pub struct ExConnection(rusqlite::Connection);

#[verifier::external_type_specification]
#[verifier::external_body]
pub struct ExRow<'a>(rusqlite::Row<'a>);

#[verifier::external_type_specification]
#[verifier::external_body]
pub struct ExRusqliteError(rusqlite::Error);

#[verifier::external_type_specification]
#[verifier::external_body]
#[verifier::reject_recursive_types(C)]
pub struct ExPostArchiverManager<C>(post_archiver::manager::PostArchiverManager<C>);

#[verifier::external_type_specification]
#[verifier::external_body]
pub struct ExPaComment(post_archiver::Comment);

} // verus!
