//! A read-oriented query layer over a post archive database.
//!
//! The crate composes dynamic SQL for listing and searching archived posts,
//! caches row counts, and resolves every foreign id a response references
//! (authors, tags, platforms, collections, file attachments) in one batched
//! query per kind. Database calls go through a small trusted boundary around
//! `rusqlite` and `post_archiver`; everything around them is verified.

pub mod archive;
pub mod cache;
pub mod category;
pub mod config;
pub mod db;
pub mod entity;
pub mod ids;
pub mod outside;
pub mod pagination;
pub mod post;
pub mod posts;
pub mod redirect;
pub mod relation;
pub mod search;
pub mod state;
pub mod strfmt;
pub mod summary;
