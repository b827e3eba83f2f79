//! Dependency status pages: turns the analysis of a repository's
//! dependencies into a browsable HTML document and the snippets that
//! embed its status badge elsewhere.
//!
//! - [`models`] and [`engine`] hold what a page is made from: the repository,
//!   its crates, their dependencies and the outcome of analyzing them.
//! - [`report`] groups and counts the dependencies of each crate.
//! - [`links`] makes the addresses and the badge snippets of a repository.
//! - [`html`] renders the page, with [`text`] for numbers and escaping.
//!
//! Every function states what it returns over plain sequences of characters,
//! and Verus proves that it does.

#![allow(deprecated)]

pub mod engine;
pub mod html;
pub mod links;
pub mod models;
pub mod report;
pub mod text;
