use vstd::prelude::*;

pub mod text;
pub mod session;
pub mod models;
pub mod pkce;
pub mod paging;
pub mod shuffle;
pub mod auth;
pub mod generator;
pub mod llm;
pub mod graph;
pub mod pages;
pub mod library;
pub mod report;

verus! {
} // verus!
