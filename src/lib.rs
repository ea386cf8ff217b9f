//! Structured content extraction from HTML pages: page classification,
//! generic fields, product and article facts.
use vstd::prelude::*;

pub mod article;
pub mod cascade;
pub mod classify;
pub mod document;
pub mod extract;
pub mod model;
pub mod number;
pub mod page;
pub mod product;
pub mod settings;
pub mod text;

verus! {

} // verus!
