//! A foo: a small value object made of an optional identifier and its
//! settings, together with the style those settings select.

pub mod foo;
