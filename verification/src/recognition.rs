//! Recognising a title and its progress in the titles of open windows.

pub mod captures;
pub mod numbers;
pub mod parse;
pub mod patterns;
