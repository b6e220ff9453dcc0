//! Core of a web-page summarization pipeline for a note-taking tool.
//!
//! Given a page's raw markup this crate extracts a display title, strips the
//! markup down to bounded plain text, composes a prompt from a template, and
//! maps generative-provider responses into a summary or a typed failure.
//! Network transport stays outside; every function here is pure computation.

pub mod entities;
pub mod json;
pub mod models;
pub mod prompt;
pub mod provider;
pub mod sanitize;
pub mod summary;
pub mod text;
pub mod title;
