//! A small directory-listing library: an `ls`-like pipeline that classifies
//! the entries of one directory level, filters them by configurable switches,
//! and renders each as an icon-and-color display string.

pub mod cli;
pub mod formatter;
pub mod lister;
pub mod text;
