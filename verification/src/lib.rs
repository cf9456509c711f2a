//! Planning for a small file tool that copies, renames or links the entries
//! of one directory.
//!
//! A command names an [`operation::Operation`] and gives two path patterns.
//! [`plan::prepare`] checks the patterns and says which directory to list and
//! which destination every entry gets; [`plan::schedule`] turns a listing of
//! that directory into the transfers to perform, in order. The library never
//! touches the file system itself: listing the directory and performing the
//! transfers is left to the caller.
//!
//! Two choices are fixed here. The operation that the command selected is the
//! one that every transfer carries. The destination is the literal file name of
//! the destination pattern, the same for every entry: the source file name must
//! compile as a regular expression, but nothing is substituted from it.

pub mod error;
pub mod operation;
pub mod path;
pub mod pattern;
pub mod plan;
