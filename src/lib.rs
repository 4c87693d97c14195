//! A small command-line search front end (`minigrep`) together with a handful
//! of verified helpers: argument handling, the decisions of the process entry,
//! and a few numeric, string and collection routines.

pub mod config;
pub mod entry;
pub mod adder;
pub mod numbers;
pub mod boxed;
pub mod generics;
pub mod stats;
pub mod guessing;
pub mod pig_latin;
