//! An interactive shell for browsing a column-family-partitioned, ordered
//! key-value store: the command grammar, the read-eval loop's decisions and the
//! store browser's selection, search and highlighting rules, each with a
//! machine-checked contract.

pub mod cli_helper;
pub mod cli_processor;
pub mod command;
pub mod db;
pub mod display;
pub mod grammar;
pub mod highlight;
pub mod history;
pub mod listing;
pub mod number;
pub mod repl;
pub mod text;
pub mod tokenizer;
