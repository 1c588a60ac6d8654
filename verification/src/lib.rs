//! Summaries of a contributor's commits and issue threads, produced by
//! passing size-bounded text through two-turn conversations with a
//! language model.
//!
//! The crate performs no input or output. Text budgeting is a set of pure
//! functions; every stage that needs the network is a state machine that
//! names the next action and consumes its result.
//!
//! - `chars`, `lines`, `words`, `search`: texts as sequences of characters.
//! - `quotes`, `ratio`, `budget`: removal of quoted blocks and word budgets.
//! - `decimal`, `json`, `urls`: the notations that requests are written in.
//! - `failure`, `records`, `steps`: what passes between a stage and its
//!   driver.
//! - `chat`: the two-turn conversation.
//! - `commits`, `issues`, `correlate`: the stages of a run.
//! - `trigger`, `pipeline`: a run from its command to its report.

pub mod budget;
pub mod chars;
pub mod chat;
pub mod commits;
pub mod correlate;
pub mod decimal;
pub mod failure;
pub mod issues;
pub mod json;
pub mod lines;
pub mod pipeline;
pub mod quotes;
pub mod ratio;
pub mod records;
pub mod search;
pub mod steps;
pub mod trigger;
pub mod urls;
pub mod words;
