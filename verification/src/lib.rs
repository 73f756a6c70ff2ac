//! A news-reader core: a refresh coordination state machine between a
//! user-interface thread and a single background fetch worker, the
//! interface-thread presentation state it feeds, and the article-fetch
//! client whose outcomes flow through it.

pub mod coordinator;
pub mod headlines;
pub mod newsapi;
