//! Verified core of a TCP port scanner: the port-to-service table, the
//! classification of a single probe, the retry-with-backoff policy, the
//! concurrency-bounded dispatch of one scan run and the operator session.

pub mod dispatch;
pub mod retry;
pub mod scanner;
pub mod services;
pub mod ui;
