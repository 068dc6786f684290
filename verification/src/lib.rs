//! Synchronization core for a node that follows an external source chain
//! (its "burnchain"): sync-range computation, reorg handling, the
//! download/parse/commit pipeline driver, the thread-join adapter, and the
//! error-precedence rule that picks the single error a round reports.

pub mod burnchain;
pub mod coordinator;
pub mod epochs;
pub mod errors;
pub mod indexer;
pub mod sync_range;
pub mod test_doubles;
pub mod thread_join;
pub mod types;
