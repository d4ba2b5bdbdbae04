//! Context-limit policy and raw request evidence, verified.
//!
//! A context policy decides before each request to a model whether the context is
//! kept or compacted. The library holds what can be configured (`config`), what is
//! observed, decided and recorded (`seam`, `record`, `decision`), and the protocol
//! with a policy that runs in a process of its own (`bridge`). Beside it stands
//! the ledger of raw request evidence (`ledger`, `event`, `rows`, `usage`), which can be
//! read again and continued (`scan`, `resume`, `history`, `writers`, `keys`).
//!
//! The library does no input or output: it takes what was read and gives what is
//! to be written.

pub mod bridge;
pub mod config;
pub mod decision;
pub mod error;
pub mod event;
pub mod history;
pub mod json;
pub mod keys;
pub mod ledger;
pub mod record;
pub mod resume;
pub mod rows;
pub mod scan;
pub mod seam;
pub mod text;
pub mod usage;
pub mod writers;
