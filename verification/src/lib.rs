//! Conversion between Ethereum block heights and calendar time.
//!
//! The crate holds the decisions of a block/time estimator: how a partial
//! date string becomes an instant, what timestamp a block height has or is
//! predicted to have, and how a binary search over heights finds the first
//! block at or after an instant. Talking to a node is left to the caller:
//! the oracle and the search are state machines that say what to ask next
//! and take the answer back.

pub mod calendar;
pub mod chain;
pub mod config;
pub mod conversion;
pub mod error;
pub mod genesis;
pub mod instant;
pub mod oracle;
pub mod payload;
pub mod search;
pub mod text;
pub mod timestring;
pub mod zone;

pub use config::Config;
pub use conversion::{block_to_time, time_to_block};
pub use error::Error;
pub use instant::{render_block_time, time_to_unix};
pub use oracle::get_block_unix_time;
pub use search::block_search;
pub use text::split_time;
pub use timestring::can_be_genesis;
pub use zone::parse_timezone;
