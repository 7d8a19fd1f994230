//! Verified snowflake identifier generation: a 64-bit identifier packs a
//! millisecond timestamp, a datacenter tag, a worker tag and a per-millisecond
//! sequence counter.

pub mod digits;
pub mod snowflake;
pub mod snowflake_core;
pub mod time_provider;
pub mod worker_manager;

pub use snowflake::Snowflake;
pub use snowflake::SnowflakeInfo;
pub use snowflake_core::EPOCH;
pub use snowflake_core::MAX_DATACENTER_ID;
pub use snowflake_core::MAX_WORKER_ID;
pub use snowflake_core::SEQUENCE_MASK;
pub use snowflake_core::build_snowflake_id;
pub use snowflake_core::extract_datacenter_id;
pub use snowflake_core::extract_sequence;
pub use snowflake_core::extract_timestamp;
pub use snowflake_core::extract_worker_id;
pub use snowflake_core::validate_ids;
pub use time_provider::CachedTimeProvider;
pub use time_provider::RelativeTimeProvider;
pub use time_provider::SystemTimeProvider;
pub use time_provider::TimeProvider;
pub use worker_manager::WorkerError;
pub use worker_manager::WorkerInfo;
pub use worker_manager::WorkerManager;
