//! Verified core of a `touch`-style utility: it decides which access and
//! modification timestamps an invocation resolves to, and what is done to
//! each target file, while the thin shell around it performs the actual
//! filesystem calls.

pub mod datetime;
pub mod manager;
pub mod options;
pub mod resolver;
pub mod timestamp;
pub mod updater;

pub use manager::CreateError;
pub use manager::FileManager;
pub use options::Cli;
pub use resolver::DateError;
pub use resolver::Executor;
pub use resolver::TimeSource;
pub use timestamp::pair_from_epoch;
pub use timestamp::Timestamp;
pub use timestamp::TimestampPair;
pub use updater::updated_times;
pub use updater::FileOp;
pub use updater::TimesToSet;
