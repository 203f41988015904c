//! Verified core logic of the Curvine distributed file system: cluster and
//! worker configuration, the Curvine-to-UFS fallback reader, the FUSE request
//! decisions, error classification and the LanceDB URI routing.

pub mod text;
pub mod errors;
pub mod state;
pub mod fallback;
pub mod units;
pub mod conf;
pub mod worker_conf;
pub mod fuse;
pub mod sender;
pub mod lance;
