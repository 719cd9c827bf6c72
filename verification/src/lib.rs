//! Verified core rules of the QuickLendX invoice-financing protocol:
//! the per-business invoice cap, maintenance mode with its write guard,
//! upgrade scheduling, admin rotation, treasury rotation and the
//! storage-refresh report.

pub mod errors;
pub mod protocol_limits;
pub mod events;
pub mod maintenance;
pub mod treasury;
