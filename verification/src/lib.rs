//! Privacy-preserving scheduling for repeated deposit/withdrawal cycles:
//! the seeded cooldown between paired operations, the wait decision built
//! on it, bounded retries of network calls, and the mode-driven control loop.

pub mod address;
pub mod circulation;
pub mod cooldown;
pub mod mining;
pub mod mode;
pub mod retry;
pub mod scheduler;
