//! Connection lifecycle of a Wi-Fi station node: the supervisor that starts, scans, connects
//! and retries, a readiness barrier that holds dependent tasks until the network stack has a link and an
//! address, and the small computations around them.

pub mod gate;
pub mod scan;
pub mod stack;
pub mod supervisor;
