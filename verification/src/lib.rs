//! Sampling the metrics of a Linux host.
//!
//! The library reads the cumulative CPU counters from the text of the kernel's
//! statistics, estimates the CPU usage from two such readings, and puts the estimate
//! together with what the host reports of its system, disks, processors and memory
//! into one snapshot inside a response.
//!
//! Nothing here touches the host. Whoever uses the library reads the files, asks the
//! system and runs the commands, and hands over what came back.

pub mod monitor;
pub mod prepare;
pub mod sampler;
pub mod stat;
pub mod text;
