//! A bounded worker-pool executor and the small utility modules that grew up
//! around it: a fixed set of long-lived workers drains a shared job queue,
//! executes each job exactly once, and shuts down gracefully by joining every
//! worker after the sending side of the job channel is closed.

pub mod adder;
pub mod advanced_traits;
pub mod blog_state;
pub mod calc;
pub mod coins;
pub mod concepts;
pub mod creatures;
pub mod funcs;
pub mod generics;
pub mod guessing;
pub mod lifetimes;
pub mod ownership;
pub mod pool;
pub mod requests;
pub mod rectangles;
pub mod shirts;
pub mod shoes;
pub mod summaries;
pub mod text;
pub mod users;
