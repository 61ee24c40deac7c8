//! A few ways of serving `x! / y` requests: sequentially, on a pool of
//! threads, with data-parallel iterators and on an event loop, all driven by
//! one harness of simulated clients.

pub mod harness;
pub mod par_iter;
pub mod rng;
pub mod sequential;
pub mod threadpool;
pub mod tokio_worker;
pub mod worker;
