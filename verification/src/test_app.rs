//! Settings of the program that records one queue in the inbox with several workers.

use vstd::prelude::*;

verus! {

/// Where the program finds its database and broker, and how many workers it runs.
pub struct Config {
    pub database_url: String,
    pub amqp_url: String,
    pub queue: String,
    pub worker_count: usize,
}

} // verus!
