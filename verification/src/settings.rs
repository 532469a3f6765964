//! Process configuration as the pipeline sees it: plain values, loaded and
//! merged by the surrounding program.

use vstd::prelude::*;

verus! {

/// Where the downstream content service listens.
#[derive(Debug, Clone)]
pub struct Journal {
    pub host: String,
    pub port: u16,
}

/// What this service watches.
#[derive(Debug, Clone)]
pub struct Service {
    pub path: String,
}

#[derive(Debug, Clone)]
pub struct Settings {
    pub debug: bool,
    pub testing: bool,
    pub mode: String,
    pub service: Service,
    pub journal: Journal,
}

} // verus!
