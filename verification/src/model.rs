//! The two execution models and what a server is configured with.
//!
//! The model is chosen once, when the process starts. It decides how
//! connections are scheduled and how their buffers are owned; it does not
//! change what a peer receives.

use vstd::prelude::*;
use crate::completion::COMPLETION_BUFFER_CAPACITY;
use crate::readiness::READINESS_BUFFER_CAPACITY;

verus! {

/// The address the shared-pool server binds unless told otherwise.
pub const SHARED_POOL_ADDRESS: &'static str = "192.168.15.33:7777";

/// The address the per-core server binds unless told otherwise.
pub const PER_CORE_ADDRESS: &'static str = "192.168.15.33:6666";

/// The number of loops the per-core server starts unless told otherwise.
pub const PER_CORE_WORKERS: usize = 4;

/// How connections are scheduled and how they do their I/O.
#[derive(Clone, Copy, Debug, PartialEq, Eq, Structural)]
pub enum ExecutionModel {
    /// A fixed pool of worker threads takes ready connections from a common
    /// queue. I/O is readiness-based, and a read borrows the buffer.
    SharedPool,
    /// One single-threaded loop per core, with no migration between them.
    /// I/O is completion-based, and a read owns the buffer until it is done.
    PerCore,
}

impl ExecutionModel {
    /// The size of the read buffer that each connection gets.
    pub open spec fn spec_buffer_capacity(self) -> usize {
        match self {
            ExecutionModel::SharedPool => READINESS_BUFFER_CAPACITY,
            ExecutionModel::PerCore => COMPLETION_BUFFER_CAPACITY,
        }
    }

    /// The address bound when none is configured.
    pub open spec fn spec_default_address(self) -> Seq<char> {
        match self {
            ExecutionModel::SharedPool => SHARED_POOL_ADDRESS@,
            ExecutionModel::PerCore => PER_CORE_ADDRESS@,
        }
    }

    /// The worker count used when none is configured; `None` leaves the
    /// choice to the runtime.
    pub open spec fn spec_default_workers(self) -> Option<usize> {
        match self {
            ExecutionModel::SharedPool => None,
            ExecutionModel::PerCore => Some(PER_CORE_WORKERS),
        }
    }

    /// The size of the read buffer that each connection gets.
    #[verifier::when_used_as_spec(spec_buffer_capacity)]
    pub fn buffer_capacity(self) -> (capacity: usize)
        ensures
            capacity == self.spec_buffer_capacity(),
    {
        match self {
            ExecutionModel::SharedPool => READINESS_BUFFER_CAPACITY,
            ExecutionModel::PerCore => COMPLETION_BUFFER_CAPACITY,
        }
    }

    /// The address bound when none is configured.
    pub fn default_address(self) -> (address: &'static str)
        ensures
            address@ == self.spec_default_address(),
    {
        match self {
            ExecutionModel::SharedPool => SHARED_POOL_ADDRESS,
            ExecutionModel::PerCore => PER_CORE_ADDRESS,
        }
    }

    /// The worker count used when none is configured.
    #[verifier::when_used_as_spec(spec_default_workers)]
    pub fn default_workers(self) -> (workers: Option<usize>)
        ensures
            workers == self.spec_default_workers(),
    {
        match self {
            ExecutionModel::SharedPool => None,
            ExecutionModel::PerCore => Some(PER_CORE_WORKERS),
        }
    }
}

/// Everything a server is started with.
pub struct ServerConfig {
    /// The execution model, fixed for the life of the process.
    pub model: ExecutionModel,
    /// The `host:port` to bind.
    pub address: String,
    /// The number of pool threads or per-core loops; `None` leaves the
    /// choice to the runtime.
    pub workers: Option<usize>,
}

impl ServerConfig {
    /// The configuration of `model` with its default address and worker
    /// count.
    pub fn new(model: ExecutionModel) -> (config: Self)
        ensures
            config.model == model,
            config.address@ == model.spec_default_address(),
            config.workers == model.spec_default_workers(),
    {
        ServerConfig {
            model,
            address: model.default_address().to_owned(),
            workers: model.default_workers(),
        }
    }

    /// The same configuration, bound to `address` instead.
    pub fn with_address(self, address: String) -> (config: Self)
        ensures
            config.model == self.model,
            config.address == address,
            config.workers == self.workers,
    {
        ServerConfig { model: self.model, address, workers: self.workers }
    }

    /// The same configuration, with `workers` pool threads or per-core loops.
    pub fn with_workers(self, workers: usize) -> (config: Self)
        ensures
            config.model == self.model,
            config.address == self.address,
            config.workers == Some(workers),
    {
        ServerConfig { model: self.model, address: self.address, workers: Some(workers) }
    }
}

} // verus!
