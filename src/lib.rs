pub use async_executor::Executor;

pub mod executor;
pub mod signal;
pub mod worker;

pub use executor::ServerExecutor;
pub use signal::{ShutdownSignal, Subscription};
pub use worker::Worker;
