pub mod types;
pub mod watcher;
pub mod decoder;
pub mod provider;
pub mod waiter;
pub mod finder;
