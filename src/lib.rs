//! Broker between print-shop terminals and the people who send them jobs:
//! the registry of shops and pending jobs, the negotiation run with each
//! terminal, and the relay of its results back to the job's sender.

pub mod model;
pub mod outside;
pub mod registry;
pub mod relay;
pub mod session;

pub use model::{BrokerError, CreateShopArgs, NewPrintArgs, PageType, PrintResponse, PrintType};
pub use registry::{AppState, Shop, Submission};
