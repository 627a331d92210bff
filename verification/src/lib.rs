//! A single-page greeting application, split into the decisions it makes:
//! the greeting endpoint, the state machine behind the root component,
//! the markup that component produces, and the server's route table.

pub mod component;
pub mod decimal;
pub mod greeting;
pub mod markup;
pub mod remote;
pub mod routes;
pub mod startup;

pub use component::{Action, AppState, Event, Phase};
pub use greeting::hello_world_server;
pub use markup::{App, Node};
pub use remote::RemoteError;
