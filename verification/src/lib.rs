//! Core logic for building a container image from a generated build context
//! and running a command inside a fresh container, while relaying build and
//! runtime diagnostic text through a bounded queue to a consumer.
//!
//! The engine itself (pull, create, start, wait, logs, remove) is an external
//! collaborator reached over an asynchronous request/stream API; the
//! orchestration decisions that drive it are modelled here as verified state
//! machines, and the surrounding runtime plumbing lives outside this crate.

pub mod archive;
pub mod builder;
pub mod errors;
pub mod relay;
pub mod run;

pub use archive::build_context;
pub use archive::generate_dockerfile;
pub use archive::tar_archive;
pub use builder::build_step;
pub use builder::classify_message;
pub use builder::forward_plan;
pub use builder::message_forward_texts;
pub use builder::new_build_request;
pub use builder::BuildAction;
pub use builder::BuildEvent;
pub use builder::BuildMessage;
pub use builder::BuildRequest;
pub use builder::BuildStreamEvent;
pub use errors::EngineError;
pub use relay::consumer_step;
pub use relay::ConsumerAction;
pub use relay::RecvOutcome;
pub use relay::Relay;
pub use relay::SendOutcome;
pub use run::run_init;
pub use run::run_step;
pub use run::RunAction;
pub use run::RunConfig;
pub use run::RunEvent;
pub use run::RunState;
