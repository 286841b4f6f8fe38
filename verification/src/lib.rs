//! A bridge between bounded asynchronous channels and a push-consumer
//! interface, with a cooperative shutdown protocol.
//!
//! * [`channel`] is the boundary to the channel primitives: the handle types,
//!   the few calls the crate makes on them, and the answers they give.
//! * [`sink`] holds [`Pipeline`], the adapter that drives a channel sender
//!   through readiness, submission, flush and close.
//! * [`gate`] holds [`ShutdownGate`], which stops new work from arriving once
//!   a one-shot signal has been seen, and lets buffered items drain.
//! * [`stage`] holds [`PipelineStage`], which moves items from a guarded
//!   receiver into a [`Pipeline`] and counts them.
//! * [`guarantees`] states what holds of every run of a stage and of a gate.

pub mod channel;
pub mod gate;
pub mod guarantees;
pub mod sink;
pub mod stage;

pub use channel::Pull;
pub use channel::Readiness;
pub use channel::SendOutcome;
pub use channel::Signal;
pub use gate::GateState;
pub use gate::ShutdownGate;
pub use gate::Trigger;
pub use sink::Pipeline;
pub use sink::SubmitError;
pub use stage::PipelineStage;
pub use stage::StageCore;
pub use stage::StageFlow;
pub use stage::StagePhase;
pub use stage::StagePoll;
