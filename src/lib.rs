//! Authenticates webhook deliveries by their HMAC-SHA256 signature and
//! decides, step by step, the deployment pipeline that a delivery triggers.

pub mod delivery;
pub mod gate;
pub mod pipeline;
pub mod signature;

pub use delivery::{deployment_outcome, response_status, Config, DeliveryError, Invocation};
pub use gate::DeployQueue;
pub use pipeline::{Action, PipelineError, PipelineRun, Step, StepOutcome, StepReport};
pub use signature::{
    compute_signature, constant_time_eq, signature_header, signature_matches, verify_signature,
    MacSetupError,
};
