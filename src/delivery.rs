//! What the webhook endpoint decides for one delivery: whether it is
//! authentic and well formed, which processes the pipeline runs, and the
//! status code that answers the sender.

use vstd::prelude::*;
use crate::pipeline::{
    action_after, error_of, valid_history, Action, PipelineError, Step, StepOutcome,
};
use crate::signature::{signature_accepts, signature_of, verify_signature};

verus! {

/// Whether a byte string is one JSON document.
pub uninterp spec fn is_json_document(body: Seq<u8>) -> bool;

/// Relies on `serde_json::from_slice::<serde_json::Value>`: it succeeds exactly
/// on the byte strings that hold one JSON document. Only success is kept; the
/// parsed value is not needed.
#[verifier::external_body]
fn parses_as_json(body: &[u8]) -> (r: bool)
    ensures
        r == is_json_document(body@),
{
    serde_json::from_slice::<serde_json::Value>(body).is_ok()
}

/// Why a delivery was not deployed.
#[derive(Debug, Clone, Copy, PartialEq, Eq)]
pub enum DeliveryError {
    /// The request carries no signature header.
    MissingSignature,
    /// The signature header does not match the body.
    SignatureMismatch,
    /// The body is not a JSON document.
    MalformedPayload,
    /// The message authentication code could not be set up.
    MacSetup,
    /// A pipeline step could not start or failed.
    Pipeline(PipelineError),
}

/// The HTTP status that answers a delivery.
pub open spec fn status_of(outcome: Result<(), DeliveryError>) -> u16 {
    match outcome {
        Ok(()) => 200,
        Err(DeliveryError::MissingSignature) => 400,
        Err(DeliveryError::SignatureMismatch) => 401,
        Err(DeliveryError::MalformedPayload) => 400,
        Err(DeliveryError::MacSetup) => 500,
        Err(DeliveryError::Pipeline(_)) => 500,
    }
}

/// The HTTP status that answers a delivery with this outcome: 200 on success,
/// 400 for a missing header or a malformed body, 401 for a wrong signature,
/// 500 for an internal or pipeline fault. Nothing else reaches the sender.
pub fn response_status(outcome: &Result<(), DeliveryError>) -> (r: u16)
    ensures
        r == status_of(*outcome),
{
    match outcome {
        Ok(()) => 200,
        Err(DeliveryError::MissingSignature) => 400,
        Err(DeliveryError::SignatureMismatch) => 401,
        Err(DeliveryError::MalformedPayload) => 400,
        Err(DeliveryError::MacSetup) => 500,
        Err(DeliveryError::Pipeline(_)) => 500,
    }
}

/// The outcome of a delivery whose pipeline ended with `res`.
pub open spec fn pipeline_outcome(res: Result<(), PipelineError>) -> Result<(), DeliveryError> {
    match res {
        Ok(()) => Ok(()),
        Err(e) => Err(DeliveryError::Pipeline(e)),
    }
}

/// The outcome of a delivery whose pipeline ended with `res`.
pub fn deployment_outcome(res: Result<(), PipelineError>) -> (r: Result<(), DeliveryError>)
    ensures
        r == pipeline_outcome(res),
{
    match res {
        Ok(()) => Ok(()),
        Err(e) => Err(DeliveryError::Pipeline(e)),
    }
}

/// The header text of a signature, if the header is present.
pub open spec fn header_view(signature: Option<&str>) -> Option<Seq<char>> {
    match signature {
        Some(s) => Some(s@),
        None => None,
    }
}

/// The verdict on a delivery before any step runs: no header is a client
/// error, a header that does not authenticate the body is unauthorized, and
/// an authentic body that is not JSON is a client error.
pub open spec fn delivery_verdict(
    key: Seq<u8>,
    signature: Option<Seq<char>>,
    body: Seq<u8>,
) -> Result<(), DeliveryError> {
    match signature {
        None => Err(DeliveryError::MissingSignature),
        Some(h) => if !signature_accepts(key, body, h) {
            Err(DeliveryError::SignatureMismatch)
        } else if !is_json_document(body) {
            Err(DeliveryError::MalformedPayload)
        } else {
            Ok(())
        },
    }
}

/// An outside program to run, with its arguments, in a directory.
#[derive(Debug, Clone)]
pub struct Invocation {
    pub program: String,
    pub args: Vec<String>,
    pub dir: String,
}

/// The program that runs a step.
pub open spec fn program_of(step: Step) -> Seq<char> {
    match step {
        Step::Sync => seq!['g', 'i', 't'],
        Step::Build => seq!['h', 'u', 'g', 'o'],
    }
}

/// The arguments that a step's program takes.
pub open spec fn args_of(step: Step) -> Seq<Seq<char>> {
    match step {
        Step::Sync => seq![seq!['p', 'u', 'l', 'l']],
        Step::Build => Seq::empty(),
    }
}

/// The service's configuration, fixed at start-up: the secret shared with
/// the webhook sender, and the working copy that the pipeline deploys.
pub struct Config {
    secret: Vec<u8>,
    work_dir: String,
}

impl Config {
    pub closed spec fn secret_view(&self) -> Seq<u8> {
        self.secret@
    }

    pub closed spec fn work_dir_view(&self) -> Seq<char> {
        self.work_dir@
    }

    pub fn new(secret: Vec<u8>, work_dir: String) -> (r: Config)
        ensures
            r.secret_view() == secret@,
            r.work_dir_view() == work_dir@,
    {
        Config { secret, work_dir }
    }

    /// Whether the shared secret is empty. An empty secret still signs and
    /// checks, but anyone can then sign: the service should warn at start-up.
    pub fn secret_is_empty(&self) -> (r: bool)
        ensures
            r == (self.secret_view().len() == 0),
    {
        self.secret.len() == 0
    }

    /// Checks a delivery: its signature header (`None` where the request has
    /// none, or none readable as text) against the raw body, then the body as
    /// a JSON document. The body is parsed only once it is authentic.
    pub fn check_delivery(&self, signature: Option<&str>, body: &[u8]) -> (r: Result<
        (),
        DeliveryError,
    >)
        ensures
            r == delivery_verdict(self.secret_view(), header_view(signature), body@),
    {
        let header = match signature {
            None => return Err(DeliveryError::MissingSignature),
            Some(h) => h,
        };
        match verify_signature(self.secret.as_slice(), body, header) {
            Err(_) => Err(DeliveryError::MacSetup),
            Ok(false) => Err(DeliveryError::SignatureMismatch),
            Ok(true) => if parses_as_json(body) {
                Ok(())
            } else {
                Err(DeliveryError::MalformedPayload)
            },
        }
    }

    /// The program, arguments and directory that run a step.
    pub fn invocation(&self, step: Step) -> (r: Invocation)
        ensures
            r.program@ == program_of(step),
            r.args@.len() == args_of(step).len(),
            forall|i: int| 0 <= i < r.args@.len() ==> #[trigger] r.args@[i]@ == args_of(step)[i],
            r.dir@ == self.work_dir_view(),
    {
        let dir = self.work_dir.clone();
        match step {
            Step::Sync => {
                let program = String::from_str("git");
                let arg = String::from_str("pull");
                proof {
                    reveal_strlit("git");
                    reveal_strlit("pull");
                }
                assert(program@ =~= program_of(step));
                assert(arg@ =~= seq!['p', 'u', 'l', 'l']);
                let mut args: Vec<String> = Vec::new();
                args.push(arg);
                Invocation { program, args, dir }
            },
            Step::Build => {
                let program = String::from_str("hugo");
                proof {
                    reveal_strlit("hugo");
                }
                assert(program@ =~= program_of(step));
                Invocation { program, args: Vec::new(), dir }
            },
        }
    }
}

/// A request without a signature header is refused with a client error,
/// whatever its body and whatever the secret.
pub proof fn lemma_missing_signature_rejected(key: Seq<u8>, body: Seq<u8>)
    ensures
        delivery_verdict(key, None, body) == Err::<(), DeliveryError>(
            DeliveryError::MissingSignature,
        ),
        status_of(delivery_verdict(key, None, body)) == 400,
{
}

/// A body signed with the secret passes the signature check, also where the
/// secret is empty; it is then accepted exactly when it is a JSON document.
pub proof fn lemma_signed_body_authenticates(key: Seq<u8>, body: Seq<u8>)
    ensures
        delivery_verdict(key, Some(signature_of(key, body)), body) != Err::<(), DeliveryError>(
            DeliveryError::SignatureMismatch,
        ),
        delivery_verdict(key, Some(signature_of(key, body)), body) is Ok <==> is_json_document(
            body,
        ),
{
}

/// A body that is correctly signed but is not JSON is refused with a client
/// error: it authenticates and then fails validation.
pub proof fn lemma_malformed_payload_rejected(key: Seq<u8>, body: Seq<u8>)
    requires
        !is_json_document(body),
    ensures
        signature_accepts(key, body, signature_of(key, body)),
        delivery_verdict(key, Some(signature_of(key, body)), body) == Err::<(), DeliveryError>(
            DeliveryError::MalformedPayload,
        ),
        status_of(delivery_verdict(key, Some(signature_of(key, body)), body)) == 400,
{
}

/// A sync that went wrong ends the pipeline before the build is asked for,
/// and the delivery is answered with an internal error.
pub proof fn lemma_sync_failure_stops(sync: StepOutcome)
    requires
        sync != StepOutcome::Succeeded,
    ensures
        action_after(seq![sync]) == Action::Finish(Err(error_of(Step::Sync, sync))),
        status_of(pipeline_outcome(Err(error_of(Step::Sync, sync)))) == 500,
{
}

/// A build that goes wrong after a successful sync ends the pipeline with the
/// build's error, and the delivery is answered with an internal error.
pub proof fn lemma_build_failure_fails(build: StepOutcome)
    requires
        build != StepOutcome::Succeeded,
    ensures
        action_after(seq![StepOutcome::Succeeded]) == Action::Run(Step::Build),
        valid_history(seq![StepOutcome::Succeeded, build]),
        action_after(seq![StepOutcome::Succeeded, build]) == Action::Finish(
            Err(error_of(Step::Build, build)),
        ),
        status_of(pipeline_outcome(Err(error_of(Step::Build, build)))) == 500,
{
    assert(seq![StepOutcome::Succeeded, build][0] == StepOutcome::Succeeded);
}

/// Two successful steps end the pipeline with success, answered with 200
/// and nothing more.
pub proof fn lemma_both_steps_succeed()
    ensures
        action_after(seq![StepOutcome::Succeeded, StepOutcome::Succeeded]) == Action::Finish(
            Ok(()),
        ),
        status_of(pipeline_outcome(Ok(()))) == 200,
{
}

} // verus!
