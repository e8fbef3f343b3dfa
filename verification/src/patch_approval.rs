//! The approval-elicitation flow: building the elicitation request for a
//! proposed patch, deciding what to do when the payload cannot be serialized,
//! and turning the transport's eventual answer into the one decision
//! operation submitted for the approval.

use vstd::prelude::*;

use crate::protocol::FileChange;
use crate::protocol::JsonRpcError;
use crate::protocol::Op;
use crate::protocol::RequestId;
use crate::protocol::ReviewDecision;
use crate::protocol::INVALID_PARAMS_ERROR_CODE;

verus! {

/// Outside type relied on: `serde_json::Value`. The bridge never looks inside
/// such a value; it only carries the serialized request payload through to
/// the transport.
#[verifier::external_type_specification]
#[verifier::external_body]
pub struct ExValue(serde_json::Value);

/// Shape the elicitation response must take: the properties object is always
/// empty, and no property is required.
#[derive(Debug, Clone, PartialEq, Eq)]
pub struct ElicitRequestParamsRequestedSchema {
    pub schema_type: String,
    pub required: Option<Vec<String>>,
}

/// The elicitation request payload for one pending patch approval. Immutable
/// once built; `cortex_event_id` uniquely identifies the pending decision.
#[derive(Debug, Clone, PartialEq, Eq)]
pub struct PatchApprovalElicitRequestParams {
    pub message: String,
    pub requested_schema: ElicitRequestParamsRequestedSchema,
    pub cortex_elicitation: String,
    pub cortex_mcp_tool_call_id: String,
    pub cortex_event_id: String,
    pub cortex_call_id: String,
    pub cortex_reason: Option<String>,
    pub cortex_grant_root: Option<String>,
    pub cortex_changes: Vec<(String, FileChange)>,
}

/// A well-formed answer to an elicitation request.
#[derive(Debug, Clone, Copy, PartialEq, Eq, Structural)]
pub struct PatchApprovalResponse {
    pub decision: ReviewDecision,
}

/// Fixed confirmation line that ends every approval prompt.
pub open spec fn confirm_line() -> Seq<char> {
    "Allow Cortex to apply proposed code changes?"@
}

/// The prompt asking a human for approval: the reason, when one is given,
/// followed on the next line by the fixed confirmation line.
pub open spec fn approval_prompt(reason: Option<Seq<char>>) -> Seq<char> {
    match reason {
        Some(r) => r + "\n"@ + confirm_line(),
        None => confirm_line(),
    }
}

/// Builds the prompt of an approval request from its optional reason.
pub fn approval_message(reason: &Option<String>) -> (msg: String)
    ensures
        msg@ == approval_prompt(reason.deep_view()),
{
    match reason {
        Some(r) => r.clone().concat("\n").concat("Allow Cortex to apply proposed code changes?"),
        None => String::from_str("Allow Cortex to apply proposed code changes?"),
    }
}

/// Assembles the elicitation request payload for a proposed patch. Pure: the
/// correlation ids, the reason, the grant root and the change set appear in
/// the payload verbatim, the schema asks for an empty object, and the message
/// is the approval prompt.
pub fn build_patch_approval_params(
    call_id: String,
    reason: Option<String>,
    grant_root: Option<String>,
    changes: Vec<(String, FileChange)>,
    tool_call_id: String,
    event_id: String,
) -> (params: PatchApprovalElicitRequestParams)
    ensures
        params.message@ == approval_prompt(reason.deep_view()),
        params.requested_schema.schema_type@ == "object"@,
        params.requested_schema.required is None,
        params.cortex_elicitation@ == "patch-approval"@,
        params.cortex_mcp_tool_call_id == tool_call_id,
        params.cortex_event_id == event_id,
        params.cortex_call_id == call_id,
        params.cortex_reason == reason,
        params.cortex_grant_root == grant_root,
        params.cortex_changes == changes,
{
    let message = approval_message(&reason);
    PatchApprovalElicitRequestParams {
        message,
        requested_schema: ElicitRequestParamsRequestedSchema {
            schema_type: String::from_str("object"),
            required: None,
        },
        cortex_elicitation: String::from_str("patch-approval"),
        cortex_mcp_tool_call_id: tool_call_id,
        cortex_event_id: event_id,
        cortex_call_id: call_id,
        cortex_reason: reason,
        cortex_grant_root: grant_root,
        cortex_changes: changes,
    }
}

/// What the elicitor does next, once the payload's serialization outcome is
/// known: exactly one of sending the request (and then waiting for its
/// answer) or sending one protocol error back to the original caller.
pub enum ElicitAction {
    SendError { request_id: RequestId, error: JsonRpcError },
    SendRequest { method: String, params: serde_json::Value },
}

/// Fixed method name of an elicitation request.
pub open spec fn elicitation_method() -> Seq<char> {
    "elicitation/create"@
}

/// Message of the protocol error sent when the payload cannot be serialized.
pub open spec fn serialize_error_message(detail: Seq<char>) -> Seq<char> {
    "Failed to serialize PatchApprovalElicitRequestParams: "@ + detail
}

/// Decides the elicitor's one action from the payload's serialization
/// outcome. A serialized payload is sent verbatim under the fixed elicitation
/// method; a failure aborts this request only, answering the original caller
/// with one invalid-parameters protocol error that embeds the failure's
/// description. In the failure case no request is sent, so no decision is
/// ever submitted for the approval.
pub fn elicit_step(request_id: RequestId, serialized: Result<serde_json::Value, String>) -> (action:
    ElicitAction)
    ensures
        serialized matches Ok(payload) ==> ({
            &&& action matches ElicitAction::SendRequest { method, params }
            &&& method@ == elicitation_method()
            &&& params == payload
        }),
        serialized matches Err(detail) ==> ({
            &&& action matches ElicitAction::SendError { request_id: rid, error }
            &&& rid == request_id
            &&& error.code == INVALID_PARAMS_ERROR_CODE
            &&& error.message@ == serialize_error_message(detail@)
        }),
{
    match serialized {
        Ok(payload) => ElicitAction::SendRequest {
            method: String::from_str("elicitation/create"),
            params: payload,
        },
        Err(detail) => ElicitAction::SendError {
            request_id,
            error: JsonRpcError {
                code: INVALID_PARAMS_ERROR_CODE,
                message: String::from_str(
                    "Failed to serialize PatchApprovalElicitRequestParams: ",
                ).concat(detail.as_str()),
            },
        },
    }
}

/// How the wait for the transport's answer ended: the transport failed, or a
/// payload arrived and was either parsed as a well-formed decision object or
/// found malformed.
#[derive(Debug, Clone, Copy, PartialEq, Eq, Structural)]
pub enum ResponseOutcome {
    TransportFailed,
    Payload { parsed: Option<PatchApprovalResponse> },
}

/// The decision an outcome resolves to: a well-formed payload's own decision;
/// `Denied` as the safe default on transport failure or a malformed payload.
pub open spec fn decision_for(outcome: ResponseOutcome) -> ReviewDecision {
    match outcome {
        ResponseOutcome::TransportFailed => ReviewDecision::Denied,
        ResponseOutcome::Payload { parsed: None } => ReviewDecision::Denied,
        ResponseOutcome::Payload { parsed: Some(response) } => response.decision,
    }
}

/// The one operation the response waiter submits for the approval identified
/// by `event_id`, whatever the outcome of the wait. The state of an approval
/// moves from pending straight to this terminal decision: the waiter never
/// produces any other operation, and produces this one exactly once.
pub fn waiter_op(event_id: String, outcome: ResponseOutcome) -> (op: Op)
    ensures
        op == (Op::PatchApproval { id: event_id, decision: decision_for(outcome) }),
{
    let decision = match outcome {
        ResponseOutcome::TransportFailed => ReviewDecision::Denied,
        ResponseOutcome::Payload { parsed: None } => ReviewDecision::Denied,
        ResponseOutcome::Payload { parsed: Some(response) } => response.decision,
    };
    Op::PatchApproval { id: event_id, decision }
}

/// State of one approval: pending until its decision operation is submitted;
/// a decision is terminal.
#[derive(Debug, Clone, Copy, PartialEq, Eq, Structural)]
pub enum ApprovalState {
    Pending,
    Decided { decision: ReviewDecision },
}

/// The state an approval moves to when a wait for its answer ends: a pending
/// approval resolves to the outcome's decision, and a decided approval never
/// changes again.
pub open spec fn approval_next(state: ApprovalState, outcome: ResponseOutcome) -> ApprovalState {
    match state {
        ApprovalState::Pending => ApprovalState::Decided { decision: decision_for(outcome) },
        ApprovalState::Decided { decision } => ApprovalState::Decided { decision },
    }
}

/// Single-shot law: for a given approval the decision is submitted at most
/// once, with no retry and no amendment. The first outcome decides, and every
/// later outcome leaves the decided state exactly as it was.
pub proof fn lemma_decision_is_single_shot(first: ResponseOutcome, later: ResponseOutcome)
    ensures
        approval_next(ApprovalState::Pending, first) == (ApprovalState::Decided {
            decision: decision_for(first),
        }),
        approval_next(approval_next(ApprovalState::Pending, first), later) == approval_next(
            ApprovalState::Pending,
            first,
        ),
{
}

/// Terminality law: no transition leads out of a decided state, back to
/// pending or to another decision.
pub proof fn lemma_decided_is_final(decision: ReviewDecision, outcome: ResponseOutcome)
    ensures
        approval_next(ApprovalState::Decided { decision }, outcome) == (ApprovalState::Decided {
            decision,
        }),
{
}

/// Fallback law: a transport failure and a malformed payload both resolve to
/// `Denied`, so a pending approval whose answer never arrives intact is
/// always denied, never silently approved.
pub proof fn lemma_failure_decides_denied(outcome: ResponseOutcome)
    requires
        outcome is TransportFailed || outcome == (ResponseOutcome::Payload { parsed: None }),
    ensures
        decision_for(outcome) == ReviewDecision::Denied,
{
}

/// Pass-through law: a well-formed response's decision is submitted
/// unchanged, whichever review outcome it carries.
pub proof fn lemma_valid_decision_submitted(response: PatchApprovalResponse)
    ensures
        decision_for(ResponseOutcome::Payload { parsed: Some(response) }) == response.decision,
{
}

} // verus!
