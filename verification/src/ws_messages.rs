//! WebSocket messages and how a session answers them.

use vstd::prelude::*;
use crate::commands::{cmd_post, dispatch, CmdResult};
use crate::kernel::GeometryKernel;
use crate::modeling_cmd::ModelingCmd;
use crate::responses::OkModelingCmdResponse;
use crate::session::{Session, SessionView};

verus! {

/// Incoming messages. The ICE candidate and SDP offer payloads are not
/// read by the session and are not kept.
pub enum WebSocketRequest {
    TrickleIce {},
    SdpOffer {},
    ModelingCmdReq { cmd: ModelingCmd, cmd_id: u128 },
    ModelingCmdBatchReq { requests: Vec<ModelingCmdReqBatch> },
    Pong {},
    Unknown,
}

/// One request of a batch.
pub struct ModelingCmdReqBatch {
    pub cmd: ModelingCmd,
    pub cmd_id: u128,
}

/// Outgoing messages.
pub enum WebSocketResponse {
    IceServerInfo { ice_servers: Vec<IceServer> },
    SdpAnswer { answer: SdpAnswer },
    Pong {},
    Modeling { result: ModelingSessionResult },
}

pub struct IceServer {
    pub urls: Vec<String>,
}

pub struct SdpAnswer {
    pub sdp_type: String,
    pub sdp: String,
}

/// The outcome of one modeling command.
pub enum ModelingSessionResult {
    Success { cmd_id: u128, resp: OkModelingCmdResponse },
    Error { cmd_id: u128, errors: Vec<String> },
}

/// `resp` reports result `r` of the command `cmd_id`: a success with the
/// response, or an error with the message as its only error.
pub open spec fn reports(resp: WebSocketResponse, cmd_id: u128, r: CmdResult) -> bool {
    match resp {
        WebSocketResponse::Modeling { result } => match result {
            ModelingSessionResult::Success { cmd_id: c, resp: ok } => c == cmd_id && r
                == Ok::<OkModelingCmdResponse, String>(ok),
            ModelingSessionResult::Error { cmd_id: c, errors } => {
                &&& c == cmd_id
                &&& errors@.len() == 1
                &&& r == Err::<OkModelingCmdResponse, String>(errors@[0])
            },
        },
        _ => false,
    }
}

/// The message that starts a connection: ICE server info with no servers.
pub fn ice_server_info() -> (resp: WebSocketResponse)
    ensures
        resp matches WebSocketResponse::IceServerInfo { ice_servers } && ice_servers@.len() == 0,
{
    WebSocketResponse::IceServerInfo { ice_servers: Vec::new() }
}

/// Runs one modeling command and reports its outcome.
pub fn execute_cmd<S, K: GeometryKernel<Shape = S>>(
    session: &mut Session<S>,
    kernel: &K,
    cmd_id: u128,
    cmd: ModelingCmd,
) -> (resp: WebSocketResponse)
    ensures
        exists|r: CmdResult|
            #![trigger reports(resp, cmd_id, r)]
            cmd_post(kernel, old(session)@, cmd, final(session)@, r) && reports(resp, cmd_id, r),
{
    let ghost c = cmd;
    let r = dispatch(session, kernel, cmd);
    let ghost gr = r;
    let resp = match r {
        Ok(resp) => WebSocketResponse::Modeling {
            result: ModelingSessionResult::Success { cmd_id, resp },
        },
        Err(e) => {
            let mut errors = Vec::new();
            errors.push(e);
            WebSocketResponse::Modeling { result: ModelingSessionResult::Error { cmd_id, errors } }
        },
    };
    assert(cmd_post(kernel, old(session)@, c, session@, gr) && reports(resp, cmd_id, gr));
    resp
}

/// A batch run: `states` are the sessions from `old` to `new`, request
/// `i` leads from `states[i]` to `states[i + 1]` with result `results[i]`,
/// and `out[i]` reports it.
pub open spec fn batch_run<K: GeometryKernel>(
    kernel: &K,
    old: SessionView<K::Shape>,
    reqs: Seq<ModelingCmdReqBatch>,
    new: SessionView<K::Shape>,
    out: Seq<WebSocketResponse>,
    states: Seq<SessionView<K::Shape>>,
    results: Seq<CmdResult>,
) -> bool {
    &&& states.len() == reqs.len() + 1
    &&& results.len() == reqs.len()
    &&& out.len() == reqs.len()
    &&& states[0] == old
    &&& states[reqs.len() as int] == new
    &&& forall|i: int|
        0 <= i < out.len() ==> #[trigger] cmd_post(
            kernel,
            states[i],
            reqs[i].cmd,
            states[i + 1],
            results[i],
        ) && reports(out[i], reqs[i].cmd_id, results[i])
}

/// What answering `req` does: pings, ICE candidates and unknown messages
/// get no answer and change nothing; an SDP offer gets a placeholder
/// answer; a command gets one report; a batch gets one report per
/// request, in order, each command running on the session the previous
/// one left.
pub open spec fn handle_post<K: GeometryKernel>(
    kernel: &K,
    old: SessionView<K::Shape>,
    req: WebSocketRequest,
    new: SessionView<K::Shape>,
    out: Seq<WebSocketResponse>,
) -> bool {
    match req {
        WebSocketRequest::Pong {} => out.len() == 0 && new == old,
        WebSocketRequest::TrickleIce {} => out.len() == 0 && new == old,
        WebSocketRequest::Unknown => out.len() == 0 && new == old,
        WebSocketRequest::SdpOffer {} => {
            &&& out.len() == 1
            &&& out[0] matches WebSocketResponse::SdpAnswer { answer }
            &&& answer.sdp_type@ == "answer"@
            &&& answer.sdp@ == "v=0\r\n"@
            &&& new == old
        },
        WebSocketRequest::ModelingCmdReq { cmd, cmd_id } => {
            &&& out.len() == 1
            &&& exists|r: CmdResult|
                #![trigger reports(out[0], cmd_id, r)]
                cmd_post(kernel, old, cmd, new, r) && reports(out[0], cmd_id, r)
        },
        WebSocketRequest::ModelingCmdBatchReq { requests } => exists|
            states: Seq<SessionView<K::Shape>>,
            results: Seq<CmdResult>,
        | #[trigger] batch_run(kernel, old, requests@, new, out, states, results),
    }
}

proof fn lemma_batch_run_intro<K: GeometryKernel>(
    kernel: &K,
    old: SessionView<K::Shape>,
    reqs: Seq<ModelingCmdReqBatch>,
    new: SessionView<K::Shape>,
    out: Seq<WebSocketResponse>,
    states: Seq<SessionView<K::Shape>>,
    results: Seq<CmdResult>,
)
    requires
        states.len() == out.len() + 1,
        results.len() == out.len(),
        out.len() == reqs.len(),
        states[0] == old,
        states[out.len() as int] == new,
        forall|i: int|
            0 <= i < out.len() ==> #[trigger] cmd_post(
                kernel,
                states[i],
                reqs[i].cmd,
                states[i + 1],
                results[i],
            ) && reports(out[i], reqs[i].cmd_id, results[i]),
    ensures
        batch_run(kernel, old, reqs, new, out, states, results),
{
}

/// Answers one incoming message.
pub fn handle_request<S, K: GeometryKernel<Shape = S>>(
    session: &mut Session<S>,
    kernel: &K,
    request: WebSocketRequest,
) -> (out: Vec<WebSocketResponse>)
    ensures
        handle_post(kernel, old(session)@, request, final(session)@, out@),
{
    match request {
        WebSocketRequest::Pong {} => Vec::new(),
        WebSocketRequest::TrickleIce {} => Vec::new(),
        WebSocketRequest::Unknown => Vec::new(),
        WebSocketRequest::SdpOffer {} => {
            let mut out = Vec::new();
            out.push(
                WebSocketResponse::SdpAnswer {
                    answer: SdpAnswer {
                        sdp_type: String::from_str("answer"),
                        sdp: String::from_str("v=0\r\n"),
                    },
                },
            );
            out
        },
        WebSocketRequest::ModelingCmdReq { cmd, cmd_id } => {
            let resp = execute_cmd(session, kernel, cmd_id, cmd);
            let mut out = Vec::new();
            out.push(resp);
            out
        },
        WebSocketRequest::ModelingCmdBatchReq { requests } => {
            let ghost reqs = requests@;
            let ghost v0 = session@;
            let mut rest = requests;
            let mut out: Vec<WebSocketResponse> = Vec::new();
            let ghost mut states: Seq<SessionView<S>> = seq![v0];
            let ghost mut results: Seq<CmdResult> = seq![];
            while rest.len() > 0
                invariant
                    out@.len() + rest@.len() == reqs.len(),
                    rest@ == reqs.subrange(out@.len() as int, reqs.len() as int),
                    states.len() == out@.len() + 1,
                    results.len() == out@.len(),
                    states[0] == v0,
                    states[out@.len() as int] == session@,
                    forall|i: int|
                        0 <= i < out@.len() ==> #[trigger] cmd_post(
                            kernel,
                            states[i],
                            reqs[i].cmd,
                            states[i + 1],
                            results[i],
                        ) && reports(out@[i], reqs[i].cmd_id, results[i]),
                decreases rest@.len(),
            {
                let ghost before = session@;
                let ghost k = out@.len() as int;
                let req = rest.remove(0);
                assert(req == reqs[k]);
                let resp = execute_cmd(session, kernel, req.cmd_id, req.cmd);
                let ghost r = choose|r: CmdResult|
                    #![trigger reports(resp, req.cmd_id, r)]
                    cmd_post(kernel, before, req.cmd, session@, r) && reports(resp, req.cmd_id, r);
                out.push(resp);
                proof {
                    states = states.push(session@);
                    results = results.push(r);
                    assert(rest@ =~= reqs.subrange(out@.len() as int, reqs.len() as int));
                    assert forall|i: int| 0 <= i < out@.len() implies #[trigger] cmd_post(
                        kernel,
                        states[i],
                        reqs[i].cmd,
                        states[i + 1],
                        results[i],
                    ) && reports(out@[i], reqs[i].cmd_id, results[i]) by {
                        if i < k {
                        } else {
                            assert(i == k);
                        }
                    }
                }
            }
            proof {
                assert(forall|i: int|
                    0 <= i < out@.len() ==> #[trigger] cmd_post(
                        kernel,
                        states[i],
                        reqs[i].cmd,
                        states[i + 1],
                        results[i],
                    ) && reports(out@[i], reqs[i].cmd_id, results[i]));
                lemma_batch_run_intro(kernel, v0, reqs, session@, out@, states, results);
            }
            out
        },
    }
}

} // verus!
