//! The per-agent dispatch of an accepted orchestrate tool call.
//!
//! Dispatch happens in three steps. [`plan_dispatch`] turns the request into
//! one task creation call per child, in input order, or refuses an empty
//! request. The caller issues those calls, in parallel if it likes, and
//! hands the replies back in the order of the calls. [`collect_outcomes`]
//! then reports one outcome per child, in input order regardless of the
//! order in which the replies arrived. A child whose call failed is
//! reported as failed inside the launched result; tasks already created are
//! not rolled back.
use vstd::prelude::*;

use crate::model::{
    opt_text, reply_view, AgentConfigSnapshot, AgentTaskRequest, ExecutionModeView, HarnessConfig,
    OrchestrateAgentOutcome, OrchestrateAgentOutcomeKind, OrchestrateExecutionMode,
    OrchestrateLaunchedExecutionMode, OrchestrateRequest, OrchestrateResult, OutcomeKindView,
    OutcomeView, RequestView, ResultView, RunConfigView, SnapshotView, TaskRequestView,
};
use crate::task_id::AmbientAgentTaskId;
use crate::text::{blank, is_blank};

verus! {

/// The prompt of one child: the base prompt and the child's own prompt,
/// separated by a blank line, when neither is blank; otherwise whichever of
/// the two is not blank; otherwise nothing. Each part is kept as written,
/// whitespace included.
pub open spec fn composed_prompt(base: Seq<char>, per_agent: Seq<char>) -> Seq<char> {
    if !is_blank(base) && !is_blank(per_agent) {
        base + "\n\n"@ + per_agent
    } else if !is_blank(base) {
        base
    } else if !is_blank(per_agent) {
        per_agent
    } else {
        Seq::empty()
    }
}

/// The cloud environment the children run in: none for a local run, nor for
/// a remote one whose environment id is blank.
pub open spec fn environment_uid_of(mode: ExecutionModeView) -> Option<Seq<char>> {
    match mode {
        ExecutionModeView::Local => None,
        ExecutionModeView::Remote { environment_id, .. } => if is_blank(environment_id) {
            None
        } else {
            Some(environment_id)
        },
    }
}

/// A text, where it is not empty.
pub open spec fn non_empty(s: Seq<char>) -> Option<Seq<char>> {
    if s.len() == 0 {
        None
    } else {
        Some(s)
    }
}

/// The run-wide configuration recorded on every child: the remote
/// environment, worker host and computer-use flag, the model and the
/// harness, each where the request sets it.
pub open spec fn base_snapshot(req: RequestView) -> SnapshotView {
    SnapshotView {
        name: None,
        environment_id: match req.execution_mode {
            ExecutionModeView::Local => None,
            ExecutionModeView::Remote { environment_id, .. } => non_empty(environment_id),
        },
        model_id: non_empty(req.model_id),
        base_prompt: None,
        mcp_servers: None,
        profile_id: None,
        worker_host: match req.execution_mode {
            ExecutionModeView::Local => None,
            ExecutionModeView::Remote { worker_host, .. } => non_empty(worker_host),
        },
        skill_spec: None,
        computer_use_enabled: match req.execution_mode {
            ExecutionModeView::Local => None,
            ExecutionModeView::Remote { computer_use_enabled, .. } => Some(computer_use_enabled),
        },
        harness: non_empty(req.harness_type),
        harness_auth_secrets: None,
    }
}

/// The configuration recorded on one child: the run-wide one, under the
/// child's name.
pub open spec fn child_snapshot(req: RequestView, cfg: RunConfigView) -> SnapshotView {
    SnapshotView { name: Some(cfg.name), ..base_snapshot(req) }
}

/// The task creation call for one child.
pub open spec fn child_call(
    req: RequestView,
    parent_run_id: Option<Seq<char>>,
    cfg: RunConfigView,
) -> TaskRequestView {
    TaskRequestView {
        prompt: composed_prompt(req.base_prompt, cfg.prompt),
        environment_uid: environment_uid_of(req.execution_mode),
        parent_run_id: parent_run_id,
        config: Some(child_snapshot(req, cfg)),
    }
}

/// The task creation calls of a request, one per child, in input order.
pub open spec fn planned_calls(req: RequestView, parent_run_id: Option<Seq<char>>) -> Seq<
    TaskRequestView,
> {
    req.agent_run_configs.map_values(|cfg: RunConfigView| child_call(req, parent_run_id, cfg))
}

/// The error reported for a request without children.
pub open spec fn empty_request_error() -> Seq<char> {
    "orchestrate: empty agent_run_configs"@
}

/// What one reply makes of its child.
pub open spec fn outcome_kind(reply: Result<Seq<char>, Seq<char>>) -> OutcomeKindView {
    match reply {
        Ok(agent_id) => OutcomeKindView::Launched { agent_id },
        Err(error) => OutcomeKindView::Failed { error },
    }
}

/// The launched result: the run-wide model, harness and execution mode, and
/// for each child, in input order, its name, its title and what its reply
/// made of it.
pub open spec fn launched_result(
    req: RequestView,
    replies: Seq<Result<Seq<char>, Seq<char>>>,
) -> ResultView {
    ResultView::Launched {
        model_id: req.model_id,
        harness_type: req.harness_type,
        execution_mode: req.execution_mode,
        agents: Seq::new(
            req.agent_run_configs.len(),
            |i: int|
                OutcomeView {
                    name: req.agent_run_configs[i].name,
                    title: req.agent_run_configs[i].title,
                    kind: outcome_kind(replies[i]),
                },
        ),
    }
}

/// The replies' views, in order.
pub open spec fn replies_view(replies: Seq<Result<AmbientAgentTaskId, String>>) -> Seq<
    Result<Seq<char>, Seq<char>>,
> {
    replies.map_values(|r: Result<AmbientAgentTaskId, String>| reply_view(r))
}

/// The prompt of one child (see [`composed_prompt`]).
pub fn compose_prompt(base_prompt: &str, per_agent_prompt: &str) -> (r: String)
    ensures
        r@ == composed_prompt(base_prompt@, per_agent_prompt@),
{
    let base_blank = blank(base_prompt);
    let per_agent_blank = blank(per_agent_prompt);
    if !base_blank && !per_agent_blank {
        let mut r = String::from_str(base_prompt);
        r.append("\n\n");
        r.append(per_agent_prompt);
        r
    } else if !base_blank {
        String::from_str(base_prompt)
    } else if !per_agent_blank {
        String::from_str(per_agent_prompt)
    } else {
        String::new()
    }
}

fn clone_opt_text(o: &Option<String>) -> (r: Option<String>)
    ensures
        opt_text(r) == opt_text(*o),
{
    match o {
        Some(s) => Some(s.clone()),
        None => None,
    }
}

fn non_empty_text(s: &String) -> (r: Option<String>)
    ensures
        opt_text(r) == non_empty(s@),
{
    if s.as_str().is_empty() {
        None
    } else {
        Some(s.clone())
    }
}

/// The cloud environment the children run in (see [`environment_uid_of`]).
pub fn environment_uid(mode: &OrchestrateExecutionMode) -> (r: Option<String>)
    ensures
        opt_text(r) == environment_uid_of(mode@),
{
    match mode {
        OrchestrateExecutionMode::Local => None,
        OrchestrateExecutionMode::Remote { environment_id, .. } => {
            if blank(environment_id.as_str()) {
                None
            } else {
                Some(environment_id.clone())
            }
        },
    }
}

/// The run-wide configuration recorded on every child (see [`base_snapshot`]).
pub fn build_base_snapshot(request: &OrchestrateRequest) -> (r: AgentConfigSnapshot)
    ensures
        r@ == base_snapshot(request@),
{
    let (environment_id, worker_host, computer_use_enabled) = match &request.execution_mode {
        OrchestrateExecutionMode::Local => (None, None, None),
        OrchestrateExecutionMode::Remote { environment_id, worker_host, computer_use_enabled } => (
            non_empty_text(environment_id),
            non_empty_text(worker_host),
            Some(*computer_use_enabled),
        ),
    };
    let harness = if request.harness_type.as_str().is_empty() {
        None
    } else {
        Some(HarnessConfig { harness_type: request.harness_type.clone() })
    };
    AgentConfigSnapshot {
        name: None,
        environment_id,
        model_id: non_empty_text(&request.model_id),
        base_prompt: None,
        mcp_servers: None,
        profile_id: None,
        worker_host,
        skill_spec: None,
        computer_use_enabled,
        harness,
        harness_auth_secrets: None,
    }
}

fn clone_snapshot(s: &AgentConfigSnapshot) -> (r: AgentConfigSnapshot)
    ensures
        r@ == s@,
{
    AgentConfigSnapshot {
        name: clone_opt_text(&s.name),
        environment_id: clone_opt_text(&s.environment_id),
        model_id: clone_opt_text(&s.model_id),
        base_prompt: clone_opt_text(&s.base_prompt),
        mcp_servers: clone_opt_text(&s.mcp_servers),
        profile_id: clone_opt_text(&s.profile_id),
        worker_host: clone_opt_text(&s.worker_host),
        skill_spec: clone_opt_text(&s.skill_spec),
        computer_use_enabled: s.computer_use_enabled,
        harness: match &s.harness {
            Some(h) => Some(HarnessConfig { harness_type: h.harness_type.clone() }),
            None => None,
        },
        harness_auth_secrets: clone_opt_text(&s.harness_auth_secrets),
    }
}

/// The execution mode that the launched result reports: the requested one.
pub fn launched_execution_mode(mode: &OrchestrateExecutionMode) -> (r:
    OrchestrateLaunchedExecutionMode)
    ensures
        r@ == mode@,
{
    match mode {
        OrchestrateExecutionMode::Local => OrchestrateLaunchedExecutionMode::Local,
        OrchestrateExecutionMode::Remote { environment_id, worker_host, computer_use_enabled } =>
            OrchestrateLaunchedExecutionMode::Remote {
            environment_id: environment_id.clone(),
            worker_host: worker_host.clone(),
            computer_use_enabled: *computer_use_enabled,
        },
    }
}

/// The failure result, for a failure before any task creation call was issued.
pub fn failure_result(error: &str) -> (r: OrchestrateResult)
    ensures
        r@ == (ResultView::Failure { error: error@ }),
{
    OrchestrateResult::Failure { error: String::from_str(error) }
}

/// The task creation calls of an accepted request, one per child in input
/// order; or, for a request without children, the failure result, so that
/// no call is issued.
pub fn plan_dispatch(request: &OrchestrateRequest, parent_run_id: &Option<String>) -> (r: Result<
    Vec<AgentTaskRequest>,
    OrchestrateResult,
>)
    ensures
        r is Err <==> request@.agent_run_configs.len() == 0,
        r matches Err(f) ==> f@ == (ResultView::Failure { error: empty_request_error() }),
        r matches Ok(calls) ==> calls@.map_values(|c: AgentTaskRequest| c@) == planned_calls(
            request@,
            opt_text(*parent_run_id),
        ),
{
    let n = request.agent_run_configs.len();
    if n == 0 {
        return Err(failure_result("orchestrate: empty agent_run_configs"));
    }
    let environment_uid = environment_uid(&request.execution_mode);
    let base = build_base_snapshot(request);
    let ghost req = request@;
    let ghost parent = opt_text(*parent_run_id);
    let mut calls: Vec<AgentTaskRequest> = Vec::new();
    let mut i: usize = 0;
    while i < n
        invariant
            n == request.agent_run_configs.len(),
            req == request@,
            parent == opt_text(*parent_run_id),
            i <= n,
            opt_text(environment_uid) == environment_uid_of(req.execution_mode),
            base@ == base_snapshot(req),
            calls@.len() == i,
            forall|j: int|
                0 <= j < i ==> (#[trigger] calls@[j])@ == child_call(
                    req,
                    parent,
                    req.agent_run_configs[j],
                ),
        decreases n - i,
    {
        let cfg = &request.agent_run_configs[i];
        let mut snapshot = clone_snapshot(&base);
        snapshot.name = Some(cfg.name.clone());
        let call = AgentTaskRequest {
            prompt: compose_prompt(request.base_prompt.as_str(), cfg.prompt.as_str()),
            environment_uid: clone_opt_text(&environment_uid),
            parent_run_id: clone_opt_text(parent_run_id),
            config: Some(snapshot),
        };
        assert(req.agent_run_configs[i as int] == cfg@);
        assert(call@ =~= child_call(req, parent, req.agent_run_configs[i as int]));
        calls.push(call);
        i = i + 1;
    }
    assert(calls@.map_values(|c: AgentTaskRequest| c@) =~= planned_calls(req, parent));
    Ok(calls)
}

/// The launched result of a dispatch, from the replies to the calls of
/// [`plan_dispatch`], given in the order of the calls: one outcome per
/// child, in input order (see [`launched_result`]).
pub fn collect_outcomes(
    request: &OrchestrateRequest,
    replies: &Vec<Result<AmbientAgentTaskId, String>>,
) -> (r: OrchestrateResult)
    requires
        replies.len() == request.agent_run_configs.len(),
    ensures
        r@ == launched_result(request@, replies_view(replies@)),
{
    let n = request.agent_run_configs.len();
    let ghost req = request@;
    let ghost rv = replies_view(replies@);
    let mut agents: Vec<OrchestrateAgentOutcome> = Vec::new();
    let mut i: usize = 0;
    while i < n
        invariant
            n == request.agent_run_configs.len(),
            n == replies.len(),
            req == request@,
            rv == replies_view(replies@),
            i <= n,
            agents@.len() == i,
            forall|j: int|
                0 <= j < i ==> (#[trigger] agents@[j])@ == (OutcomeView {
                    name: req.agent_run_configs[j].name,
                    title: req.agent_run_configs[j].title,
                    kind: outcome_kind(rv[j]),
                }),
        decreases n - i,
    {
        let cfg = &request.agent_run_configs[i];
        let kind = match &replies[i] {
            Ok(task_id) => OrchestrateAgentOutcomeKind::Launched { agent_id: task_id.to_string() },
            Err(error) => OrchestrateAgentOutcomeKind::Failed { error: error.clone() },
        };
        let outcome = OrchestrateAgentOutcome {
            name: cfg.name.clone(),
            title: cfg.title.clone(),
            kind,
        };
        assert(req.agent_run_configs[i as int] == cfg@);
        assert(rv[i as int] == reply_view(replies@[i as int]));
        agents.push(outcome);
        i = i + 1;
    }
    let r = OrchestrateResult::Launched {
        model_id: request.model_id.clone(),
        harness_type: request.harness_type.clone(),
        execution_mode: launched_execution_mode(&request.execution_mode),
        agents,
    };
    assert(r@ =~= launched_result(req, rv));
    r
}

/// One call and one outcome per child, in input order: a dispatch issues
/// exactly one task creation call per child, the call of child `i` carrying
/// the run-wide configuration under that child's name; and its launched
/// result reports exactly one outcome per child, the outcome of child `i`
/// under that child's name and title and made of the reply to the call of
/// child `i`, whatever order the replies arrived in. A failed call stays a
/// failed outcome inside the launched result, beside its launched siblings.
pub proof fn lemma_one_outcome_per_child_in_input_order(
    req: RequestView,
    parent_run_id: Option<Seq<char>>,
    replies: Seq<Result<Seq<char>, Seq<char>>>,
)
    requires
        replies.len() == req.agent_run_configs.len(),
    ensures
        planned_calls(req, parent_run_id).len() == req.agent_run_configs.len(),
        forall|i: int|
            0 <= i < req.agent_run_configs.len() ==> {
                let call = #[trigger] planned_calls(req, parent_run_id)[i];
                &&& call.config matches Some(c) && c.name == Some(req.agent_run_configs[i].name)
                &&& call.parent_run_id == parent_run_id
            },
        launched_result(req, replies) matches ResultView::Launched {
            agents,
            execution_mode,
            model_id,
            harness_type,
        } && agents.len() == req.agent_run_configs.len() && execution_mode == req.execution_mode
            && model_id == req.model_id && harness_type == req.harness_type
            && forall|i: int|
            0 <= i < agents.len() ==> {
                &&& (#[trigger] agents[i]).name == req.agent_run_configs[i].name
                &&& agents[i].title == req.agent_run_configs[i].title
                &&& (replies[i] matches Ok(id) ==> agents[i].kind == (OutcomeKindView::Launched {
                    agent_id: id,
                }))
                &&& (replies[i] matches Err(e) ==> agents[i].kind == (OutcomeKindView::Failed {
                    error: e,
                }))
            },
{
}

} // verus!

verus! {

/// A child's prompt never drops the child's own prompt: whenever the
/// per-agent prompt is not blank it ends the composed prompt, and when the
/// base prompt is blank (empty, in particular) it is the whole of it. A
/// base prompt that is not blank likewise begins the composed prompt, and
/// is the whole of it when the per-agent prompt is blank; when both are
/// not blank, exactly a blank line ("\n\n") stands between them; and two
/// blank prompts compose to nothing.
pub proof fn lemma_composed_prompt_keeps_both_parts(base: Seq<char>, per_agent: Seq<char>)
    ensures
        ({
            let p = composed_prompt(base, per_agent);
            &&& !is_blank(per_agent) ==> p.len() >= per_agent.len() && p.subrange(
                p.len() - per_agent.len(),
                p.len() as int,
            ) == per_agent
            &&& !is_blank(per_agent) && is_blank(base) ==> p == per_agent
            &&& !is_blank(base) ==> p.len() >= base.len() && p.subrange(0, base.len() as int)
                == base
            &&& !is_blank(base) && is_blank(per_agent) ==> p == base
            &&& !is_blank(base) && !is_blank(per_agent) ==> {
                &&& p.len() == base.len() + 2 + per_agent.len()
                &&& p[base.len() as int] == '\n'
                &&& p[base.len() + 1int] == '\n'
            }
            &&& is_blank(base) && is_blank(per_agent) ==> p.len() == 0
        }),
{
    reveal_strlit("\n\n");
    let p = composed_prompt(base, per_agent);
    if !is_blank(base) && !is_blank(per_agent) {
        assert(p == base + "\n\n"@ + per_agent);
        assert(p.subrange(p.len() - per_agent.len(), p.len() as int) =~= per_agent);
        assert(p.subrange(0, base.len() as int) =~= base);
    } else if !is_blank(base) {
        assert(p.subrange(0, base.len() as int) =~= base);
    } else if !is_blank(per_agent) {
        assert(p.subrange(p.len() - per_agent.len(), p.len() as int) =~= per_agent);
    }
}

/// Every planned call records the run-wide configuration, whatever the
/// execution mode: the requested harness type and model whenever they are
/// set (and none when they are empty), the child's own name, and the
/// orchestrator's run, and nothing else. A local run records no
/// environment, worker host or computer-use flag and runs in no cloud
/// environment; a remote run records its computer-use flag, and its
/// environment id and worker host exactly when they are set, and runs in
/// its environment unless that id is blank.
pub proof fn lemma_every_call_records_the_run_configuration(
    req: RequestView,
    parent_run_id: Option<Seq<char>>,
    i: int,
)
    requires
        0 <= i < req.agent_run_configs.len(),
    ensures
        planned_calls(req, parent_run_id)[i].config matches Some(c) && {
            &&& c.name == Some(req.agent_run_configs[i].name)
            &&& (req.harness_type.len() > 0 ==> c.harness == Some(req.harness_type))
            &&& (req.harness_type.len() == 0 ==> c.harness is None)
            &&& (req.model_id.len() > 0 ==> c.model_id == Some(req.model_id))
            &&& (req.model_id.len() == 0 ==> c.model_id is None)
            &&& c.base_prompt is None && c.mcp_servers is None && c.profile_id is None
            &&& c.skill_spec is None && c.harness_auth_secrets is None
            &&& (req.execution_mode is Local ==> c.environment_id is None && c.worker_host is None
                && c.computer_use_enabled is None)
            &&& (req.execution_mode matches ExecutionModeView::Remote {
                environment_id,
                worker_host,
                computer_use_enabled,
            } ==> {
                &&& c.computer_use_enabled == Some(computer_use_enabled)
                &&& (environment_id.len() > 0 ==> c.environment_id == Some(environment_id))
                &&& (environment_id.len() == 0 ==> c.environment_id is None)
                &&& (worker_host.len() > 0 ==> c.worker_host == Some(worker_host))
                &&& (worker_host.len() == 0 ==> c.worker_host is None)
            })
        },
        planned_calls(req, parent_run_id)[i].parent_run_id == parent_run_id,
        req.execution_mode is Local ==> planned_calls(req, parent_run_id)[i].environment_uid is None,
        req.execution_mode matches ExecutionModeView::Remote { environment_id, .. } ==> {
            &&& !is_blank(environment_id) ==> planned_calls(req, parent_run_id)[i].environment_uid
                == Some(environment_id)
            &&& is_blank(environment_id) ==> planned_calls(
                req,
                parent_run_id,
            )[i].environment_uid is None
        },
        planned_calls(req, parent_run_id)[i].prompt == composed_prompt(
            req.base_prompt,
            req.agent_run_configs[i].prompt,
        ),
{
}

} // verus!
