//! The data of an orchestrate tool call: the request the model issued, the
//! per-agent task creation calls derived from it, and the terminal result.
use vstd::prelude::*;

use crate::task_id::AmbientAgentTaskId;

verus! {

/// The view of an optional text.
pub open spec fn opt_text(o: Option<String>) -> Option<Seq<char>> {
    match o {
        Some(s) => Some(s@),
        None => None,
    }
}

/// One child agent of an orchestration: its name, its own prompt and a display title.
#[derive(Clone, Debug)]
pub struct OrchestrateAgentRunConfig {
    pub name: String,
    pub prompt: String,
    pub title: String,
}

#[verifier::ext_equal]
pub struct RunConfigView {
    pub name: Seq<char>,
    pub prompt: Seq<char>,
    pub title: Seq<char>,
}

impl View for OrchestrateAgentRunConfig {
    type V = RunConfigView;

    open spec fn view(&self) -> RunConfigView {
        RunConfigView { name: self.name@, prompt: self.prompt@, title: self.title@ }
    }
}

/// Where the children of an orchestration run.
#[derive(Clone, Debug)]
pub enum OrchestrateExecutionMode {
    Local,
    Remote { environment_id: String, worker_host: String, computer_use_enabled: bool },
}

/// The view of an execution mode, requested or launched.
#[verifier::ext_equal]
pub enum ExecutionModeView {
    Local,
    Remote { environment_id: Seq<char>, worker_host: Seq<char>, computer_use_enabled: bool },
}

impl View for OrchestrateExecutionMode {
    type V = ExecutionModeView;

    open spec fn view(&self) -> ExecutionModeView {
        match self {
            OrchestrateExecutionMode::Local => ExecutionModeView::Local,
            OrchestrateExecutionMode::Remote { environment_id, worker_host, computer_use_enabled } =>
                ExecutionModeView::Remote {
                environment_id: environment_id@,
                worker_host: worker_host@,
                computer_use_enabled: *computer_use_enabled,
            },
        }
    }
}

impl OrchestrateExecutionMode {
    /// Whether the children run in the cloud.
    pub fn is_remote(&self) -> (r: bool)
        ensures
            r == (self@ is Remote),
    {
        match self {
            OrchestrateExecutionMode::Local => false,
            OrchestrateExecutionMode::Remote { .. } => true,
        }
    }
}

/// The payload of an orchestrate tool call.
#[derive(Clone, Debug)]
pub struct OrchestrateRequest {
    pub summary: String,
    pub base_prompt: String,
    pub skills: Vec<String>,
    pub model_id: String,
    pub harness_type: String,
    pub execution_mode: OrchestrateExecutionMode,
    pub agent_run_configs: Vec<OrchestrateAgentRunConfig>,
    pub auto_launch: bool,
}

#[verifier::ext_equal]
pub struct RequestView {
    pub summary: Seq<char>,
    pub base_prompt: Seq<char>,
    pub skills: Seq<Seq<char>>,
    pub model_id: Seq<char>,
    pub harness_type: Seq<char>,
    pub execution_mode: ExecutionModeView,
    pub agent_run_configs: Seq<RunConfigView>,
    pub auto_launch: bool,
}

impl View for OrchestrateRequest {
    type V = RequestView;

    open spec fn view(&self) -> RequestView {
        RequestView {
            summary: self.summary@,
            base_prompt: self.base_prompt@,
            skills: self.skills@.map_values(|s: String| s@),
            model_id: self.model_id@,
            harness_type: self.harness_type@,
            execution_mode: self.execution_mode@,
            agent_run_configs: self.agent_run_configs@.map_values(
                |c: OrchestrateAgentRunConfig| c@,
            ),
            auto_launch: self.auto_launch,
        }
    }
}

/// The harness a child agent runs under, named by its harness type.
#[derive(Clone, Debug)]
pub struct HarnessConfig {
    pub harness_type: String,
}

/// The run-wide configuration recorded on each child task.
#[derive(Clone, Debug)]
pub struct AgentConfigSnapshot {
    pub name: Option<String>,
    pub environment_id: Option<String>,
    pub model_id: Option<String>,
    pub base_prompt: Option<String>,
    pub mcp_servers: Option<String>,
    pub profile_id: Option<String>,
    pub worker_host: Option<String>,
    pub skill_spec: Option<String>,
    pub computer_use_enabled: Option<bool>,
    pub harness: Option<HarnessConfig>,
    pub harness_auth_secrets: Option<String>,
}

#[verifier::ext_equal]
pub struct SnapshotView {
    pub name: Option<Seq<char>>,
    pub environment_id: Option<Seq<char>>,
    pub model_id: Option<Seq<char>>,
    pub base_prompt: Option<Seq<char>>,
    pub mcp_servers: Option<Seq<char>>,
    pub profile_id: Option<Seq<char>>,
    pub worker_host: Option<Seq<char>>,
    pub skill_spec: Option<Seq<char>>,
    pub computer_use_enabled: Option<bool>,
    /// The harness type of the harness, where there is one.
    pub harness: Option<Seq<char>>,
    pub harness_auth_secrets: Option<Seq<char>>,
}

impl View for AgentConfigSnapshot {
    type V = SnapshotView;

    open spec fn view(&self) -> SnapshotView {
        SnapshotView {
            name: opt_text(self.name),
            environment_id: opt_text(self.environment_id),
            model_id: opt_text(self.model_id),
            base_prompt: opt_text(self.base_prompt),
            mcp_servers: opt_text(self.mcp_servers),
            profile_id: opt_text(self.profile_id),
            worker_host: opt_text(self.worker_host),
            skill_spec: opt_text(self.skill_spec),
            computer_use_enabled: self.computer_use_enabled,
            harness: match self.harness {
                Some(h) => Some(h.harness_type@),
                None => None,
            },
            harness_auth_secrets: opt_text(self.harness_auth_secrets),
        }
    }
}

/// The arguments of one task creation call: the child's prompt, the cloud
/// environment it runs in, the orchestrator's run it links back to, and the
/// configuration recorded on it.
#[derive(Clone, Debug)]
pub struct AgentTaskRequest {
    pub prompt: String,
    pub environment_uid: Option<String>,
    pub parent_run_id: Option<String>,
    pub config: Option<AgentConfigSnapshot>,
}

#[verifier::ext_equal]
pub struct TaskRequestView {
    pub prompt: Seq<char>,
    pub environment_uid: Option<Seq<char>>,
    pub parent_run_id: Option<Seq<char>>,
    pub config: Option<SnapshotView>,
}

impl View for AgentTaskRequest {
    type V = TaskRequestView;

    open spec fn view(&self) -> TaskRequestView {
        TaskRequestView {
            prompt: self.prompt@,
            environment_uid: opt_text(self.environment_uid),
            parent_run_id: opt_text(self.parent_run_id),
            config: match self.config {
                Some(c) => Some(c@),
                None => None,
            },
        }
    }
}

/// The execution mode that a launched orchestration reports.
#[derive(Clone, Debug)]
pub enum OrchestrateLaunchedExecutionMode {
    Local,
    Remote { environment_id: String, worker_host: String, computer_use_enabled: bool },
}

impl View for OrchestrateLaunchedExecutionMode {
    type V = ExecutionModeView;

    open spec fn view(&self) -> ExecutionModeView {
        match self {
            OrchestrateLaunchedExecutionMode::Local => ExecutionModeView::Local,
            OrchestrateLaunchedExecutionMode::Remote {
                environment_id,
                worker_host,
                computer_use_enabled,
            } => ExecutionModeView::Remote {
                environment_id: environment_id@,
                worker_host: worker_host@,
                computer_use_enabled: *computer_use_enabled,
            },
        }
    }
}

/// What became of one child's task creation.
#[derive(Clone, Debug)]
pub enum OrchestrateAgentOutcomeKind {
    Launched { agent_id: String },
    Failed { error: String },
}

#[verifier::ext_equal]
pub enum OutcomeKindView {
    Launched { agent_id: Seq<char> },
    Failed { error: Seq<char> },
}

impl View for OrchestrateAgentOutcomeKind {
    type V = OutcomeKindView;

    open spec fn view(&self) -> OutcomeKindView {
        match self {
            OrchestrateAgentOutcomeKind::Launched { agent_id } => OutcomeKindView::Launched {
                agent_id: agent_id@,
            },
            OrchestrateAgentOutcomeKind::Failed { error } => OutcomeKindView::Failed {
                error: error@,
            },
        }
    }
}

/// One child's outcome, reported under its name and title.
#[derive(Clone, Debug)]
pub struct OrchestrateAgentOutcome {
    pub name: String,
    pub title: String,
    pub kind: OrchestrateAgentOutcomeKind,
}

#[verifier::ext_equal]
pub struct OutcomeView {
    pub name: Seq<char>,
    pub title: Seq<char>,
    pub kind: OutcomeKindView,
}

impl View for OrchestrateAgentOutcome {
    type V = OutcomeView;

    open spec fn view(&self) -> OutcomeView {
        OutcomeView { name: self.name@, title: self.title@, kind: self.kind@ }
    }
}

/// The terminal result of an orchestrate tool call.
#[derive(Clone, Debug)]
pub enum OrchestrateResult {
    Launched {
        model_id: String,
        harness_type: String,
        execution_mode: OrchestrateLaunchedExecutionMode,
        agents: Vec<OrchestrateAgentOutcome>,
    },
    LaunchDenied { reason: String },
    Failure { error: String },
    Cancelled,
}

#[verifier::ext_equal]
pub enum ResultView {
    Launched {
        model_id: Seq<char>,
        harness_type: Seq<char>,
        execution_mode: ExecutionModeView,
        agents: Seq<OutcomeView>,
    },
    LaunchDenied { reason: Seq<char> },
    Failure { error: Seq<char> },
    Cancelled,
}

impl View for OrchestrateResult {
    type V = ResultView;

    open spec fn view(&self) -> ResultView {
        match self {
            OrchestrateResult::Launched { model_id, harness_type, execution_mode, agents } =>
                ResultView::Launched {
                model_id: model_id@,
                harness_type: harness_type@,
                execution_mode: execution_mode@,
                agents: agents@.map_values(|a: OrchestrateAgentOutcome| a@),
            },
            OrchestrateResult::LaunchDenied { reason } => ResultView::LaunchDenied {
                reason: reason@,
            },
            OrchestrateResult::Failure { error } => ResultView::Failure { error: error@ },
            OrchestrateResult::Cancelled => ResultView::Cancelled,
        }
    }
}

/// The reply to one task creation call: the created task's id, or the
/// error's text.
pub open spec fn reply_view(r: Result<AmbientAgentTaskId, String>) -> Result<Seq<char>, Seq<char>> {
    match r {
        Ok(id) => Ok(id@),
        Err(e) => Err(e@),
    }
}

} // verus!
