//! The dispatch of an orchestrate tool call, driven by a scripted client:
//! the client answers each planned task creation call, and the replies are
//! handed back in the order of the calls.
use std::cell::Cell;

use orchestrate::dispatch::{collect_outcomes, failure_result, plan_dispatch};
use orchestrate::model::{
    AgentTaskRequest, OrchestrateAgentOutcomeKind, OrchestrateAgentRunConfig,
    OrchestrateExecutionMode, OrchestrateLaunchedExecutionMode, OrchestrateRequest,
    OrchestrateResult,
};
use orchestrate::task_id::{task_id, AmbientAgentTaskId};

fn run_config(name: &str) -> OrchestrateAgentRunConfig {
    OrchestrateAgentRunConfig {
        name: name.to_string(),
        prompt: format!("per-agent prompt for {name}"),
        title: format!("{name} title"),
    }
}

fn base_request_local(names: &[&str]) -> OrchestrateRequest {
    OrchestrateRequest {
        summary: "test orchestrate".to_string(),
        base_prompt: "base prompt".to_string(),
        skills: Vec::new(),
        model_id: "auto".to_string(),
        harness_type: "oz".to_string(),
        execution_mode: OrchestrateExecutionMode::Local,
        agent_run_configs: names.iter().copied().map(run_config).collect(),
        auto_launch: false,
    }
}

/// Plans the dispatch, answers every call with `client` (counting the
/// calls), and collects the outcomes.
fn dispatch(
    request: OrchestrateRequest,
    parent_run_id: Option<String>,
    calls_made: &Cell<usize>,
    client: impl Fn(&AgentTaskRequest) -> Result<AmbientAgentTaskId, String>,
) -> OrchestrateResult {
    match plan_dispatch(&request, &parent_run_id) {
        Err(failure) => failure,
        Ok(calls) => {
            let replies: Vec<Result<AmbientAgentTaskId, String>> = calls
                .iter()
                .map(|call| {
                    calls_made.set(calls_made.get() + 1);
                    client(call)
                })
                .collect();
            collect_outcomes(&request, &replies)
        }
    }
}

const ALPHA: &str = "11111111-1111-4111-8111-111111111111";
const BRAVO: &str = "22222222-2222-4222-8222-222222222222";
const CHARLIE: &str = "33333333-3333-4333-8333-333333333333";

#[test]
fn n_children_all_succeed_returns_launched_with_input_order() {
    let calls = Cell::new(0);
    let alpha_id = task_id(ALPHA);
    let bravo_id = task_id(BRAVO);
    let charlie_id = task_id(CHARLIE);

    let result = dispatch(
        base_request_local(&["alpha", "bravo", "charlie"]),
        Some("parent-run".to_string()),
        &calls,
        |call| {
            assert!(call.prompt.starts_with("base prompt\n\n"));
            assert_eq!(
                call.environment_uid, None,
                "Local execution_mode → no environment_uid"
            );
            assert_eq!(call.parent_run_id, Some("parent-run".to_string()));
            let cfg = call.config.clone().expect("config snapshot is always set");
            let name = cfg.name.expect("per-child name set on snapshot");
            match name.as_str() {
                "alpha" => Ok(task_id(ALPHA)),
                "bravo" => Ok(task_id(BRAVO)),
                "charlie" => Ok(task_id(CHARLIE)),
                _ => unreachable!("unexpected child name {name}"),
            }
        },
    );
    assert_eq!(calls.get(), 3);

    let OrchestrateResult::Launched {
        execution_mode,
        agents,
        model_id,
        harness_type,
    } = result
    else {
        panic!("expected Launched, got {result:?}");
    };

    assert_eq!(model_id, "auto");
    assert_eq!(harness_type, "oz");
    assert!(matches!(
        execution_mode,
        OrchestrateLaunchedExecutionMode::Local
    ));
    assert_eq!(agents.len(), 3);
    assert_eq!(agents[0].name, "alpha");
    assert_eq!(agents[1].name, "bravo");
    assert_eq!(agents[2].name, "charlie");
    assert!(matches!(
        agents[0].kind,
        OrchestrateAgentOutcomeKind::Launched { ref agent_id } if agent_id == &alpha_id.to_string()
    ));
    assert!(matches!(
        agents[1].kind,
        OrchestrateAgentOutcomeKind::Launched { ref agent_id } if agent_id == &bravo_id.to_string()
    ));
    assert!(matches!(
        agents[2].kind,
        OrchestrateAgentOutcomeKind::Launched { ref agent_id } if agent_id == &charlie_id.to_string()
    ));
}

#[test]
fn mid_batch_failure_reports_mixed_outcomes_in_input_order() {
    let calls = Cell::new(0);
    let result = dispatch(
        base_request_local(&["alpha", "bravo", "charlie"]),
        None,
        &calls,
        |call| {
            let name = call
                .config
                .clone()
                .expect("snapshot")
                .name
                .expect("per-child name on snapshot");
            match name.as_str() {
                "alpha" => Ok(task_id("aaaaaaaa-aaaa-4aaa-8aaa-aaaaaaaaaaaa")),
                "bravo" => Err("synthetic mid-batch failure".to_string()),
                "charlie" => Ok(task_id("cccccccc-cccc-4ccc-8ccc-cccccccccccc")),
                _ => unreachable!("unexpected child {name}"),
            }
        },
    );
    assert_eq!(calls.get(), 3);

    let OrchestrateResult::Launched { agents, .. } = result else {
        panic!("expected Launched even on partial failure, got {result:?}");
    };
    assert_eq!(agents.len(), 3);
    assert_eq!(agents[0].name, "alpha");
    assert!(matches!(
        agents[0].kind,
        OrchestrateAgentOutcomeKind::Launched { .. }
    ));
    assert_eq!(agents[1].name, "bravo");
    let OrchestrateAgentOutcomeKind::Failed { ref error } = agents[1].kind else {
        panic!("bravo should be Failed, got {:?}", agents[1].kind);
    };
    assert!(error.contains("synthetic mid-batch failure"));
    assert_eq!(agents[2].name, "charlie");
    assert!(matches!(
        agents[2].kind,
        OrchestrateAgentOutcomeKind::Launched { .. }
    ));
}

#[test]
fn m_zero_all_failed_returns_launched_with_all_failed_outcomes() {
    let calls = Cell::new(0);
    let result = dispatch(
        base_request_local(&["alpha", "bravo"]),
        None,
        &calls,
        |_call| Err("transient backend error".to_string()),
    );
    assert_eq!(calls.get(), 2);

    let OrchestrateResult::Launched { agents, .. } = result else {
        panic!("M=0 should still produce Launched (with all-failed outcomes)");
    };
    assert_eq!(agents.len(), 2);
    assert_eq!(agents[0].name, "alpha");
    assert_eq!(agents[1].name, "bravo");
    assert!(matches!(
        agents[0].kind,
        OrchestrateAgentOutcomeKind::Failed { .. }
    ));
    assert!(matches!(
        agents[1].kind,
        OrchestrateAgentOutcomeKind::Failed { .. }
    ));
}

#[test]
fn pre_dispatch_failure_returns_failure_variant() {
    let result = failure_result("could not begin the launch sequence");
    let OrchestrateResult::Failure { error } = result else {
        panic!("expected Failure variant");
    };
    assert_eq!(error, "could not begin the launch sequence");
}

#[test]
fn empty_agent_run_configs_returns_failure_defensively() {
    let request = OrchestrateRequest {
        summary: "empty".to_string(),
        base_prompt: "base".to_string(),
        skills: Vec::new(),
        model_id: String::new(),
        harness_type: String::new(),
        execution_mode: OrchestrateExecutionMode::Local,
        agent_run_configs: Vec::new(),
        auto_launch: false,
    };
    let calls = Cell::new(0);
    let result = dispatch(request, None, &calls, |_call| {
        panic!("create_agent_task must never be called")
    });
    assert_eq!(calls.get(), 0);
    assert!(matches!(result, OrchestrateResult::Failure { .. }));
}

#[test]
fn remote_execution_mode_propagates_environment_id_and_worker_host() {
    let calls = Cell::new(0);
    let request = OrchestrateRequest {
        summary: "remote".to_string(),
        base_prompt: "base".to_string(),
        skills: Vec::new(),
        model_id: "opus-4-6-high".to_string(),
        harness_type: "oz".to_string(),
        execution_mode: OrchestrateExecutionMode::Remote {
            environment_id: "env-123".to_string(),
            worker_host: "host-abc".to_string(),
            computer_use_enabled: true,
        },
        agent_run_configs: vec![run_config("solo")],
        auto_launch: false,
    };

    let result = dispatch(request, None, &calls, |call| {
        assert_eq!(call.environment_uid, Some("env-123".to_string()));
        let snapshot = call.config.clone().expect("snapshot");
        assert_eq!(snapshot.worker_host, Some("host-abc".to_string()));
        assert_eq!(snapshot.computer_use_enabled, Some(true));
        Ok(task_id("44444444-4444-4444-8444-444444444444"))
    });
    assert_eq!(calls.get(), 1);
    let OrchestrateResult::Launched {
        execution_mode,
        agents,
        ..
    } = result
    else {
        panic!("expected Launched");
    };
    let OrchestrateLaunchedExecutionMode::Remote {
        environment_id,
        worker_host,
        computer_use_enabled,
    } = execution_mode
    else {
        panic!("expected Remote execution mode in Launched result");
    };
    assert_eq!(environment_id, "env-123");
    assert_eq!(worker_host, "host-abc");
    assert!(computer_use_enabled);
    assert_eq!(agents.len(), 1);
    assert_eq!(agents[0].name, "solo");
}
