//! Concrete cases of the library's contracts and laws.
use orchestrate::card::{
    agents_footer_lines, card_layout, editor_rows, mode_toggle_segments, title_row_buttons,
    CardAction, CardLayout, EditorRow, body_text, count_launched, edit_button_label, execution_mode_label,
    picker_label, streaming_placeholder_label, streaming_placeholder_status, summary_title, terminal_state_status,
    worker_host_label, StatusKind,
};
use orchestrate::dispatch::{
    build_base_snapshot, collect_outcomes, compose_prompt, environment_uid, failure_result,
    launched_execution_mode, plan_dispatch,
};
use orchestrate::model::{
    OrchestrateAgentOutcome, OrchestrateAgentOutcomeKind, OrchestrateAgentRunConfig,
    OrchestrateExecutionMode, OrchestrateLaunchedExecutionMode, OrchestrateRequest,
    OrchestrateResult,
};
use orchestrate::task_id::{task_id, AmbientAgentTaskId};
use orchestrate::text::{blank, push_char, push_decimal, white_space};

fn config(name: &str, prompt: &str) -> OrchestrateAgentRunConfig {
    OrchestrateAgentRunConfig {
        name: name.to_string(),
        prompt: prompt.to_string(),
        title: format!("{name} title"),
    }
}

fn request(base: &str, mode: OrchestrateExecutionMode, configs: Vec<OrchestrateAgentRunConfig>) -> OrchestrateRequest {
    OrchestrateRequest {
        summary: String::new(),
        base_prompt: base.to_string(),
        skills: Vec::new(),
        model_id: "m1".to_string(),
        harness_type: "oz".to_string(),
        execution_mode: mode,
        agent_run_configs: configs,
        auto_launch: true,
    }
}

fn remote(env: &str, host: &str, computer_use: bool) -> OrchestrateExecutionMode {
    OrchestrateExecutionMode::Remote {
        environment_id: env.to_string(),
        worker_host: host.to_string(),
        computer_use_enabled: computer_use,
    }
}

#[test]
fn prompt_joins_base_and_per_agent_with_a_blank_line() {
    assert_eq!(compose_prompt("base", "child"), "base\n\nchild");
}

#[test]
fn prompt_keeps_untrimmed_text() {
    assert_eq!(compose_prompt("  base ", " child\n"), "  base \n\n child\n");
}

#[test]
fn prompt_is_base_alone_when_per_agent_is_blank() {
    assert_eq!(compose_prompt("base ", " \t\n"), "base ");
}

#[test]
fn prompt_is_per_agent_alone_when_base_is_blank() {
    assert_eq!(compose_prompt("\u{3000}", "child"), "child");
}

#[test]
fn prompt_is_empty_when_both_are_blank() {
    assert_eq!(compose_prompt("  ", "\u{a0}"), "");
}

#[test]
fn whitespace_follows_the_unicode_property() {
    for c in ['\t', '\n', '\u{b}', '\u{c}', '\r', ' ', '\u{85}', '\u{a0}', '\u{1680}', '\u{2000}', '\u{200a}', '\u{2028}', '\u{2029}', '\u{202f}', '\u{205f}', '\u{3000}'] {
        assert!(white_space(c), "{c:?}");
        assert_eq!(white_space(c), c.is_whitespace());
    }
    for c in ['a', '0', '\u{200b}', '\u{feff}', '-', '\u{180e}'] {
        assert!(!white_space(c), "{c:?}");
        assert_eq!(white_space(c), c.is_whitespace());
    }
    assert!(blank(""));
    assert!(blank(" \t\u{2003}"));
    assert!(!blank(" x "));
}

#[test]
fn decimal_text_has_no_leading_zeros() {
    for n in [0usize, 7, 10, 42, 100, 9071, usize::MAX] {
        let mut s = String::from("n=");
        push_decimal(&mut s, n);
        assert_eq!(s, format!("n={n}"));
    }
    let mut s = String::from("a");
    push_char(&mut s, 'b');
    assert_eq!(s, "ab");
}

#[test]
fn environment_uid_is_set_only_for_a_non_blank_remote_environment() {
    assert_eq!(environment_uid(&OrchestrateExecutionMode::Local), None);
    assert_eq!(environment_uid(&remote("", "h", false)), None);
    assert_eq!(environment_uid(&remote("   ", "h", false)), None);
    assert_eq!(environment_uid(&remote(" env ", "h", false)), Some(" env ".to_string()));
}

#[test]
fn base_snapshot_records_the_run_wide_configuration() {
    let req = request("b", remote("env-1", "", false), vec![config("a", "p")]);
    let snapshot = build_base_snapshot(&req);
    assert_eq!(snapshot.name, None);
    assert_eq!(snapshot.environment_id, Some("env-1".to_string()));
    assert_eq!(snapshot.worker_host, None);
    assert_eq!(snapshot.computer_use_enabled, Some(false));
    assert_eq!(snapshot.model_id, Some("m1".to_string()));
    assert_eq!(snapshot.harness.map(|h| h.harness_type), Some("oz".to_string()));
    assert_eq!(snapshot.base_prompt, None);
    assert_eq!(snapshot.profile_id, None);

    let mut local = request("b", OrchestrateExecutionMode::Local, vec![]);
    local.model_id = String::new();
    local.harness_type = String::new();
    let snapshot = build_base_snapshot(&local);
    assert_eq!(snapshot.environment_id, None);
    assert_eq!(snapshot.worker_host, None);
    assert_eq!(snapshot.computer_use_enabled, None);
    assert_eq!(snapshot.model_id, None);
    assert!(snapshot.harness.is_none());
}

#[test]
fn blank_remote_environment_is_kept_on_the_snapshot_but_not_as_environment_uid() {
    let req = request("b", remote(" ", "host", true), vec![config("a", "p")]);
    let calls = plan_dispatch(&req, &None).expect("one child");
    assert_eq!(calls[0].environment_uid, None);
    let snapshot = calls[0].config.clone().expect("snapshot");
    assert_eq!(snapshot.environment_id, Some(" ".to_string()));
    assert_eq!(snapshot.worker_host, Some("host".to_string()));
}

#[test]
fn launched_mode_mirrors_the_requested_mode() {
    assert!(matches!(
        launched_execution_mode(&OrchestrateExecutionMode::Local),
        OrchestrateLaunchedExecutionMode::Local
    ));
    let OrchestrateLaunchedExecutionMode::Remote { environment_id, worker_host, computer_use_enabled } =
        launched_execution_mode(&remote("e", "w", true))
    else {
        panic!("expected Remote");
    };
    assert_eq!(environment_id, "e");
    assert_eq!(worker_host, "w");
    assert!(computer_use_enabled);
}

#[test]
fn plan_issues_one_call_per_child_in_input_order() {
    let req = request(
        "base",
        OrchestrateExecutionMode::Local,
        vec![config("a", "pa"), config("b", "  "), config("c", "pc")],
    );
    let calls = plan_dispatch(&req, &Some("run-9".to_string())).expect("three children");
    assert_eq!(calls.len(), 3);
    let prompts: Vec<&str> = calls.iter().map(|c| c.prompt.as_str()).collect();
    assert_eq!(prompts, vec!["base\n\npa", "base", "base\n\npc"]);
    for (call, name) in calls.iter().zip(["a", "b", "c"]) {
        assert_eq!(call.parent_run_id, Some("run-9".to_string()));
        assert_eq!(call.environment_uid, None);
        let snapshot = call.config.clone().expect("snapshot");
        assert_eq!(snapshot.name, Some(name.to_string()));
        assert_eq!(snapshot.model_id, Some("m1".to_string()));
    }
}

#[test]
fn plan_refuses_a_request_without_children() {
    let req = request("base", OrchestrateExecutionMode::Local, vec![]);
    let Err(OrchestrateResult::Failure { error }) = plan_dispatch(&req, &None) else {
        panic!("expected Failure");
    };
    assert_eq!(error, "orchestrate: empty agent_run_configs");
}

#[test]
fn outcomes_follow_the_children_not_the_replies() {
    let req = request("b", remote("env", "host", false), vec![config("x", "p"), config("y", "q")]);
    let replies = vec![
        Err("boom".to_string()),
        Ok(task_id("ABCDEF01-2345-6789-ABCD-EF0123456789")),
    ];
    let OrchestrateResult::Launched { model_id, harness_type, execution_mode, agents } =
        collect_outcomes(&req, &replies)
    else {
        panic!("expected Launched");
    };
    assert_eq!(model_id, "m1");
    assert_eq!(harness_type, "oz");
    assert!(matches!(execution_mode, OrchestrateLaunchedExecutionMode::Remote { .. }));
    assert_eq!(agents.len(), 2);
    assert_eq!(agents[0].name, "x");
    assert_eq!(agents[0].title, "x title");
    assert!(matches!(agents[0].kind, OrchestrateAgentOutcomeKind::Failed { ref error } if error == "boom"));
    assert_eq!(agents[1].name, "y");
    assert!(matches!(
        agents[1].kind,
        OrchestrateAgentOutcomeKind::Launched { ref agent_id } if agent_id == "abcdef01-2345-6789-abcd-ef0123456789"
    ));
}

#[test]
fn task_id_parses_hyphenated_uuids_and_lowers_their_case() {
    let id = AmbientAgentTaskId::from_str("ABCDEF01-2345-6789-abCD-ef0123456789").expect("uuid");
    assert_eq!(id.to_string(), "abcdef01-2345-6789-abcd-ef0123456789");
    let again = AmbientAgentTaskId::from_str(&id.to_string()).expect("round trip");
    assert_eq!(again.to_string(), id.to_string());
}

#[test]
fn task_id_rejects_other_texts() {
    for bad in [
        "",
        "11111111-1111-4111-8111-11111111111",
        "11111111-1111-4111-8111-1111111111111",
        "11111111_1111-4111-8111-111111111111",
        "111111111-111-4111-8111-111111111111",
        "1111111g-1111-4111-8111-111111111111",
        "{1111111-1111-4111-8111-111111111111}",
        "11111111111141118111111111111111",
        "1111111\u{e9}-1111-4111-8111-111111111111",
    ] {
        assert!(AmbientAgentTaskId::from_str(bad).is_err(), "{bad:?}");
    }
}

fn outcome(name: &str, launched: bool) -> OrchestrateAgentOutcome {
    OrchestrateAgentOutcome {
        name: name.to_string(),
        title: String::new(),
        kind: if launched {
            OrchestrateAgentOutcomeKind::Launched { agent_id: "id".to_string() }
        } else {
            OrchestrateAgentOutcomeKind::Failed { error: "e".to_string() }
        },
    }
}

fn launched(agents: Vec<OrchestrateAgentOutcome>) -> OrchestrateResult {
    OrchestrateResult::Launched {
        model_id: String::new(),
        harness_type: String::new(),
        execution_mode: OrchestrateLaunchedExecutionMode::Local,
        agents,
    }
}

#[test]
fn terminal_status_of_every_result() {
    let (label, kind) = terminal_state_status(&launched(vec![outcome("a", true), outcome("b", true)]));
    assert_eq!((label.as_str(), kind), ("Started 2 agent(s)", StatusKind::Success));
    let (label, kind) = terminal_state_status(&launched(vec![outcome("a", true), outcome("b", false), outcome("c", true)]));
    assert_eq!((label.as_str(), kind), ("Started 2 of 3 agent(s)", StatusKind::Mixed));
    let (label, kind) = terminal_state_status(&launched(vec![outcome("a", false), outcome("b", false)]));
    assert_eq!((label.as_str(), kind), ("Started 0 of 2 agent(s)", StatusKind::Mixed));
    let (label, kind) = terminal_state_status(&OrchestrateResult::LaunchDenied { reason: String::new() });
    assert_eq!(
        (label.as_str(), kind),
        ("Orchestration is currently disabled. Re-enable on the plan card to launch.", StatusKind::Cancelled)
    );
    let (label, _) = terminal_state_status(&OrchestrateResult::LaunchDenied { reason: "policy".to_string() });
    assert_eq!(label, "Orchestration is currently disabled. Re-enable on the plan card to launch. (policy)");
    let (label, kind) = terminal_state_status(&failure_result(""));
    assert_eq!((label.as_str(), kind), ("Failed to start orchestration", StatusKind::Failure));
    let (label, _) = terminal_state_status(&failure_result("no session"));
    assert_eq!(label, "Failed to start orchestration: no session");
    let (label, kind) = terminal_state_status(&OrchestrateResult::Cancelled);
    assert_eq!((label.as_str(), kind), ("Orchestration cancelled", StatusKind::Cancelled));
}

#[test]
fn started_m_of_n_counts_the_created_tasks() {
    let req = request("b", OrchestrateExecutionMode::Local, vec![config("a", "p"), config("b", "q"), config("c", "r")]);
    let replies = vec![
        Ok(task_id("11111111-1111-4111-8111-111111111111")),
        Err("down".to_string()),
        Ok(task_id("33333333-3333-4333-8333-333333333333")),
    ];
    let result = collect_outcomes(&req, &replies);
    let OrchestrateResult::Launched { agents, .. } = &result else {
        panic!("expected Launched");
    };
    assert_eq!(count_launched(agents), 2);
    assert_eq!(terminal_state_status(&result).0, "Started 2 of 3 agent(s)");
}

#[test]
fn streaming_and_title_labels() {
    assert_eq!(streaming_placeholder_label(0), "Preparing orchestration...");
    assert_eq!(streaming_placeholder_label(12), "Preparing orchestration for 12 agent(s)...");
    let (label, kind) = streaming_placeholder_status(3);
    assert_eq!((label.as_str(), kind), ("Preparing orchestration for 3 agent(s)...", StatusKind::Pending));
    let (label, kind) = streaming_placeholder_status(0);
    assert_eq!((label.as_str(), kind), ("Preparing orchestration...", StatusKind::Pending));
    assert_eq!(summary_title("", 3), "Orchestrate 3 agent(s)");
    assert_eq!(summary_title("Refactor", 3), "Refactor");
    assert_eq!(edit_button_label(true), "Done editing");
    assert_eq!(edit_button_label(false), "Edit");
    assert_eq!(picker_label("Model"), "Model:");
}

#[test]
fn body_and_mode_labels() {
    assert_eq!(execution_mode_label(&OrchestrateExecutionMode::Local), "Local");
    assert_eq!(execution_mode_label(&remote("", "h", false)), "Cloud (no environment selected)");
    assert_eq!(execution_mode_label(&remote("env-1", "h", false)), "Cloud \u{b7} environment=env-1");
    assert_eq!(
        body_text(2, &OrchestrateExecutionMode::Local, "", ""),
        "2 agent(s) \u{b7} Local \u{b7} default harness \u{b7} default model"
    );
    assert_eq!(
        body_text(1, &remote("e", "", true), "oz", "auto"),
        "1 agent(s) \u{b7} Cloud \u{b7} environment=e \u{b7} oz \u{b7} auto"
    );
}

#[test]
fn footer_lists_agents_in_input_order() {
    let lines = agents_footer_lines(&vec![config("alpha", ""), config("bravo", "")]);
    assert_eq!(lines, vec!["Agents (2)", "\u{2022} alpha", "\u{2022} bravo"]);
    assert_eq!(agents_footer_lines(&vec![]), vec!["Agents (0)"]);
}

#[test]
fn worker_host_line_defaults_to_warp() {
    assert_eq!(worker_host_label(""), "Worker host: warp (TODO: editable picker)");
    assert_eq!(worker_host_label("h1"), "Worker host: h1 (TODO: editable picker)");
}

#[test]
fn streaming_wins_over_any_status() {
    let failed = failure_result("x");
    let layout = card_layout(true, Some(Some(&failed)), 2, false, None);
    assert!(matches!(layout, CardLayout::Streaming { ref label } if label == "Preparing orchestration for 2 agent(s)..."));
    let layout = card_layout(true, None, 0, true, Some("blocked"));
    assert!(matches!(layout, CardLayout::Streaming { ref label } if label == "Preparing orchestration..."));
}

#[test]
fn finished_results_route_to_their_cards() {
    let cancelled = OrchestrateResult::Cancelled;
    let layout = card_layout(false, Some(Some(&cancelled)), 1, false, None);
    assert!(matches!(
        layout,
        CardLayout::Terminal { ref label, kind: StatusKind::Cancelled } if label == "Orchestration cancelled"
    ));
    assert!(matches!(card_layout(false, Some(None), 1, true, Some("r")), CardLayout::Unexpected));
}

#[test]
fn confirmation_card_carries_editor_and_validation_error() {
    let layout = card_layout(false, None, 1, true, Some("Pick an environment"));
    assert!(matches!(
        layout,
        CardLayout::Confirmation { editor_open: true, validation_error: Some(ref e) } if e == "Pick an environment"
    ));
    assert!(matches!(
        card_layout(false, None, 1, false, None),
        CardLayout::Confirmation { editor_open: false, validation_error: None }
    ));
}

#[test]
fn title_row_has_reject_edit_accept_in_order() {
    let buttons = title_row_buttons(false, false);
    let seen: Vec<(&str, CardAction, bool)> =
        buttons.iter().map(|b| (b.label.as_str(), b.action, b.enabled)).collect();
    assert_eq!(
        seen,
        vec![
            ("Reject", CardAction::Reject, true),
            ("Edit", CardAction::ToggleEdit, true),
            ("Accept", CardAction::Accept, true),
        ]
    );
    let buttons = title_row_buttons(true, true);
    assert_eq!(buttons[1].label, "Done editing");
    assert_eq!(buttons[2].action, CardAction::Accept);
    assert!(!buttons[2].enabled);
    assert!(buttons[0].enabled && buttons[1].enabled);
}

#[test]
fn toggle_segments_switch_between_local_and_cloud() {
    let segments = mode_toggle_segments(true);
    let seen: Vec<(&str, bool, CardAction)> =
        segments.iter().map(|s| (s.label.as_str(), s.active, s.action)).collect();
    assert_eq!(
        seen,
        vec![("Local", false, CardAction::SetRemote(false)), ("Cloud", true, CardAction::SetRemote(true))]
    );
    let segments = mode_toggle_segments(false);
    assert!(segments[0].active && !segments[1].active);
}

fn describe(rows: &[EditorRow]) -> Vec<String> {
    rows.iter()
        .map(|row| match row {
            EditorRow::ModeToggle { label, cloud_active } => format!("{label} cloud={cloud_active}"),
            EditorRow::Picker { label } => label.clone(),
            EditorRow::WorkerHost { text } => text.clone(),
        })
        .collect()
}

#[test]
fn local_editor_has_no_environment_or_worker_host_rows() {
    let rows = editor_rows(&OrchestrateExecutionMode::Local, true, true, true);
    assert_eq!(describe(&rows), vec!["Run on: cloud=false", "Model:", "Harness:"]);
    let rows = editor_rows(&OrchestrateExecutionMode::Local, false, true, false);
    assert_eq!(describe(&rows), vec!["Run on: cloud=false", "Harness:"]);
}

#[test]
fn remote_editor_adds_environment_picker_and_worker_host() {
    let rows = editor_rows(&remote("env", "", false), true, false, true);
    assert_eq!(
        describe(&rows),
        vec!["Run on: cloud=true", "Model:", "Environment:", "Worker host: warp (TODO: editable picker)"]
    );
    let rows = editor_rows(&remote("env", "h2", false), false, false, false);
    assert_eq!(describe(&rows), vec!["Run on: cloud=true", "Worker host: h2 (TODO: editable picker)"]);
}
