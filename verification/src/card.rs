//! What the card of an orchestrate tool call shows and decides: which card
//! is shown (streaming placeholder, terminal status line or confirmation
//! card), the title row's buttons, the inline editor's rows, and every text
//! on them.
use vstd::prelude::*;

use crate::dispatch::{launched_result, outcome_kind};
use crate::model::{
    ExecutionModeView, OrchestrateAgentOutcome, OrchestrateAgentOutcomeKind, OrchestrateAgentRunConfig,
    OrchestrateExecutionMode, OrchestrateResult, OutcomeView, RequestView, ResultView,
    RunConfigView,
};
use crate::text::{decimal, push_decimal};

verus! {

/// The icon that a status line carries.
#[derive(PartialEq, Eq, Structural, Clone, Copy, Debug)]
pub enum StatusKind {
    Pending,
    Success,
    Mixed,
    Failure,
    Cancelled,
}

/// The number of children that were launched.
pub open spec fn launched_count(agents: Seq<OutcomeView>) -> nat
    decreases agents.len(),
{
    if agents.len() == 0 {
        0
    } else {
        launched_count(agents.drop_last()) + if agents.last().kind is Launched {
            1nat
        } else {
            0nat
        }
    }
}

pub open spec fn denied_text() -> Seq<char> {
    "Orchestration is currently disabled. Re-enable on the plan card to launch."@
}

pub open spec fn failed_text() -> Seq<char> {
    "Failed to start orchestration"@
}

/// The status line of a terminal result and its icon:
/// - launched: "Started N agent(s)" with success when every child was
///   launched, else "Started M of N agent(s)" with a mixed icon;
/// - launch denied: the disabled notice, with the reason in brackets when
///   there is one;
/// - failure: "Failed to start orchestration", with the error after a colon
///   when there is one;
/// - cancelled: "Orchestration cancelled".
pub open spec fn terminal_status(r: ResultView) -> (Seq<char>, StatusKind) {
    match r {
        ResultView::Launched { agents, .. } => {
            let total = agents.len();
            let launched = launched_count(agents);
            if launched == total {
                ("Started "@ + decimal(total) + " agent(s)"@, StatusKind::Success)
            } else {
                (
                    "Started "@ + decimal(launched) + " of "@ + decimal(total) + " agent(s)"@,
                    StatusKind::Mixed,
                )
            }
        },
        ResultView::LaunchDenied { reason } => if reason.len() == 0 {
            (denied_text(), StatusKind::Cancelled)
        } else {
            (denied_text() + " ("@ + reason + ")"@, StatusKind::Cancelled)
        },
        ResultView::Failure { error } => if error.len() == 0 {
            (failed_text(), StatusKind::Failure)
        } else {
            (failed_text() + ": "@ + error, StatusKind::Failure)
        },
        ResultView::Cancelled => ("Orchestration cancelled"@, StatusKind::Cancelled),
    }
}

/// The status line shown while the tool call streams in (its icon is the
/// pending one: see [`streaming_placeholder_status`]).
pub open spec fn streaming_label(agent_count: nat) -> Seq<char> {
    if agent_count == 0 {
        "Preparing orchestration..."@
    } else {
        "Preparing orchestration for "@ + decimal(agent_count) + " agent(s)..."@
    }
}

/// The card's title: the request's summary, or a count of the agents when
/// the summary is empty.
pub open spec fn summary_title_text(summary: Seq<char>, agent_count: nat) -> Seq<char> {
    if summary.len() == 0 {
        "Orchestrate "@ + decimal(agent_count) + " agent(s)"@
    } else {
        summary
    }
}

/// How the body names the execution mode.
pub open spec fn mode_label(mode: ExecutionModeView) -> Seq<char> {
    match mode {
        ExecutionModeView::Local => "Local"@,
        ExecutionModeView::Remote { environment_id, .. } => if environment_id.len() == 0 {
            "Cloud (no environment selected)"@
        } else {
            "Cloud \u{b7} environment="@ + environment_id
        },
    }
}

/// The body line: the agent count, the execution mode, the harness and the
/// model, the last two with a default name when unset.
pub open spec fn body_line(
    agent_count: nat,
    mode: ExecutionModeView,
    harness_type: Seq<char>,
    model_id: Seq<char>,
) -> Seq<char> {
    let harness = if harness_type.len() == 0 {
        "default harness"@
    } else {
        harness_type
    };
    let model = if model_id.len() == 0 {
        "default model"@
    } else {
        model_id
    };
    decimal(agent_count) + " agent(s) \u{b7} "@ + mode_label(mode) + " \u{b7} "@ + harness
        + " \u{b7} "@ + model
}

/// The agent list: a heading with the count, then one bulleted line per
/// agent name, in input order.
pub open spec fn footer_lines(configs: Seq<RunConfigView>) -> Seq<Seq<char>> {
    seq!["Agents ("@ + decimal(configs.len()) + ")"@] + configs.map_values(
        |c: RunConfigView| "\u{2022} "@ + c.name,
    )
}

/// The worker host line of the editor: the host, or `warp` when unset.
pub open spec fn worker_host_line(worker_host: Seq<char>) -> Seq<char> {
    "Worker host: "@ + (if worker_host.len() == 0 {
        "warp"@
    } else {
        worker_host
    }) + " (TODO: editable picker)"@
}

/// The number of launched outcomes.
pub fn count_launched(agents: &Vec<OrchestrateAgentOutcome>) -> (r: usize)
    ensures
        r == launched_count(agents@.map_values(|a: OrchestrateAgentOutcome| a@)),
{
    let ghost views = agents@.map_values(|a: OrchestrateAgentOutcome| a@);
    let mut count: usize = 0;
    let mut i: usize = 0;
    while i < agents.len()
        invariant
            views == agents@.map_values(|a: OrchestrateAgentOutcome| a@),
            i <= agents.len(),
            count <= i,
            count == launched_count(views.take(i as int)),
        decreases agents.len() - i,
    {
        assert(views.take(i + 1).drop_last() =~= views.take(i as int));
        match &agents[i].kind {
            OrchestrateAgentOutcomeKind::Launched { .. } => {
                count = count + 1;
            },
            OrchestrateAgentOutcomeKind::Failed { .. } => {},
        }
        i = i + 1;
    }
    assert(views.take(agents.len() as int) =~= views);
    count
}

/// The status line of a terminal result and its icon (see [`terminal_status`]).
pub fn terminal_state_status(result: &OrchestrateResult) -> (r: (String, StatusKind))
    ensures
        r.0@ == terminal_status(result@).0,
        r.1 == terminal_status(result@).1,
{
    match result {
        OrchestrateResult::Launched { agents, .. } => {
            let total = agents.len();
            let launched = count_launched(agents);
            let mut label = String::from_str("Started ");
            if launched == total {
                push_decimal(&mut label, total);
                label.append(" agent(s)");
                (label, StatusKind::Success)
            } else {
                push_decimal(&mut label, launched);
                label.append(" of ");
                push_decimal(&mut label, total);
                label.append(" agent(s)");
                (label, StatusKind::Mixed)
            }
        },
        OrchestrateResult::LaunchDenied { reason } => {
            let mut label = String::from_str(
                "Orchestration is currently disabled. Re-enable on the plan card to launch.",
            );
            if !reason.as_str().is_empty() {
                label.append(" (");
                label.append(reason.as_str());
                label.append(")");
            }
            (label, StatusKind::Cancelled)
        },
        OrchestrateResult::Failure { error } => {
            let mut label = String::from_str("Failed to start orchestration");
            if !error.as_str().is_empty() {
                label.append(": ");
                label.append(error.as_str());
            }
            (label, StatusKind::Failure)
        },
        OrchestrateResult::Cancelled => (
            String::from_str("Orchestration cancelled"),
            StatusKind::Cancelled,
        ),
    }
}

/// The status line shown while the tool call streams in (see [`streaming_label`]).
pub fn streaming_placeholder_label(agent_count: usize) -> (r: String)
    ensures
        r@ == streaming_label(agent_count as nat),
{
    if agent_count == 0 {
        String::from_str("Preparing orchestration...")
    } else {
        let mut label = String::from_str("Preparing orchestration for ");
        push_decimal(&mut label, agent_count);
        label.append(" agent(s)...");
        label
    }
}

/// The status line shown while the tool call streams in, with the pending
/// icon.
pub fn streaming_placeholder_status(agent_count: usize) -> (r: (String, StatusKind))
    ensures
        r.0@ == streaming_label(agent_count as nat),
        r.1 == StatusKind::Pending,
{
    (streaming_placeholder_label(agent_count), StatusKind::Pending)
}

/// The card's title (see [`summary_title_text`]).
pub fn summary_title(summary: &str, agent_count: usize) -> (r: String)
    ensures
        r@ == summary_title_text(summary@, agent_count as nat),
{
    if summary.is_empty() {
        let mut title = String::from_str("Orchestrate ");
        push_decimal(&mut title, agent_count);
        title.append(" agent(s)");
        title
    } else {
        String::from_str(summary)
    }
}

/// The label of the button that opens and closes the editor.
pub fn edit_button_label(is_editor_open: bool) -> (r: &'static str)
    ensures
        r@ == (if is_editor_open {
            "Done editing"@
        } else {
            "Edit"@
        }),
{
    if is_editor_open {
        "Done editing"
    } else {
        "Edit"
    }
}

/// How the body names the execution mode (see [`mode_label`]).
pub fn execution_mode_label(mode: &OrchestrateExecutionMode) -> (r: String)
    ensures
        r@ == mode_label(mode@),
{
    match mode {
        OrchestrateExecutionMode::Local => String::from_str("Local"),
        OrchestrateExecutionMode::Remote { environment_id, .. } => {
            if environment_id.as_str().is_empty() {
                String::from_str("Cloud (no environment selected)")
            } else {
                let mut label = String::from_str("Cloud \u{b7} environment=");
                label.append(environment_id.as_str());
                label
            }
        },
    }
}

/// The body line (see [`body_line`]).
pub fn body_text(
    agent_count: usize,
    mode: &OrchestrateExecutionMode,
    harness_type: &str,
    model_id: &str,
) -> (r: String)
    ensures
        r@ == body_line(agent_count as nat, mode@, harness_type@, model_id@),
{
    let harness = if harness_type.is_empty() {
        "default harness"
    } else {
        harness_type
    };
    let model = if model_id.is_empty() {
        "default model"
    } else {
        model_id
    };
    let mode_text = execution_mode_label(mode);
    let mut line = String::new();
    push_decimal(&mut line, agent_count);
    line.append(" agent(s) \u{b7} ");
    line.append(mode_text.as_str());
    line.append(" \u{b7} ");
    line.append(harness);
    line.append(" \u{b7} ");
    line.append(model);
    assert(line@ =~= body_line(agent_count as nat, mode@, harness_type@, model_id@));
    line
}

/// The agent list (see [`footer_lines`]).
pub fn agents_footer_lines(configs: &Vec<OrchestrateAgentRunConfig>) -> (r: Vec<String>)
    ensures
        r@.map_values(|s: String| s@) == footer_lines(
            configs@.map_values(|c: OrchestrateAgentRunConfig| c@),
        ),
{
    let ghost cv = configs@.map_values(|c: OrchestrateAgentRunConfig| c@);
    let mut lines: Vec<String> = Vec::new();
    let mut heading = String::from_str("Agents (");
    push_decimal(&mut heading, configs.len());
    heading.append(")");
    lines.push(heading);
    let mut i: usize = 0;
    while i < configs.len()
        invariant
            cv == configs@.map_values(|c: OrchestrateAgentRunConfig| c@),
            i <= configs.len(),
            lines@.len() == i + 1,
            lines@[0]@ == "Agents ("@ + decimal(configs.len() as nat) + ")"@,
            forall|j: int|
                0 <= j < i ==> (#[trigger] lines@[j + 1])@ == "\u{2022} "@ + cv[j].name,
        decreases configs.len() - i,
    {
        let mut line = String::from_str("\u{2022} ");
        line.append(configs[i].name.as_str());
        lines.push(line);
        i = i + 1;
    }
    let ghost lv = lines@.map_values(|s: String| s@);
    assert forall|k: int| 0 <= k < lv.len() implies #[trigger] lv[k] == footer_lines(cv)[k] by {
        if k > 0 {
            assert(lines@[(k - 1) + 1]@ == "\u{2022} "@ + cv[k - 1].name);
        }
    }
    assert(lv =~= footer_lines(cv));
    lines
}

/// The worker host line of the editor (see [`worker_host_line`]).
pub fn worker_host_label(worker_host: &str) -> (r: String)
    ensures
        r@ == worker_host_line(worker_host@),
{
    let mut line = String::from_str("Worker host: ");
    if worker_host.is_empty() {
        line.append("warp");
    } else {
        line.append(worker_host);
    }
    line.append(" (TODO: editable picker)");
    line
}

/// The label of a picker row: the picker's name and a colon.
pub fn picker_label(label: &str) -> (r: String)
    ensures
        r@ == label@ + ":"@,
{
    let mut text = String::from_str(label);
    text.append(":");
    text
}

/// The number of replies that created a task.
pub open spec fn created_count(replies: Seq<Result<Seq<char>, Seq<char>>>) -> nat
    decreases replies.len(),
{
    if replies.len() == 0 {
        0
    } else {
        created_count(replies.drop_last()) + if replies.last() is Ok {
            1nat
        } else {
            0nat
        }
    }
}

proof fn lemma_launched_count_prefix(
    req: RequestView,
    replies: Seq<Result<Seq<char>, Seq<char>>>,
    agents: Seq<OutcomeView>,
    k: int,
)
    requires
        replies.len() == req.agent_run_configs.len(),
        launched_result(req, replies) matches ResultView::Launched { agents: a, .. } && a == agents,
        0 <= k <= agents.len(),
    ensures
        launched_count(agents.take(k)) == created_count(replies.take(k)),
    decreases k,
{
    if k > 0 {
        lemma_launched_count_prefix(req, replies, agents, k - 1);
        assert(agents.take(k).drop_last() =~= agents.take(k - 1));
        assert(replies.take(k).drop_last() =~= replies.take(k - 1));
        assert(agents[k - 1].kind == outcome_kind(replies[k - 1]));
    }
}

/// "Started M of N agent(s)": the status line of a dispatch reports as
/// launched exactly the children whose calls created a task. When every
/// call did, it reads "Started N agent(s)" with the success icon; otherwise,
/// even when none did, it still reports the launched result as "Started M
/// of N agent(s)" with the mixed icon, never as a failure to start.
pub proof fn lemma_status_reports_created_of_total(
    req: RequestView,
    replies: Seq<Result<Seq<char>, Seq<char>>>,
)
    requires
        replies.len() == req.agent_run_configs.len(),
    ensures
        ({
            let n = req.agent_run_configs.len();
            let m = created_count(replies);
            terminal_status(launched_result(req, replies)) == if m == n {
                ("Started "@ + decimal(n) + " agent(s)"@, StatusKind::Success)
            } else {
                (
                    "Started "@ + decimal(m) + " of "@ + decimal(n) + " agent(s)"@,
                    StatusKind::Mixed,
                )
            }
        }),
{
    let n = req.agent_run_configs.len();
    if let ResultView::Launched { agents, .. } = launched_result(req, replies) {
        lemma_launched_count_prefix(req, replies, agents, n as int);
        assert(agents.take(n as int) =~= agents);
        assert(replies.take(n as int) =~= replies);
    }
}

} // verus!

verus! {

/// Which card the tool call shows, with what the card decides.
#[derive(Debug)]
pub enum CardLayout {
    /// The call is still streaming in: a status line with the pending icon.
    Streaming { label: String },
    /// The call has an orchestrate result: its status line and icon.
    Terminal { label: String, kind: StatusKind },
    /// The call finished with a result of another kind: nothing is shown.
    Unexpected,
    /// The confirmation card, with the editor when it is open and the
    /// reason Accept is blocked, where there is one, under it.
    Confirmation { editor_open: bool, validation_error: Option<String> },
}

pub enum CardLayoutView {
    Streaming { label: Seq<char> },
    Terminal { label: Seq<char>, kind: StatusKind },
    Unexpected,
    Confirmation { editor_open: bool, validation_error: Option<Seq<char>> },
}

impl View for CardLayout {
    type V = CardLayoutView;

    open spec fn view(&self) -> CardLayoutView {
        match self {
            CardLayout::Streaming { label } => CardLayoutView::Streaming { label: label@ },
            CardLayout::Terminal { label, kind } => CardLayoutView::Terminal {
                label: label@,
                kind: *kind,
            },
            CardLayout::Unexpected => CardLayoutView::Unexpected,
            CardLayout::Confirmation { editor_open, validation_error } =>
                CardLayoutView::Confirmation {
                editor_open: *editor_open,
                validation_error: match validation_error {
                    Some(e) => Some(e@),
                    None => None,
                },
            },
        }
    }
}

/// The view of the call's status: `None` while it has not finished,
/// `Some(None)` when it finished with a result of another kind, and
/// `Some(Some(r))` when it finished with the orchestrate result `r`.
pub open spec fn finished_view(finished: Option<Option<&OrchestrateResult>>) -> Option<
    Option<ResultView>,
> {
    match finished {
        Some(Some(r)) => Some(Some(r@)),
        Some(None) => Some(None),
        None => None,
    }
}

/// The card to show: the streaming placeholder while the call streams,
/// whatever its status; else the terminal status line of a finished
/// orchestrate result; else nothing for a finished result of another kind;
/// else the confirmation card.
pub open spec fn card_layout_spec(
    is_streaming: bool,
    finished: Option<Option<ResultView>>,
    agent_count: nat,
    editor_open: bool,
    accept_disabled_reason: Option<Seq<char>>,
) -> CardLayoutView {
    if is_streaming {
        CardLayoutView::Streaming { label: streaming_label(agent_count) }
    } else {
        match finished {
            Some(Some(r)) => CardLayoutView::Terminal {
                label: terminal_status(r).0,
                kind: terminal_status(r).1,
            },
            Some(None) => CardLayoutView::Unexpected,
            None => CardLayoutView::Confirmation {
                editor_open,
                validation_error: accept_disabled_reason,
            },
        }
    }
}

/// The card to show (see [`card_layout_spec`]). `agent_count` is the number
/// of children of the streaming request.
pub fn card_layout(
    is_streaming: bool,
    finished: Option<Option<&OrchestrateResult>>,
    agent_count: usize,
    editor_open: bool,
    accept_disabled_reason: Option<&str>,
) -> (r: CardLayout)
    ensures
        r@ == card_layout_spec(
            is_streaming,
            finished_view(finished),
            agent_count as nat,
            editor_open,
            match accept_disabled_reason {
                Some(s) => Some(s@),
                None => None,
            },
        ),
{
    if is_streaming {
        return CardLayout::Streaming { label: streaming_placeholder_label(agent_count) };
    }
    match finished {
        Some(Some(result)) => {
            let (label, kind) = terminal_state_status(result);
            CardLayout::Terminal { label, kind }
        },
        Some(None) => CardLayout::Unexpected,
        None => CardLayout::Confirmation {
            editor_open,
            validation_error: match accept_disabled_reason {
                Some(reason) => Some(String::from_str(reason)),
                None => None,
            },
        },
    }
}

/// What a click on a card control asks for.
#[derive(PartialEq, Eq, Structural, Clone, Copy, Debug)]
pub enum CardAction {
    Reject,
    ToggleEdit,
    Accept,
    /// Switch the run to the cloud (`true`) or to the local machine (`false`).
    SetRemote(bool),
}

/// A button of the title row: its label, its action, and whether a click
/// reaches it.
#[derive(Debug)]
pub struct CardButton {
    pub label: String,
    pub action: CardAction,
    pub enabled: bool,
}

impl View for CardButton {
    type V = (Seq<char>, CardAction, bool);

    open spec fn view(&self) -> (Seq<char>, CardAction, bool) {
        (self.label@, self.action, self.enabled)
    }
}

/// The title row's buttons, in order: Reject, the edit toggle (labelled by
/// whether the editor is open), and Accept, which is disabled exactly when
/// something blocks it.
pub open spec fn title_row_buttons_spec(editor_open: bool, accept_disabled: bool) -> Seq<
    (Seq<char>, CardAction, bool),
> {
    seq![
        ("Reject"@, CardAction::Reject, true),
        (
            if editor_open {
                "Done editing"@
            } else {
                "Edit"@
            },
            CardAction::ToggleEdit,
            true,
        ),
        ("Accept"@, CardAction::Accept, !accept_disabled),
    ]
}

/// The title row's buttons (see [`title_row_buttons_spec`]).
pub fn title_row_buttons(editor_open: bool, accept_disabled: bool) -> (r: Vec<CardButton>)
    ensures
        r@.len() == title_row_buttons_spec(editor_open, accept_disabled).len(),
        forall|i: int|
            0 <= i < r@.len() ==> (#[trigger] r@[i])@ == title_row_buttons_spec(
                editor_open,
                accept_disabled,
            )[i],
{
    let mut buttons: Vec<CardButton> = Vec::new();
    buttons.push(
        CardButton { label: String::from_str("Reject"), action: CardAction::Reject, enabled: true },
    );
    buttons.push(
        CardButton {
            label: String::from_str(edit_button_label(editor_open)),
            action: CardAction::ToggleEdit,
            enabled: true,
        },
    );
    buttons.push(
        CardButton {
            label: String::from_str("Accept"),
            action: CardAction::Accept,
            enabled: !accept_disabled,
        },
    );
    assert(buttons@.map_values(|b: CardButton| b@) =~= title_row_buttons_spec(
        editor_open,
        accept_disabled,
    ));
    assert forall|i: int| 0 <= i < buttons@.len() implies (#[trigger] buttons@[i])@
        == title_row_buttons_spec(editor_open, accept_disabled)[i] by {
        assert(buttons@.map_values(|b: CardButton| b@)[i] == buttons@[i]@);
    }
    buttons
}

/// A segment of the Local/Cloud toggle: its label, whether it is the
/// active one, and its action.
#[derive(Debug)]
pub struct ToggleSegment {
    pub label: String,
    pub active: bool,
    pub action: CardAction,
}

impl View for ToggleSegment {
    type V = (Seq<char>, bool, CardAction);

    open spec fn view(&self) -> (Seq<char>, bool, CardAction) {
        (self.label@, self.active, self.action)
    }
}

/// The toggle's segments: Local, active for a local run, then Cloud, active
/// for a remote one; each switches the run to its side.
pub open spec fn toggle_segments_spec(cloud_active: bool) -> Seq<(Seq<char>, bool, CardAction)> {
    seq![
        ("Local"@, !cloud_active, CardAction::SetRemote(false)),
        ("Cloud"@, cloud_active, CardAction::SetRemote(true)),
    ]
}

/// The toggle's segments (see [`toggle_segments_spec`]).
pub fn mode_toggle_segments(cloud_active: bool) -> (r: Vec<ToggleSegment>)
    ensures
        r@.len() == toggle_segments_spec(cloud_active).len(),
        forall|i: int|
            0 <= i < r@.len() ==> (#[trigger] r@[i])@ == toggle_segments_spec(cloud_active)[i],
{
    let mut segments: Vec<ToggleSegment> = Vec::new();
    segments.push(
        ToggleSegment {
            label: String::from_str("Local"),
            active: !cloud_active,
            action: CardAction::SetRemote(false),
        },
    );
    segments.push(
        ToggleSegment {
            label: String::from_str("Cloud"),
            active: cloud_active,
            action: CardAction::SetRemote(true),
        },
    );
    assert(segments@.map_values(|s: ToggleSegment| s@) =~= toggle_segments_spec(cloud_active));
    assert forall|i: int| 0 <= i < segments@.len() implies (#[trigger] segments@[i])@
        == toggle_segments_spec(cloud_active)[i] by {
        assert(segments@.map_values(|s: ToggleSegment| s@)[i] == segments@[i]@);
    }
    segments
}

/// A row of the inline editor.
#[derive(Debug)]
pub enum EditorRow {
    /// The "Run on:" Local/Cloud toggle (see [`mode_toggle_segments`]).
    ModeToggle { label: String, cloud_active: bool },
    /// A picker, under its label.
    Picker { label: String },
    /// The worker host line.
    WorkerHost { text: String },
}

pub enum EditorRowView {
    ModeToggle { label: Seq<char>, cloud_active: bool },
    Picker { label: Seq<char> },
    WorkerHost { text: Seq<char> },
}

impl View for EditorRow {
    type V = EditorRowView;

    open spec fn view(&self) -> EditorRowView {
        match self {
            EditorRow::ModeToggle { label, cloud_active } => EditorRowView::ModeToggle {
                label: label@,
                cloud_active: *cloud_active,
            },
            EditorRow::Picker { label } => EditorRowView::Picker { label: label@ },
            EditorRow::WorkerHost { text } => EditorRowView::WorkerHost { text: text@ },
        }
    }
}

/// A picker row, where its picker exists.
pub open spec fn picker_row(present: bool, name: Seq<char>) -> Seq<EditorRowView> {
    if present {
        seq![EditorRowView::Picker { label: name + ":"@ }]
    } else {
        Seq::empty()
    }
}

/// The editor's rows, in order: the Local/Cloud toggle; the Model and
/// Harness pickers, each where it exists; and, for a remote run only, the
/// Environment picker where it exists, then the worker host line.
pub open spec fn editor_rows_spec(
    mode: ExecutionModeView,
    has_model_picker: bool,
    has_harness_picker: bool,
    has_environment_picker: bool,
) -> Seq<EditorRowView> {
    seq![EditorRowView::ModeToggle { label: "Run on:"@, cloud_active: mode is Remote }]
        + picker_row(has_model_picker, "Model"@) + picker_row(has_harness_picker, "Harness"@)
        + match mode {
        ExecutionModeView::Local => Seq::empty(),
        ExecutionModeView::Remote { worker_host, .. } => picker_row(
            has_environment_picker,
            "Environment"@,
        ) + seq![EditorRowView::WorkerHost { text: worker_host_line(worker_host) }],
    }
}

/// The editor's rows (see [`editor_rows_spec`]).
pub fn editor_rows(
    mode: &OrchestrateExecutionMode,
    has_model_picker: bool,
    has_harness_picker: bool,
    has_environment_picker: bool,
) -> (r: Vec<EditorRow>)
    ensures
        r@.len() == editor_rows_spec(
            mode@,
            has_model_picker,
            has_harness_picker,
            has_environment_picker,
        ).len(),
        forall|i: int|
            0 <= i < r@.len() ==> (#[trigger] r@[i])@ == editor_rows_spec(
                mode@,
                has_model_picker,
                has_harness_picker,
                has_environment_picker,
            )[i],
{
    let ghost rows_view = |rows: Seq<EditorRow>| rows.map_values(|row: EditorRow| row@);
    let mut rows: Vec<EditorRow> = Vec::new();
    rows.push(
        EditorRow::ModeToggle { label: String::from_str("Run on:"), cloud_active: mode.is_remote() },
    );
    let ghost mut expected = seq![
        EditorRowView::ModeToggle { label: "Run on:"@, cloud_active: mode@ is Remote },
    ];
    assert(rows_view(rows@) =~= expected);
    if has_model_picker {
        rows.push(EditorRow::Picker { label: picker_label("Model") });
    }
    proof {
        expected = expected + picker_row(has_model_picker, "Model"@);
    }
    assert(rows_view(rows@) =~= expected);
    if has_harness_picker {
        rows.push(EditorRow::Picker { label: picker_label("Harness") });
    }
    proof {
        expected = expected + picker_row(has_harness_picker, "Harness"@);
    }
    assert(rows_view(rows@) =~= expected);
    match mode {
        OrchestrateExecutionMode::Local => {},
        OrchestrateExecutionMode::Remote { worker_host, .. } => {
            if has_environment_picker {
                rows.push(EditorRow::Picker { label: picker_label("Environment") });
            }
            proof {
                expected = expected + picker_row(has_environment_picker, "Environment"@);
            }
            assert(rows_view(rows@) =~= expected);
            rows.push(EditorRow::WorkerHost { text: worker_host_label(worker_host.as_str()) });
            proof {
                expected = expected + seq![
                    EditorRowView::WorkerHost { text: worker_host_line(worker_host@) },
                ];
            }
            assert(rows_view(rows@) =~= expected);
        },
    }
    assert(expected =~= editor_rows_spec(
        mode@,
        has_model_picker,
        has_harness_picker,
        has_environment_picker,
    ));
    assert forall|i: int| 0 <= i < rows@.len() implies (#[trigger] rows@[i])@ == expected[i] by {
        assert(rows_view(rows@)[i] == rows@[i]@);
    }
    rows
}

} // verus!

verus! {

/// Which card is shown: while the call streams, the placeholder counting
/// the request's children, whatever its status; once it has an orchestrate
/// result, that result's status line and icon; once it has a result of
/// another kind, nothing; and otherwise the confirmation card, whose editor
/// is shown exactly when it is open and whose validation error is exactly
/// the reason Accept is blocked, whether the editor is open or not.
pub proof fn lemma_card_layout_routes(
    is_streaming: bool,
    finished: Option<Option<ResultView>>,
    agent_count: nat,
    editor_open: bool,
    accept_disabled_reason: Option<Seq<char>>,
)
    ensures
        ({
            let layout = card_layout_spec(
                is_streaming,
                finished,
                agent_count,
                editor_open,
                accept_disabled_reason,
            );
            &&& is_streaming ==> layout == CardLayoutView::Streaming {
                label: streaming_label(agent_count),
            }
            &&& !is_streaming ==> (finished matches Some(Some(r)) ==> layout
                == CardLayoutView::Terminal {
                label: terminal_status(r).0,
                kind: terminal_status(r).1,
            })
            &&& !is_streaming ==> (finished == Some(None::<ResultView>) ==> layout
                == CardLayoutView::Unexpected)
            &&& !is_streaming && finished is None ==> layout == CardLayoutView::Confirmation {
                editor_open: editor_open,
                validation_error: accept_disabled_reason,
            }
        }),
{
}

/// The title row always holds three buttons: Reject, then the edit toggle,
/// then Accept. Reject and the edit toggle can always be clicked; Accept can
/// be clicked exactly when nothing blocks it, whether the editor is open or
/// not. The edit toggle reads "Done editing" while the editor is open and
/// "Edit" otherwise.
pub proof fn lemma_title_row_buttons(editor_open: bool, accept_disabled: bool)
    ensures
        ({
            let b = title_row_buttons_spec(editor_open, accept_disabled);
            &&& b.len() == 3
            &&& b[0].1 == CardAction::Reject && b[0].2
            &&& b[1].1 == CardAction::ToggleEdit && b[1].2
            &&& b[2].1 == CardAction::Accept && b[2].2 == !accept_disabled
            &&& b[0].0 == "Reject"@ && b[2].0 == "Accept"@
            &&& (editor_open ==> b[1].0 == "Done editing"@)
            &&& (!editor_open ==> b[1].0 == "Edit"@)
        }),
{
}

/// The toggle holds Local then Cloud; exactly one of them is active, Cloud
/// for a remote run; each switches the run to its own side.
pub proof fn lemma_toggle_segments(cloud_active: bool)
    ensures
        ({
            let s = toggle_segments_spec(cloud_active);
            &&& s.len() == 2
            &&& s[0].2 == CardAction::SetRemote(false) && s[1].2 == CardAction::SetRemote(true)
            &&& s[1].1 == cloud_active && s[0].1 == !cloud_active
        }),
{
}

/// The number of rows a flag adds.
pub open spec fn flag_count(b: bool) -> nat {
    if b {
        1
    } else {
        0
    }
}

/// The editor's rows, whatever the execution mode: the toggle comes first
/// and shows Cloud active exactly for a remote run; a "Model:" row is shown
/// exactly when the model picker exists, and a "Harness:" row exactly when
/// the harness picker exists; an "Environment:" row exactly for a remote run
/// whose environment picker exists; a worker host row exactly for a remote
/// run, and then last. Nothing else is shown.
pub proof fn lemma_editor_rows(
    mode: ExecutionModeView,
    has_model_picker: bool,
    has_harness_picker: bool,
    has_environment_picker: bool,
)
    ensures
        ({
            let rows = editor_rows_spec(
                mode,
                has_model_picker,
                has_harness_picker,
                has_environment_picker,
            );
            let remote = mode is Remote;
            &&& rows.len() == 1 + flag_count(has_model_picker) + flag_count(has_harness_picker)
                + if remote {
                flag_count(has_environment_picker) + 1
            } else {
                0
            }
            &&& rows[0] == EditorRowView::ModeToggle { label: "Run on:"@, cloud_active: remote }
            &&& rows.contains(EditorRowView::Picker { label: "Model:"@ }) == has_model_picker
            &&& rows.contains(EditorRowView::Picker { label: "Harness:"@ }) == has_harness_picker
            &&& rows.contains(EditorRowView::Picker { label: "Environment:"@ }) == (remote
                && has_environment_picker)
            &&& (exists|i: int| 0 <= i < rows.len() && #[trigger] rows[i] is WorkerHost)
                == remote
            &&& (mode matches ExecutionModeView::Remote { worker_host, .. } ==> rows.last()
                == EditorRowView::WorkerHost { text: worker_host_line(worker_host) })
        }),
{
    reveal_strlit("Model");
    reveal_strlit("Harness");
    reveal_strlit("Environment");
    reveal_strlit(":");
    reveal_strlit("Model:");
    reveal_strlit("Harness:");
    reveal_strlit("Environment:");
    let model: Seq<char> = "Model"@ + ":"@;
    let harness: Seq<char> = "Harness"@ + ":"@;
    let environment: Seq<char> = "Environment"@ + ":"@;
    assert(model =~= "Model:"@);
    assert(harness =~= "Harness:"@);
    assert(environment =~= "Environment:"@);
    let rows = editor_rows_spec(mode, has_model_picker, has_harness_picker, has_environment_picker);
    let remote = mode is Remote;
    let head = seq![EditorRowView::ModeToggle { label: "Run on:"@, cloud_active: remote }];
    let m = picker_row(has_model_picker, "Model"@);
    let h = picker_row(has_harness_picker, "Harness"@);
    let tail = match mode {
        ExecutionModeView::Local => Seq::<EditorRowView>::empty(),
        ExecutionModeView::Remote { worker_host, .. } => picker_row(
            has_environment_picker,
            "Environment"@,
        ) + seq![EditorRowView::WorkerHost { text: worker_host_line(worker_host) }],
    };
    assert(rows == head + m + h + tail);
    let a = head.len() as int;
    let b = a + m.len();
    let c = b + h.len();
    assert forall|i: int| 0 <= i < rows.len() implies {
        &&& (#[trigger] rows[i] == EditorRowView::Picker { label: "Model:"@ } ==> a <= i < b)
        &&& (rows[i] == EditorRowView::Picker { label: "Harness:"@ } ==> b <= i < c)
        &&& (rows[i] == EditorRowView::Picker { label: "Environment:"@ } ==> c <= i && remote
            && has_environment_picker)
        &&& (rows[i] is WorkerHost ==> remote)
    } by {
        if i < a {
            assert(rows[i] == head[i]);
        } else if i < b {
            assert(rows[i] == m[i - a]);
        } else if i < c {
            assert(rows[i] == h[i - b]);
        } else {
            assert(rows[i] == tail[i - c]);
            if let ExecutionModeView::Remote { worker_host, .. } = mode {
                let e = picker_row(has_environment_picker, "Environment"@);
                if i - c < e.len() {
                    assert(tail[i - c] == e[i - c]);
                }
            }
        }
    }
    if has_model_picker {
        assert(rows[a] == m[0]);
    }
    if has_harness_picker {
        assert(rows[b] == h[0]);
    }
    if let ExecutionModeView::Remote { worker_host, .. } = mode {
        let e = picker_row(has_environment_picker, "Environment"@);
        if has_environment_picker {
            assert(tail[0] == e[0]);
            assert(rows[c] == tail[0]);
        }
        assert(rows[rows.len() - 1] == tail[tail.len() - 1]);
    }
}

} // verus!

verus! {

/// `s` ends with `t`.
pub open spec fn ends_with(s: Seq<char>, t: Seq<char>) -> bool {
    s.len() >= t.len() && s.subrange(s.len() - t.len(), s.len() as int) == t
}

/// `s` begins with `t`.
pub open spec fn starts_with(s: Seq<char>, t: Seq<char>) -> bool {
    s.len() >= t.len() && s.subrange(0, t.len() as int) == t
}

/// The status lines of the results that are not launched: a failure shows
/// the failure icon and "Failed to start orchestration", followed by ": "
/// and the error exactly when there is one; a denied launch shows the
/// cancelled icon and the disabled notice, followed by the reason in
/// brackets exactly when there is one; a cancelled call shows the cancelled
/// icon and "Orchestration cancelled".
pub proof fn lemma_terminal_status_of_other_results(r: ResultView)
    ensures
        r matches ResultView::Failure { error } ==> {
            let (label, kind) = terminal_status(r);
            &&& kind == StatusKind::Failure
            &&& error.len() == 0 ==> label == "Failed to start orchestration"@
            &&& error.len() > 0 ==> starts_with(label, "Failed to start orchestration: "@)
                && ends_with(label, error) && label.len() == 31 + error.len()
        },
        r matches ResultView::LaunchDenied { reason } ==> {
            let (label, kind) = terminal_status(r);
            &&& kind == StatusKind::Cancelled
            &&& starts_with(label, denied_text())
            &&& reason.len() == 0 ==> label == denied_text()
            &&& reason.len() > 0 ==> ends_with(label, " ("@ + reason + ")"@) && label.len()
                == denied_text().len() + reason.len() + 3
        },
        r is Cancelled ==> terminal_status(r) == ("Orchestration cancelled"@, StatusKind::Cancelled),
{
    reveal_strlit("Failed to start orchestration");
    reveal_strlit("Failed to start orchestration: ");
    reveal_strlit(": ");
    reveal_strlit(" (");
    reveal_strlit(")");
    match r {
        ResultView::Failure { error } => {
            let label = terminal_status(r).0;
            if error.len() > 0 {
                assert(label == failed_text() + ": "@ + error);
                assert(label.subrange(0, 31) =~= "Failed to start orchestration: "@);
                assert(label.subrange(label.len() - error.len(), label.len() as int) =~= error);
            }
        },
        ResultView::LaunchDenied { reason } => {
            let label = terminal_status(r).0;
            assert(label.subrange(0, denied_text().len() as int) =~= denied_text());
            if reason.len() > 0 {
                let tail = " ("@ + reason + ")"@;
                assert(label == denied_text() + tail);
                assert(label.subrange(label.len() - tail.len(), label.len() as int) =~= tail);
            }
        },
        _ => {},
    }
}

/// The streaming placeholder counts the children exactly when there are
/// some: "Preparing orchestration..." for none, and otherwise the count's
/// decimal text between "Preparing orchestration for " and " agent(s)...".
pub proof fn lemma_streaming_label(agent_count: nat)
    ensures
        agent_count == 0 ==> streaming_label(agent_count) == "Preparing orchestration..."@,
        agent_count > 0 ==> {
            let l = streaming_label(agent_count);
            &&& starts_with(l, "Preparing orchestration for "@)
            &&& ends_with(l, " agent(s)..."@)
            &&& l.subrange(28, l.len() - 12) == decimal(agent_count)
        },
{
    reveal_strlit("Preparing orchestration for ");
    reveal_strlit(" agent(s)...");
    if agent_count > 0 {
        let l = streaming_label(agent_count);
        let d = decimal(agent_count);
        assert(l.subrange(0, 28) =~= "Preparing orchestration for "@);
        assert(l.subrange(l.len() - 12, l.len() as int) =~= " agent(s)..."@);
        assert(l.subrange(28, l.len() - 12) =~= d);
    }
}

/// The title is the summary whenever there is one; without one it counts
/// the agents: the count's decimal text between "Orchestrate " and
/// " agent(s)".
pub proof fn lemma_summary_title(summary: Seq<char>, agent_count: nat)
    ensures
        summary.len() > 0 ==> summary_title_text(summary, agent_count) == summary,
        summary.len() == 0 ==> {
            let t = summary_title_text(summary, agent_count);
            &&& starts_with(t, "Orchestrate "@)
            &&& ends_with(t, " agent(s)"@)
            &&& t.subrange(12, t.len() - 9) == decimal(agent_count)
        },
{
    reveal_strlit("Orchestrate ");
    reveal_strlit(" agent(s)");
    if summary.len() == 0 {
        let t = summary_title_text(summary, agent_count);
        assert(t.subrange(0, 12) =~= "Orchestrate "@);
        assert(t.subrange(t.len() - 9, t.len() as int) =~= " agent(s)"@);
        assert(t.subrange(12, t.len() - 9) =~= decimal(agent_count));
    }
}

/// The agent list has one line more than there are agents: the heading,
/// which counts them, then for each agent, in input order, a bulleted line
/// that ends with its name.
pub proof fn lemma_footer_lines(configs: Seq<RunConfigView>)
    ensures
        footer_lines(configs).len() == configs.len() + 1,
        footer_lines(configs)[0] == "Agents ("@ + decimal(configs.len()) + ")"@,
        forall|i: int|
            0 <= i < configs.len() ==> #[trigger] footer_lines(configs)[i + 1] == "\u{2022} "@
                + configs[i].name && ends_with(footer_lines(configs)[i + 1], configs[i].name),
{
    assert forall|i: int| 0 <= i < configs.len() implies #[trigger] footer_lines(configs)[i + 1]
        == "\u{2022} "@ + configs[i].name && ends_with(
        footer_lines(configs)[i + 1],
        configs[i].name,
    ) by {
        let l = footer_lines(configs)[i + 1];
        assert(l == "\u{2022} "@ + configs[i].name);
        assert(l.subrange(l.len() - configs[i].name.len(), l.len() as int) =~= configs[i].name);
    }
}

/// The worker host line names the host whenever one is set, and `warp`
/// otherwise, between "Worker host: " and " (TODO: editable picker)".
pub proof fn lemma_worker_host_line(worker_host: Seq<char>)
    ensures
        ({
            let l = worker_host_line(worker_host);
            let shown = if worker_host.len() == 0 {
                "warp"@
            } else {
                worker_host
            };
            &&& starts_with(l, "Worker host: "@)
            &&& ends_with(l, " (TODO: editable picker)"@)
            &&& l.subrange(13, l.len() - 24) == shown
        }),
{
    reveal_strlit("Worker host: ");
    reveal_strlit(" (TODO: editable picker)");
    let l = worker_host_line(worker_host);
    let shown = if worker_host.len() == 0 {
        "warp"@
    } else {
        worker_host
    };
    assert(l == "Worker host: "@ + shown + " (TODO: editable picker)"@);
    assert(l.subrange(0, 13) =~= "Worker host: "@);
    assert(l.subrange(l.len() - 24, l.len() as int) =~= " (TODO: editable picker)"@);
    assert(l.subrange(13, l.len() - 24) =~= shown);
}

/// The body names a remote run's environment whenever one is set: it ends
/// with it, after "Cloud · environment=". A remote run without one reads
/// "Cloud (no environment selected)", and a local run "Local".
pub proof fn lemma_mode_label(mode: ExecutionModeView)
    ensures
        mode is Local ==> mode_label(mode) == "Local"@,
        mode matches ExecutionModeView::Remote { environment_id, .. } ==> {
            &&& environment_id.len() == 0 ==> mode_label(mode)
                == "Cloud (no environment selected)"@
            &&& environment_id.len() > 0 ==> starts_with(
                mode_label(mode),
                "Cloud \u{b7} environment="@,
            ) && ends_with(mode_label(mode), environment_id)
        },
{
    if let ExecutionModeView::Remote { environment_id, .. } = mode {
        if environment_id.len() > 0 {
            let l = mode_label(mode);
            let p = "Cloud \u{b7} environment="@;
            assert(l.subrange(0, p.len() as int) =~= p);
            assert(l.subrange(l.len() - environment_id.len(), l.len() as int) =~= environment_id);
        }
    }
}

/// The body line begins with the agent count and ends with the model, or
/// "default model" when none is set; the execution mode's label and the
/// harness, or "default harness" when none is set, stand between them, in
/// that order, each separated by " · ".
pub proof fn lemma_body_line(
    agent_count: nat,
    mode: ExecutionModeView,
    harness_type: Seq<char>,
    model_id: Seq<char>,
)
    ensures
        ({
            let l = body_line(agent_count, mode, harness_type, model_id);
            let harness = if harness_type.len() == 0 {
                "default harness"@
            } else {
                harness_type
            };
            let model = if model_id.len() == 0 {
                "default model"@
            } else {
                model_id
            };
            &&& starts_with(l, decimal(agent_count) + " agent(s) \u{b7} "@ + mode_label(mode))
            &&& ends_with(l, " \u{b7} "@ + harness + " \u{b7} "@ + model)
            &&& l.len() == decimal(agent_count).len() + " agent(s) \u{b7} "@.len() + mode_label(
                mode,
            ).len() + 3 + harness.len() + 3 + model.len()
        }),
{
    reveal_strlit(" \u{b7} ");
    let l = body_line(agent_count, mode, harness_type, model_id);
    let harness = if harness_type.len() == 0 {
        "default harness"@
    } else {
        harness_type
    };
    let model = if model_id.len() == 0 {
        "default model"@
    } else {
        model_id
    };
    let head = decimal(agent_count) + " agent(s) \u{b7} "@ + mode_label(mode);
    let tail = " \u{b7} "@ + harness + " \u{b7} "@ + model;
    assert(l =~= head + tail);
    assert(l.subrange(0, head.len() as int) =~= head);
    assert(l.subrange(l.len() - tail.len(), l.len() as int) =~= tail);
}

} // verus!
