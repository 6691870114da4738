//! Text of the Supervisor popup: the title, the Worker list rows, the Worker detail lines,
//! and the plain-text snapshot for non-interactive callers.
//!
//! Each line names its emphasis; colors, borders, and layout on the terminal stand outside
//! this module.
use vstd::prelude::*;
use vstd::string::*;
use crate::contract::uuid_text;
use crate::host::{
    needs_attention, status_label_of, task_blocker_texts, task_blockers, text_models,
    PopupDashboard, PopupDashboardModel, PopupNarrowMode, PopupTaskModel, PopupTaskView,
    PopupWorkerModel, PopupWorkerView,
};
use crate::views::{task_state_name, HoldView, TaskSchedulingState, TaskState};

verus! {

/// The decimal digit character of `d`, for `d < 10`.
pub open spec fn digit_char(d: nat) -> char {
    if d == 0 {
        '0'
    } else if d == 1 {
        '1'
    } else if d == 2 {
        '2'
    } else if d == 3 {
        '3'
    } else if d == 4 {
        '4'
    } else if d == 5 {
        '5'
    } else if d == 6 {
        '6'
    } else if d == 7 {
        '7'
    } else if d == 8 {
        '8'
    } else {
        '9'
    }
}

/// The decimal text of a natural number, without sign or leading zeros.
pub open spec fn decimal(n: nat) -> Seq<char>
    decreases n,
{
    if n < 10 {
        seq![digit_char(n)]
    } else {
        decimal(n / 10).push(digit_char(n % 10))
    }
}

fn digit_text(d: u64) -> (text: &'static str)
    requires
        d < 10,
    ensures
        text@ == seq![digit_char(d as nat)],
{
    proof {
        reveal_strlit("0");
        reveal_strlit("1");
        reveal_strlit("2");
        reveal_strlit("3");
        reveal_strlit("4");
        reveal_strlit("5");
        reveal_strlit("6");
        reveal_strlit("7");
        reveal_strlit("8");
        reveal_strlit("9");
    }
    let text = if d == 0 {
        "0"
    } else if d == 1 {
        "1"
    } else if d == 2 {
        "2"
    } else if d == 3 {
        "3"
    } else if d == 4 {
        "4"
    } else if d == 5 {
        "5"
    } else if d == 6 {
        "6"
    } else if d == 7 {
        "7"
    } else if d == 8 {
        "8"
    } else {
        "9"
    };
    assert(text@ =~= seq![digit_char(d as nat)]);
    text
}

/// Formats a number in decimal.
pub fn decimal_text(n: u64) -> (text: String)
    ensures
        text@ == decimal(n as nat),
    decreases n,
{
    if n < 10 {
        digit_text(n).to_owned()
    } else {
        let mut text = decimal_text(n / 10);
        text.append(digit_text(n % 10));
        text
    }
}

/// Texts joined with a separator between each two.
pub open spec fn joined(parts: Seq<Seq<char>>, sep: Seq<char>) -> Seq<char>
    decreases parts.len(),
{
    if parts.len() == 0 {
        Seq::empty()
    } else if parts.len() == 1 {
        parts[0]
    } else {
        joined(parts.drop_last(), sep) + sep + parts.last()
    }
}

/// Joins texts with a separator between each two.
pub fn join_texts(parts: &Vec<String>, sep: &str) -> (text: String)
    ensures
        text@ == joined(text_models(parts@), sep@),
{
    let mut text = String::new();
    let mut i: usize = 0;
    while i < parts.len()
        invariant
            i <= parts@.len(),
            text@ == joined(text_models(parts@).take(i as int), sep@),
        decreases parts@.len() - i,
    {
        proof {
            let all = text_models(parts@);
            assert(all.take(i + 1).drop_last() =~= all.take(i as int));
            assert(all.take(i + 1).last() == parts@[i as int]@);
            if i == 0 {
                assert(all.take(0) =~= Seq::<Seq<char>>::empty());
            }
        }
        if i > 0 {
            text.append(sep);
        }
        text.append(parts[i].as_str());
        proof {
            if i == 0 {
                assert(text@ =~= text_models(parts@).take(1)[0]);
            }
        }
        i = i + 1;
    }
    assert(text_models(parts@).take(parts@.len() as int) =~= text_models(parts@));
    text
}

/// How a Worker's status is emphasized.
#[derive(Debug, Clone, Copy, PartialEq, Eq, Structural)]
pub enum StatusTone {
    /// The Worker needs Supervisor attention.
    Attention,
    /// The Worker is not online.
    Offline,
    /// The Worker is executing a Task.
    Running,
    /// The Worker is online and not executing.
    Ready,
}

/// The emphasis of a Worker's status.
pub open spec fn status_tone_of(w: PopupWorkerModel) -> StatusTone {
    if needs_attention(w) {
        StatusTone::Attention
    } else if w.presence != "online"@ {
        StatusTone::Offline
    } else if w.active_task matches Some(t) && (t.task.state == TaskState::Working || t.task.state
        == TaskState::Dispatching) {
        StatusTone::Running
    } else {
        StatusTone::Ready
    }
}

/// Decides the emphasis of a Worker's status.
pub fn status_tone(worker: &PopupWorkerView) -> (tone: StatusTone)
    ensures
        tone == status_tone_of(worker@),
{
    if worker.attention_required() {
        StatusTone::Attention
    } else if !crate::host::text_equals(&worker.presence, "online") {
        StatusTone::Offline
    } else {
        match &worker.active_task {
            Some(t) => if t.task.state == TaskState::Working || t.task.state == TaskState::Dispatching {
                StatusTone::Running
            } else {
                StatusTone::Ready
            },
            None => StatusTone::Ready,
        }
    }
}

/// One line of the Worker detail pane.
#[derive(Debug, Clone, PartialEq, Eq)]
pub enum PopupLine {
    /// Plain text.
    Text(String),
    /// A section heading.
    Heading(String),
    /// A warning.
    Notice(String),
    /// `Worker  ` followed by the emphasized Harness ID.
    WorkerTitle(String),
    /// `Status  `, the status label in its tone, then ` · ` and the presence.
    Status { label: String, tone: StatusTone, presence: String },
}

/// The mathematical value of a [`PopupLine`].
pub enum LineView {
    Text(Seq<char>),
    Heading(Seq<char>),
    Notice(Seq<char>),
    WorkerTitle(Seq<char>),
    Status { label: Seq<char>, tone: StatusTone, presence: Seq<char> },
}

impl View for PopupLine {
    type V = LineView;

    open spec fn view(&self) -> LineView {
        match self {
            PopupLine::Text(t) => LineView::Text(t@),
            PopupLine::Heading(t) => LineView::Heading(t@),
            PopupLine::Notice(t) => LineView::Notice(t@),
            PopupLine::WorkerTitle(t) => LineView::WorkerTitle(t@),
            PopupLine::Status { label, tone, presence } => LineView::Status {
                label: label@,
                tone: *tone,
                presence: presence@,
            },
        }
    }
}

/// The views of a list of lines.
pub open spec fn line_models(lines: Seq<PopupLine>) -> Seq<LineView> {
    lines.map_values(|l: PopupLine| l@)
}

/// ` · ` followed by the text, or nothing.
pub open spec fn suffix(text: Option<Seq<char>>) -> Seq<char> {
    match text {
        Some(t) => " · "@ + t,
        None => Seq::empty(),
    }
}

/// The first lines of a Worker's detail: identity, Harness, status, unread and queued counts.
pub open spec fn header_lines(w: PopupWorkerModel) -> Seq<LineView> {
    seq![
        LineView::WorkerTitle(w.id),
        LineView::Text("Harness  "@ + w.kind + suffix(w.model) + suffix(w.launch_profile)),
        LineView::Status { label: status_label_of(w), tone: status_tone_of(w), presence: w.presence },
        LineView::Text("Unread  "@ + decimal(w.unread_messages as nat)),
        LineView::Text("Queued  "@ + decimal(w.queued_tasks.len())),
    ]
}

/// The native evidence lines of a Worker's detail: health, last activity, and context.
pub open spec fn evidence_lines(w: PopupWorkerModel) -> Seq<LineView> {
    (match w.native_health {
        Some(h) => seq![LineView::Text("Health  "@ + h)],
        None => Seq::empty(),
    }) + (match w.last_activity {
        Some((summary, observed_at)) => seq![
            LineView::Text("Activity  "@ + summary + " · observed "@ + observed_at),
        ],
        None => Seq::empty(),
    }) + (match w.context_percent {
        Some(c) => seq![
            LineView::Text(
                "Context  "@ + c + "% · observed "@ + match w.context_observed_at {
                    Some(o) => o,
                    None => "observation time unavailable"@,
                },
            ),
        ],
        None => Seq::empty(),
    })
}

/// The debug name of a scheduling state.
pub open spec fn scheduling_label(state: TaskSchedulingState) -> Seq<char> {
    match state {
        TaskSchedulingState::Blocked => "Blocked"@,
        TaskSchedulingState::Ready => "Ready"@,
    }
}

/// The lines of one queued Task: its title, queue position, and scheduling state, then its
/// blockers when it has any.
pub open spec fn queued_task_lines(t: PopupTaskModel) -> Seq<LineView> {
    seq![
        LineView::Text(
            t.title + " · queue "@ + match t.worker_queue_position {
                Some(p) => decimal(p as nat),
                None => "-"@,
            } + " · "@ + scheduling_label(t.scheduling_state),
        ),
    ] + if task_blocker_texts(t).len() > 0 {
        seq![LineView::Text("  "@ + joined(task_blocker_texts(t), " · "@))]
    } else {
        Seq::empty()
    }
}

/// The lines of each queued Task, in order.
pub open spec fn queue_lines(tasks: Seq<PopupTaskModel>) -> Seq<LineView>
    decreases tasks.len(),
{
    if tasks.len() == 0 {
        Seq::empty()
    } else {
        queue_lines(tasks.drop_last()) + queued_task_lines(tasks.last())
    }
}

/// The line of one Worktree Hold.
pub open spec fn hold_line(h: HoldView) -> LineView {
    LineView::Notice("Worktree Hold  "@ + uuid_text(h.task_id.0) + " · "@ + h.reason@)
}

/// The Task lines of a Worker's detail: the active Task, blockers, queued Tasks, and Holds.
pub open spec fn task_lines(w: PopupWorkerModel) -> Seq<LineView> {
    (match w.active_task {
        Some(t) => seq![
            LineView::Text(Seq::empty()),
            LineView::Heading("Active Task"@),
            LineView::Text(
                t.title + " · "@ + task_state_name(t.task.state) + " · revision "@ + decimal(
                    t.task.result_revision as nat,
                ),
            ),
        ],
        None => Seq::empty(),
    }) + (if w.blockers.len() > 0 {
        seq![
            LineView::Text(Seq::empty()),
            LineView::Text("Blockers  "@ + joined(w.blockers, " · "@)),
        ]
    } else {
        Seq::empty()
    }) + (if w.queued_tasks.len() > 0 {
        seq![LineView::Text(Seq::empty()), LineView::Heading("Queued Tasks"@)] + queue_lines(
            w.queued_tasks,
        )
    } else {
        Seq::empty()
    }) + w.holds.map_values(|h: HoldView| hold_line(h))
}

/// Every line of a Worker's detail.
pub open spec fn detail_lines_of(w: PopupWorkerModel) -> Seq<LineView> {
    header_lines(w) + evidence_lines(w) + task_lines(w)
}

fn text_line(text: String) -> (line: PopupLine)
    ensures
        line@ == LineView::Text(text@),
{
    PopupLine::Text(text)
}

fn empty_line() -> (line: PopupLine)
    ensures
        line@ == LineView::Text(Seq::empty()),
{
    PopupLine::Text(String::new())
}

fn push_line(lines: &mut Vec<PopupLine>, line: PopupLine)
    ensures
        line_models(final(lines)@) == line_models(old(lines)@).push(line@),
{
    lines.push(line);
    assert(line_models(lines@) =~= line_models(old(lines)@).push(line@));
}

fn append_lines(lines: &mut Vec<PopupLine>, more: Vec<PopupLine>)
    ensures
        line_models(final(lines)@) == line_models(old(lines)@) + line_models(more@),
{
    let mut more = more;
    let ghost tail = more@;
    lines.append(&mut more);
    assert(line_models(lines@) =~= line_models(old(lines)@) + line_models(tail));
}

fn suffix_text(out: &mut String, text: &Option<String>)
    ensures
        final(out)@ == old(out)@ + suffix(
            match text {
                Some(t) => Some(t@),
                None => None,
            },
        ),
{
    if let Some(t) = text {
        out.append(" · ");
        out.append(t.as_str());
    }
}

fn header(worker: &PopupWorkerView) -> (lines: Vec<PopupLine>)
    ensures
        line_models(lines@) == header_lines(worker@),
{
    let mut lines: Vec<PopupLine> = Vec::new();
    push_line(&mut lines, PopupLine::WorkerTitle(worker.id.as_str().to_owned()));
    let mut harness = String::from_str("Harness  ");
    harness.append(worker.kind.as_str());
    suffix_text(&mut harness, &worker.model);
    suffix_text(&mut harness, &worker.launch_profile);
    push_line(&mut lines, text_line(harness));
    push_line(
        &mut lines,
        PopupLine::Status {
            label: worker.status_label(),
            tone: status_tone(worker),
            presence: worker.presence.clone(),
        },
    );
    let mut unread = String::from_str("Unread  ");
    unread.append(decimal_text(worker.unread_messages as u64).as_str());
    push_line(&mut lines, text_line(unread));
    let mut queued = String::from_str("Queued  ");
    queued.append(decimal_text(worker.queued_tasks.len() as u64).as_str());
    push_line(&mut lines, text_line(queued));
    assert(line_models(lines@) =~= header_lines(worker@));
    lines
}

fn evidence(worker: &PopupWorkerView) -> (lines: Vec<PopupLine>)
    ensures
        line_models(lines@) == evidence_lines(worker@),
{
    let mut lines: Vec<PopupLine> = Vec::new();
    if let Some(health) = &worker.native_health {
        let mut text = String::from_str("Health  ");
        text.append(health.as_str());
        push_line(&mut lines, text_line(text));
    }
    if let Some((summary, observed_at)) = &worker.last_activity {
        let mut text = String::from_str("Activity  ");
        text.append(summary.as_str());
        text.append(" · observed ");
        text.append(observed_at.as_str());
        push_line(&mut lines, text_line(text));
    }
    if let Some(context) = &worker.context_percent {
        let mut text = String::from_str("Context  ");
        text.append(context.as_str());
        text.append("% · observed ");
        match &worker.context_observed_at {
            Some(observed) => text.append(observed.as_str()),
            None => text.append("observation time unavailable"),
        }
        push_line(&mut lines, text_line(text));
    }
    assert(line_models(lines@) =~= evidence_lines(worker@));
    lines
}

fn scheduling_text(state: TaskSchedulingState) -> (label: &'static str)
    ensures
        label@ == scheduling_label(state),
{
    match state {
        TaskSchedulingState::Blocked => "Blocked",
        TaskSchedulingState::Ready => "Ready",
    }
}

fn queued_task(task: &PopupTaskView) -> (lines: Vec<PopupLine>)
    ensures
        line_models(lines@) == queued_task_lines(task@),
{
    let mut lines: Vec<PopupLine> = Vec::new();
    let mut text = task.title.clone();
    text.append(" · queue ");
    match task.worker_queue_position {
        Some(p) => text.append(decimal_text(p as u64).as_str()),
        None => text.append("-"),
    }
    text.append(" · ");
    text.append(scheduling_text(task.scheduling_state));
    push_line(&mut lines, text_line(text));
    let blockers = task_blockers(task);
    if blockers.len() > 0 {
        let mut text = String::from_str("  ");
        text.append(join_texts(&blockers, " · ").as_str());
        push_line(&mut lines, text_line(text));
    }
    assert(line_models(lines@) =~= queued_task_lines(task@));
    lines
}

fn hold_text(hold: &HoldView) -> (line: PopupLine)
    ensures
        line@ == hold_line(*hold),
{
    let mut text = String::from_str("Worktree Hold  ");
    text.append(hold.task_id.to_text().as_str());
    text.append(" · ");
    text.append(hold.reason.as_str());
    PopupLine::Notice(text)
}

fn tasks(worker: &PopupWorkerView) -> (lines: Vec<PopupLine>)
    ensures
        line_models(lines@) == task_lines(worker@),
{
    let mut lines: Vec<PopupLine> = Vec::new();
    let ghost w = worker@;
    if let Some(task) = &worker.active_task {
        push_line(&mut lines, empty_line());
        push_line(&mut lines, PopupLine::Heading(String::from_str("Active Task")));
        let mut text = task.title.clone();
        text.append(" · ");
        text.append(task.task.state.as_str());
        text.append(" · revision ");
        text.append(decimal_text(task.task.result_revision as u64).as_str());
        push_line(&mut lines, text_line(text));
    }
    let ghost after_active = line_models(lines@);
    if worker.blockers.len() > 0 {
        push_line(&mut lines, empty_line());
        let mut text = String::from_str("Blockers  ");
        text.append(join_texts(&worker.blockers, " · ").as_str());
        push_line(&mut lines, text_line(text));
    }
    let ghost after_blockers = line_models(lines@);
    if worker.queued_tasks.len() > 0 {
        push_line(&mut lines, empty_line());
        push_line(&mut lines, PopupLine::Heading(String::from_str("Queued Tasks")));
        let ghost before_queue = line_models(lines@);
        let mut i: usize = 0;
        while i < worker.queued_tasks.len()
            invariant
                i <= worker.queued_tasks@.len(),
                w == worker@,
                line_models(lines@) == before_queue + queue_lines(w.queued_tasks.take(i as int)),
            decreases worker.queued_tasks@.len() - i,
        {
            let more = queued_task(&worker.queued_tasks[i]);
            proof {
                let q = w.queued_tasks;
                assert(q.take(i + 1).drop_last() =~= q.take(i as int));
                assert(q.take(i + 1).last() == worker.queued_tasks@[i as int]@);
            }
            append_lines(&mut lines, more);
            proof {
                assert(before_queue + queue_lines(w.queued_tasks.take(i as int)) + queued_task_lines(
                    worker.queued_tasks@[i as int]@,
                ) =~= before_queue + queue_lines(w.queued_tasks.take(i + 1)));
            }
            i = i + 1;
        }
        assert(w.queued_tasks.take(worker.queued_tasks@.len() as int) =~= w.queued_tasks);
    }
    let ghost before_holds = line_models(lines@);
    let mut k: usize = 0;
    while k < worker.holds.len()
        invariant
            k <= worker.holds@.len(),
            w == worker@,
            line_models(lines@) == before_holds + w.holds.take(k as int).map_values(
                |h: HoldView| hold_line(h),
            ),
        decreases worker.holds@.len() - k,
    {
        let line = hold_text(&worker.holds[k]);
        push_line(&mut lines, line);
        proof {
            assert(w.holds.take(k + 1).map_values(|h: HoldView| hold_line(h)) =~= w.holds.take(
                k as int,
            ).map_values(|h: HoldView| hold_line(h)).push(hold_line(w.holds[k as int])));
        }
        k = k + 1;
    }
    assert(w.holds.take(worker.holds@.len() as int) =~= w.holds);
    assert(line_models(lines@) =~= task_lines(worker@));
    lines
}

/// Lists the detail lines of a Worker.
pub fn worker_detail_lines(worker: &PopupWorkerView) -> (lines: Vec<PopupLine>)
    ensures
        line_models(lines@) == detail_lines_of(worker@),
{
    let mut lines = header(worker);
    append_lines(&mut lines, evidence(worker));
    append_lines(&mut lines, tasks(worker));
    assert(line_models(lines@) =~= detail_lines_of(worker@));
    lines
}

/// The warnings shown above the detail: a refresh error, then an action warning.
pub open spec fn notice_lines(stale_error: Option<Seq<char>>, warning: Option<Seq<char>>) -> Seq<LineView> {
    (match stale_error {
        Some(e) => seq![LineView::Notice("Refresh error: "@ + e)],
        None => Seq::empty(),
    }) + (match warning {
        Some(w) => seq![LineView::Notice("Action warning: "@ + w)],
        None => Seq::empty(),
    })
}

/// The view of an optional text argument.
pub open spec fn opt_str(text: Option<&str>) -> Option<Seq<char>> {
    match text {
        Some(t) => Some(t@),
        None => None,
    }
}

/// The lines of the detail pane: the warnings, then the selected Worker's detail.
pub open spec fn detail_pane_of(
    worker: Option<PopupWorkerModel>,
    stale_error: Option<Seq<char>>,
    warning: Option<Seq<char>>,
) -> Seq<LineView> {
    notice_lines(stale_error, warning) + match worker {
        Some(w) => detail_lines_of(w),
        None => seq![LineView::Text("No top-level Worker is available."@)],
    }
}

/// Lists the lines of the detail pane.
pub fn detail_pane(
    worker: Option<&PopupWorkerView>,
    stale_error: Option<&str>,
    warning: Option<&str>,
) -> (lines: Vec<PopupLine>)
    ensures
        line_models(lines@) == detail_pane_of(
            match worker {
                Some(w) => Some(w@),
                None => None,
            },
            opt_str(stale_error),
            opt_str(warning),
        ),
{
    let mut lines: Vec<PopupLine> = Vec::new();
    if let Some(error) = stale_error {
        let mut text = String::from_str("Refresh error: ");
        text.append(error);
        push_line(&mut lines, PopupLine::Notice(text));
    }
    if let Some(w) = warning {
        let mut text = String::from_str("Action warning: ");
        text.append(w);
        push_line(&mut lines, PopupLine::Notice(text));
    }
    match worker {
        Some(w) => append_lines(&mut lines, worker_detail_lines(w)),
        None => push_line(&mut lines, text_line(String::from_str("No top-level Worker is available."))),
    }
    assert(line_models(lines@) =~= detail_pane_of(
        match worker {
            Some(w) => Some(w@),
            None => None,
        },
        opt_str(stale_error),
        opt_str(warning),
    ));
    lines
}

/// The key legend shown under the popup.
pub const POPUP_FOOTER: &'static str = "[↑/↓] Select  [Enter/→] Detail  [←] List  [a] Approve  [c] Cancel  [h] Clear Hold\n[s] Stop Worker  [r] Refresh  [o] Open Worker  [Esc/q] Close";

/// The title of the detail pane.
pub const DETAIL_TITLE: &'static str = " Worker detail ";

/// The minimum inner width at which the list and the detail are shown side by side.
pub const SPLIT_MIN_WIDTH: u16 = 88;

/// The text, or `unknown` when it is absent.
pub open spec fn or_unknown(text: Option<Seq<char>>) -> Seq<char> {
    match text {
        Some(t) => t,
        None => "unknown"@,
    }
}

/// The Supervisor part of the popup title.
pub open spec fn supervisor_part(d: PopupDashboardModel) -> Seq<char> {
    match d.supervisor_id {
        Some(id) => " · Supervisor "@ + id + " "@ + or_unknown(d.supervisor_presence) + "/"@
            + or_unknown(d.supervisor_activity),
        None => Seq::empty(),
    }
}

/// The popup title: marked stale after a failed refresh, otherwise naming the Supervisor and
/// the time of the Dashboard when known.
pub open spec fn popup_title(d: PopupDashboardModel, stale: bool) -> Seq<char> {
    if stale {
        " Harness Network · STALE "@
    } else {
        match d.generated_at {
            None => " Harness Network"@ + supervisor_part(d) + " "@,
            Some(g) => " Harness Network"@ + supervisor_part(d) + " · updated "@ + g + " "@,
        }
    }
}

fn or_unknown_text(out: &mut String, text: &Option<String>)
    ensures
        final(out)@ == old(out)@ + or_unknown(
            match text {
                Some(t) => Some(t@),
                None => None,
            },
        ),
{
    match text {
        Some(t) => out.append(t.as_str()),
        None => out.append("unknown"),
    }
}

/// Formats the popup title.
pub fn title_text(dashboard: &PopupDashboard, stale: bool) -> (title: String)
    ensures
        title@ == popup_title(dashboard@, stale),
{
    if stale {
        return String::from_str(" Harness Network · STALE ");
    }
    let mut title = String::from_str(" Harness Network");
    if let Some(id) = &dashboard.supervisor_id {
        title.append(" · Supervisor ");
        title.append(id.as_str());
        title.append(" ");
        or_unknown_text(&mut title, &dashboard.supervisor_presence);
        title.append("/");
        or_unknown_text(&mut title, &dashboard.supervisor_activity);
    }
    if let Some(generated_at) = &dashboard.generated_at {
        title.append(" · updated ");
        title.append(generated_at.as_str());
    }
    title.append(" ");
    title
}

/// The number of Worker rows that need attention.
pub open spec fn attention_count(ws: Seq<PopupWorkerModel>) -> nat
    decreases ws.len(),
{
    if ws.len() == 0 {
        0
    } else {
        attention_count(ws.drop_last()) + if needs_attention(ws.last()) {
            1nat
        } else {
            0nat
        }
    }
}

proof fn lemma_attention_count_bound(ws: Seq<PopupWorkerModel>)
    ensures
        attention_count(ws) <= ws.len(),
    decreases ws.len(),
{
    if ws.len() > 0 {
        lemma_attention_count_bound(ws.drop_last());
    }
}

/// The title of the Worker list: the Workers and the Supervisor items that need attention.
pub open spec fn list_title(d: PopupDashboardModel) -> Seq<char> {
    " Workers · "@ + decimal(
        if attention_count(d.workers) + d.supervisor_attention <= u64::MAX {
            (attention_count(d.workers) + d.supervisor_attention) as nat
        } else {
            u64::MAX as nat
        },
    ) + " attention "@
}

/// Formats the title of the Worker list.
pub fn list_title_text(dashboard: &PopupDashboard) -> (title: String)
    ensures
        title@ == list_title(dashboard@),
{
    let ghost ws = dashboard@.workers;
    let mut count: u64 = 0;
    let mut i: usize = 0;
    while i < dashboard.workers.len()
        invariant
            i <= dashboard.workers@.len(),
            ws == dashboard@.workers,
            count == attention_count(ws.take(i as int)),
            count <= i,
        decreases dashboard.workers@.len() - i,
    {
        proof {
            assert(ws.take(i + 1).drop_last() =~= ws.take(i as int));
            assert(ws.take(i + 1).last() == ws[i as int]);
        }
        if dashboard.workers[i].attention_required() {
            count = count + 1;
        }
        i = i + 1;
    }
    assert(ws.take(dashboard.workers@.len() as int) =~= ws);
    let total = count.saturating_add(dashboard.supervisor_attention as u64);
    let mut title = String::from_str(" Workers · ");
    title.append(decimal_text(total).as_str());
    title.append(" attention ");
    title
}

/// The identity column of a Worker row: the Harness ID padded with spaces to 20 characters.
pub open spec fn id_column(id: Seq<char>) -> Seq<char> {
    if id.len() < 20 {
        id + Seq::new((20 - id.len()) as nat, |i: int| ' ')
    } else {
        id
    }
}

/// One row of the Worker list, by part: the padded identity, the status label in its tone,
/// and the unread count.
#[derive(Debug, Clone, PartialEq, Eq)]
pub struct WorkerRow {
    pub id_column: String,
    pub label: String,
    pub tone: StatusTone,
    pub inbox: String,
}

/// Lays out one row of the Worker list.
pub fn worker_row(worker: &PopupWorkerView) -> (row: WorkerRow)
    ensures
        row.id_column@ == id_column(worker@.id),
        row.label@ == status_label_of(worker@),
        row.tone == status_tone_of(worker@),
        row.inbox@ == "  inbox "@ + decimal(worker@.unread_messages as nat),
{
    let id = worker.id.as_str();
    let mut column = id.to_owned();
    let n = id.unicode_len();
    if n < 20 {
        let mut k: usize = n;
        while k < 20
            invariant
                n <= k <= 20,
                n == id@.len(),
                column@ == id@ + Seq::new((k - n) as nat, |i: int| ' '),
            decreases 20 - k,
        {
            column.append(" ");
            proof {
                reveal_strlit(" ");
                assert(column@ =~= id@ + Seq::new((k + 1 - n) as nat, |i: int| ' '));
            }
            k = k + 1;
        }
    }
    let mut inbox = String::from_str("  inbox ");
    inbox.append(decimal_text(worker.unread_messages as u64).as_str());
    WorkerRow { id_column: column, label: worker.status_label(), tone: status_tone(worker), inbox }
}

/// How the popup's inner area is divided.
#[derive(Debug, Clone, Copy, PartialEq, Eq, Structural)]
pub enum PopupLayout {
    /// The list and the detail side by side.
    Split,
    /// Only the selected Worker's detail.
    Detail,
    /// Only the Worker list.
    List,
}

/// Chooses the layout for an inner width: side by side when wide enough, otherwise the
/// narrow-terminal mode.
pub fn popup_layout(inner_width: u16, mode: PopupNarrowMode) -> (layout: PopupLayout)
    ensures
        layout == if inner_width >= SPLIT_MIN_WIDTH {
            PopupLayout::Split
        } else if mode == PopupNarrowMode::Detail {
            PopupLayout::Detail
        } else {
            PopupLayout::List
        },
{
    if inner_width >= SPLIT_MIN_WIDTH {
        PopupLayout::Split
    } else {
        match mode {
            PopupNarrowMode::Detail => PopupLayout::Detail,
            PopupNarrowMode::List => PopupLayout::List,
        }
    }
}

/// The snapshot line of one Worker.
pub open spec fn snapshot_row(w: PopupWorkerModel) -> Seq<char> {
    w.id + " · "@ + w.presence + " · "@ + status_label_of(w) + " · inbox "@ + decimal(
        w.unread_messages as nat,
    ) + "\n"@
}

/// The snapshot lines of each Worker, in order.
pub open spec fn snapshot_rows(ws: Seq<PopupWorkerModel>) -> Seq<char>
    decreases ws.len(),
{
    if ws.len() == 0 {
        Seq::empty()
    } else {
        snapshot_rows(ws.drop_last()) + snapshot_row(ws.last())
    }
}

/// The plain-text snapshot of a Dashboard for non-interactive callers.
pub open spec fn snapshot_of(d: PopupDashboardModel) -> Seq<char> {
    "Harness Network\n\nWorkers\n"@ + match d.supervisor_id {
        Some(id) => "Supervisor "@ + id + "\n"@,
        None => Seq::empty(),
    } + snapshot_rows(d.workers) + "\nTasks\nScheduling\n"@
}

fn snapshot_row_text(w: &PopupWorkerView) -> (row: String)
    ensures
        row@ == snapshot_row(w@),
{
    let mut text = w.id.as_str().to_owned();
    text.append(" · ");
    text.append(w.presence.as_str());
    text.append(" · ");
    text.append(w.status_label().as_str());
    text.append(" · inbox ");
    text.append(decimal_text(w.unread_messages as u64).as_str());
    text.append("\n");
    text
}

/// Renders the plain-text snapshot of a Dashboard.
pub fn snapshot_text(dashboard: &PopupDashboard) -> (text: String)
    ensures
        text@ == snapshot_of(dashboard@),
{
    let mut text = String::from_str("Harness Network\n\nWorkers\n");
    if let Some(id) = &dashboard.supervisor_id {
        text.append("Supervisor ");
        text.append(id.as_str());
        text.append("\n");
    }
    let ghost head = text@;
    let ghost ws = dashboard@.workers;
    let mut i: usize = 0;
    while i < dashboard.workers.len()
        invariant
            i <= dashboard.workers@.len(),
            ws == dashboard@.workers,
            text@ == head + snapshot_rows(ws.take(i as int)),
        decreases dashboard.workers@.len() - i,
    {
        let row = snapshot_row_text(&dashboard.workers[i]);
        let ghost before = text@;
        text.append(row.as_str());
        proof {
            assert(ws.take(i + 1).drop_last() =~= ws.take(i as int));
            assert(ws.take(i + 1).last() == ws[i as int]);
            assert(snapshot_rows(ws.take(i + 1)) == snapshot_rows(ws.take(i as int)) + snapshot_row(
                ws[i as int],
            ));
            assert(text@ =~= head + snapshot_rows(ws.take(i + 1)));
        }
        i = i + 1;
    }
    assert(ws.take(dashboard.workers@.len() as int) =~= ws);
    text.append("\nTasks\nScheduling\n");
    text
}

} // verus!
