//! The Supervisor's Harness Network popup: Worker rows, their visible priority order, and a
//! selection that follows durable Harness identity across refreshes.
use vstd::prelude::*;
use vstd::multiset::Multiset;
use vstd::string::*;
use crate::adapter::WorkerCompletionTools;
use crate::contract::{
    uuid_text, DependencyCondition, HarnessId, HarnessKind, HarnessSessionId, HarnessTier,
    NativeSessionHealth, TaskId,
};
use crate::ordering::{bytes_less, lemma_lex_transitive, lemma_lex_trichotomy, lex_less};
use crate::text::utf8_bytes;
use crate::views::{
    activity_name, copy_dependencies, copy_task_ids, copy_text_option, presence_name,
    DashboardTaskView, DashboardView, DashboardWorkerView, HarnessStatusView, HoldView,
    TaskDependencyView, TaskGraphView, TaskSchedulingState, TaskState, TaskView,
};

verus! {

/// Whether a text equals a literal.
pub fn text_equals(text: &String, literal: &str) -> (same: bool)
    ensures
        same == (text@ == literal@),
{
    *text == literal.to_owned()
}

/// The view of an optional text.
pub open spec fn opt_text(value: Option<String>) -> Option<Seq<char>> {
    match value {
        Some(text) => Some(text@),
        None => None,
    }
}

/// One Task row of the popup: its title and Task graph evidence.
#[derive(Debug)]
pub struct PopupTaskView {
    pub title: String,
    pub task: TaskView,
    pub scheduling_state: TaskSchedulingState,
    pub dependencies: Vec<TaskDependencyView>,
    pub dependents: Vec<TaskId>,
    pub worker_queue_position: Option<u32>,
    pub waiting_for_worker: bool,
    pub waiting_for_session: bool,
    pub waiting_for_repository: bool,
}

/// The mathematical value of a [`PopupTaskView`].
pub struct PopupTaskModel {
    pub title: Seq<char>,
    pub task: TaskView,
    pub scheduling_state: TaskSchedulingState,
    pub dependencies: Seq<TaskDependencyView>,
    pub dependents: Seq<TaskId>,
    pub worker_queue_position: Option<u32>,
    pub waiting_for_worker: bool,
    pub waiting_for_session: bool,
    pub waiting_for_repository: bool,
}

impl View for PopupTaskView {
    type V = PopupTaskModel;

    open spec fn view(&self) -> PopupTaskModel {
        PopupTaskModel {
            title: self.title@,
            task: self.task,
            scheduling_state: self.scheduling_state,
            dependencies: self.dependencies@,
            dependents: self.dependents@,
            worker_queue_position: self.worker_queue_position,
            waiting_for_worker: self.waiting_for_worker,
            waiting_for_session: self.waiting_for_session,
            waiting_for_repository: self.waiting_for_repository,
        }
    }
}

/// One top-level Worker row in the Supervisor popup.
#[derive(Debug)]
pub struct PopupWorkerView {
    pub id: HarnessId,
    pub kind: String,
    pub model: Option<String>,
    pub launch_profile: Option<String>,
    pub presence: String,
    pub activity: String,
    pub native_health: Option<String>,
    pub context_percent: Option<String>,
    pub context_observed_at: Option<String>,
    pub last_activity: Option<(String, String)>,
    pub session_id: Option<HarnessSessionId>,
    pub terminal_id: Option<String>,
    pub unread_messages: u32,
    pub active_task: Option<PopupTaskView>,
    pub queued_tasks: Vec<PopupTaskView>,
    pub blockers: Vec<String>,
    pub holds: Vec<HoldView>,
    pub attention_events: usize,
}

/// The mathematical value of a [`PopupWorkerView`].
pub struct PopupWorkerModel {
    pub id: Seq<char>,
    pub kind: Seq<char>,
    pub model: Option<Seq<char>>,
    pub launch_profile: Option<Seq<char>>,
    pub presence: Seq<char>,
    pub activity: Seq<char>,
    pub native_health: Option<Seq<char>>,
    pub context_percent: Option<Seq<char>>,
    pub context_observed_at: Option<Seq<char>>,
    pub last_activity: Option<(Seq<char>, Seq<char>)>,
    pub session_id: Option<HarnessSessionId>,
    pub terminal_id: Option<Seq<char>>,
    pub unread_messages: u32,
    pub active_task: Option<PopupTaskModel>,
    pub queued_tasks: Seq<PopupTaskModel>,
    pub blockers: Seq<Seq<char>>,
    pub holds: Seq<HoldView>,
    pub attention_events: nat,
}

/// The views of a list of Task rows.
pub open spec fn task_models(tasks: Seq<PopupTaskView>) -> Seq<PopupTaskModel> {
    tasks.map_values(|t: PopupTaskView| t@)
}

/// The views of a list of texts.
pub open spec fn text_models(texts: Seq<String>) -> Seq<Seq<char>> {
    texts.map_values(|t: String| t@)
}

impl View for PopupWorkerView {
    type V = PopupWorkerModel;

    open spec fn view(&self) -> PopupWorkerModel {
        PopupWorkerModel {
            id: self.id@,
            kind: self.kind@,
            model: opt_text(self.model),
            launch_profile: opt_text(self.launch_profile),
            presence: self.presence@,
            activity: self.activity@,
            native_health: opt_text(self.native_health),
            context_percent: opt_text(self.context_percent),
            context_observed_at: opt_text(self.context_observed_at),
            last_activity: match self.last_activity {
                Some((summary, observed_at)) => Some((summary@, observed_at@)),
                None => None,
            },
            session_id: self.session_id,
            terminal_id: opt_text(self.terminal_id),
            unread_messages: self.unread_messages,
            active_task: match self.active_task {
                Some(task) => Some(task@),
                None => None,
            },
            queued_tasks: task_models(self.queued_tasks@),
            blockers: text_models(self.blockers@),
            holds: self.holds@,
            attention_events: self.attention_events as nat,
        }
    }
}

/// The views of a list of Worker rows.
pub open spec fn worker_models(workers: Seq<PopupWorkerView>) -> Seq<PopupWorkerModel> {
    workers.map_values(|w: PopupWorkerView| w@)
}

/// An activity that needs Supervisor attention.
pub open spec fn is_attention_activity(activity: Seq<char>) -> bool {
    ||| activity == "waiting"@
    ||| activity == "reviewing"@
    ||| activity == "cancelling"@
    ||| activity == "delivery_unknown"@
}

/// A Task state that needs Supervisor attention.
pub open spec fn is_attention_state(state: TaskState) -> bool {
    ||| state == TaskState::Waiting
    ||| state == TaskState::Reviewing
    ||| state == TaskState::Cancelling
    ||| state == TaskState::DeliveryUnknown
}

/// A Task state in which the Worker is executing.
pub open spec fn is_running_state(state: TaskState) -> bool {
    ||| state == TaskState::Dispatching
    ||| state == TaskState::Working
    ||| state == TaskState::Cancelling
}

/// A Worker needs Supervisor attention: unread mail, a Hold, an attention event, or a waiting,
/// reviewing, cancelling, or ambiguous activity or active Task.
pub open spec fn needs_attention(w: PopupWorkerModel) -> bool {
    ||| w.unread_messages > 0
    ||| w.holds.len() > 0
    ||| w.attention_events > 0
    ||| is_attention_activity(w.activity)
    ||| (w.active_task is Some && is_attention_state(w.active_task->0.task.state))
}

/// Visible priority of a Worker row: attention first, then running work, then queued work,
/// then online Workers, then the rest.
pub open spec fn worker_priority(w: PopupWorkerModel) -> u8 {
    if needs_attention(w) {
        0
    } else if w.active_task is Some && is_running_state(w.active_task->0.task.state) {
        1
    } else if w.queued_tasks.len() > 0 {
        2
    } else if w.presence == "online"@ {
        3
    } else {
        4
    }
}

/// The status label of a Worker row: its active Task's state, or else its activity.
pub open spec fn status_label_of(w: PopupWorkerModel) -> Seq<char> {
    match w.active_task {
        Some(task) => crate::views::task_state_name(task.task.state),
        None => w.activity,
    }
}

/// `a` may be shown before `b`: lower priority value, or equal priority and a Harness ID that
/// does not sort after `b`'s.
pub open spec fn ranks_no_later(a: PopupWorkerModel, b: PopupWorkerModel) -> bool {
    ||| worker_priority(a) < worker_priority(b)
    ||| (worker_priority(a) == worker_priority(b) && !lex_less(
        utf8_bytes(b.id),
        utf8_bytes(a.id),
    ))
}

/// Inserts a row into a ranked list after every row that may be shown before it.
pub open spec fn insert_ranked(s: Seq<PopupWorkerModel>, w: PopupWorkerModel) -> Seq<
    PopupWorkerModel,
>
    decreases s.len(),
{
    if s.len() == 0 {
        seq![w]
    } else if ranks_no_later(s.last(), w) {
        s.push(w)
    } else {
        insert_ranked(s.drop_last(), w).push(s.last())
    }
}

/// The stable ordering of rows by priority and then Harness ID.
pub open spec fn ranked(s: Seq<PopupWorkerModel>) -> Seq<PopupWorkerModel>
    decreases s.len(),
{
    if s.len() == 0 {
        s
    } else {
        insert_ranked(ranked(s.drop_last()), s.last())
    }
}

/// Every row may be shown before every later row.
pub open spec fn is_ranked(s: Seq<PopupWorkerModel>) -> bool {
    forall|i: int, j: int| 0 <= i < j < s.len() ==> ranks_no_later(s[i], s[j])
}


/// Any two rows can be ordered one way or the other.
proof fn lemma_ranks_total(a: PopupWorkerModel, b: PopupWorkerModel)
    ensures
        ranks_no_later(a, b) || ranks_no_later(b, a),
{
    lemma_lex_trichotomy(utf8_bytes(a.id), utf8_bytes(b.id));
}

/// The row order is transitive.
proof fn lemma_ranks_transitive(a: PopupWorkerModel, b: PopupWorkerModel, c: PopupWorkerModel)
    requires
        ranks_no_later(a, b),
        ranks_no_later(b, c),
    ensures
        ranks_no_later(a, c),
{
    let x = utf8_bytes(a.id);
    let y = utf8_bytes(b.id);
    let z = utf8_bytes(c.id);
    lemma_lex_trichotomy(x, y);
    lemma_lex_trichotomy(y, z);
    lemma_lex_trichotomy(x, z);
    if lex_less(x, y) && lex_less(y, z) {
        lemma_lex_transitive(x, y, z);
    }
}

/// Inserting a row keeps every given row and the new one, and keeps a ranked list ranked.
proof fn lemma_insert_ranked_facts(s: Seq<PopupWorkerModel>, w: PopupWorkerModel)
    ensures
        insert_ranked(s, w).to_multiset() =~= s.to_multiset().insert(w),
        forall|k: int|
            0 <= k < insert_ranked(s, w).len() ==> #[trigger] insert_ranked(s, w)[k] == w
                || s.contains(insert_ranked(s, w)[k]),
        is_ranked(s) ==> is_ranked(insert_ranked(s, w)),
    decreases s.len(),
{
    broadcast use vstd::seq_lib::group_to_multiset_ensures;

    let r = insert_ranked(s, w);
    if s.len() == 0 {
        assert(seq![w] =~= Seq::<PopupWorkerModel>::empty().push(w));
        assert(s =~= Seq::<PopupWorkerModel>::empty());
    } else if ranks_no_later(s.last(), w) {
        assert forall|k: int| 0 <= k < r.len() implies #[trigger] r[k] == w || s.contains(r[k]) by {
            if k < s.len() {
                assert(r[k] == s[k]);
            }
        }
        if is_ranked(s) {
            assert forall|i: int, j: int| 0 <= i < j < r.len() implies ranks_no_later(
                r[i],
                r[j],
            ) by {
                if j == s.len() && i < s.len() - 1 {
                    lemma_ranks_transitive(s[i], s.last(), w);
                }
            }
        }
    } else {
        let d = s.drop_last();
        let rd = insert_ranked(d, w);
        lemma_insert_ranked_facts(d, w);
        assert(s =~= d.push(s.last()));
        assert forall|k: int| 0 <= k < r.len() implies #[trigger] r[k] == w || s.contains(r[k]) by {
            if k < rd.len() {
                assert(r[k] == rd[k]);
                if rd[k] != w {
                    let m = choose|m: int| 0 <= m < d.len() && d[m] == rd[k];
                    assert(s[m] == rd[k]);
                }
            } else {
                assert(r[k] == s[s.len() - 1]);
            }
        }
        if is_ranked(s) {
            assert(is_ranked(d));
            lemma_ranks_total(s.last(), w);
            assert forall|i: int, j: int| 0 <= i < j < r.len() implies ranks_no_later(
                r[i],
                r[j],
            ) by {
                if j == rd.len() {
                    assert(r[i] == rd[i]);
                    if rd[i] != w {
                        assert(d.contains(rd[i]));
                        let m = choose|m: int| 0 <= m < d.len() && d[m] == rd[i];
                        assert(s[m] == rd[i]);
                    }
                } else {
                    assert(r[i] == rd[i] && r[j] == rd[j]);
                }
            }
        }
    }
}

/// The visible order holds exactly the given rows, each as often as given, and every row may
/// be shown before every later row.
pub proof fn lemma_ranked_is_ordered_permutation(s: Seq<PopupWorkerModel>)
    ensures
        ranked(s).to_multiset() =~= s.to_multiset(),
        is_ranked(ranked(s)),
    decreases s.len(),
{
    broadcast use vstd::seq_lib::group_to_multiset_ensures;

    if s.len() > 0 {
        lemma_ranked_is_ordered_permutation(s.drop_last());
        lemma_insert_ranked_facts(ranked(s.drop_last()), s.last());
        assert(s =~= s.drop_last().push(s.last()));
    }
}



/// A row whose Worker runs its active Task: dispatching, working, or being cancelled.
pub open spec fn runs_active_task(w: PopupWorkerModel) -> bool {
    w.active_task matches Some(t) && (t.task.state == TaskState::Dispatching || t.task.state
        == TaskState::Working || t.task.state == TaskState::Cancelling)
}

/// A row that asks for the Supervisor: unread Messages, a Hold, an attention event, a waiting,
/// reviewing, cancelling, or ambiguous activity, or an active Task in such a state.
pub open spec fn asks_for_supervisor(w: PopupWorkerModel) -> bool {
    ||| w.unread_messages > 0
    ||| w.holds.len() > 0
    ||| w.attention_events > 0
    ||| w.activity == "waiting"@
    ||| w.activity == "reviewing"@
    ||| w.activity == "cancelling"@
    ||| w.activity == "delivery_unknown"@
    ||| (w.active_task matches Some(t) && (t.task.state == TaskState::Waiting || t.task.state
        == TaskState::Reviewing || t.task.state == TaskState::Cancelling || t.task.state
        == TaskState::DeliveryUnknown))
}

/// A row whose Worker has nothing to show: no attention, no running Task, nothing queued.
pub open spec fn is_quiet(w: PopupWorkerModel) -> bool {
    !needs_attention(w) && !runs_active_task(w) && w.queued_tasks.len() == 0
}

/// The visible order shows Workers needing attention first, then Workers running a Task, then
/// Workers with queued Tasks, then online Workers, then the rest: no row comes after a row of
/// a later group, and a row of an earlier group strictly ranks before a row of a later one.
/// Among quiet Workers, an online one strictly ranks before one that is not, and quiet
/// Workers of the same presence are listed in ascending Harness ID order.
pub proof fn visible_order_puts_attention_work_then_online_workers_first(
    s: Seq<PopupWorkerModel>,
    i: int,
    j: int,
    a: PopupWorkerModel,
    b: PopupWorkerModel,
)
    ensures
        0 <= i < j < ranked(s).len() ==> ({
            let x = ranked(s)[i];
            let y = ranked(s)[j];
            &&& needs_attention(y) ==> needs_attention(x)
            &&& runs_active_task(y) ==> needs_attention(x) || runs_active_task(x)
            &&& y.queued_tasks.len() > 0 ==> needs_attention(x) || runs_active_task(x)
                || x.queued_tasks.len() > 0
            &&& is_quiet(x) && is_quiet(y) && y.presence == "online"@ ==> x.presence == "online"@
            &&& is_quiet(x) && is_quiet(y) && (x.presence == "online"@) == (y.presence
                == "online"@) ==> !lex_less(utf8_bytes(y.id), utf8_bytes(x.id))
            &&& asks_for_supervisor(x) == needs_attention(x)
        }),
        is_quiet(a) && is_quiet(b) && a.presence == "online"@ && b.presence != "online"@ ==> (
        ranks_no_later(a, b) && !ranks_no_later(b, a)),
        needs_attention(a) && !needs_attention(b) ==> ranks_no_later(a, b) && !ranks_no_later(
            b,
            a,
        ),
        asks_for_supervisor(a) && !asks_for_supervisor(b) ==> ranks_no_later(a, b)
            && !ranks_no_later(b, a),
        runs_active_task(a) && !asks_for_supervisor(a) && !asks_for_supervisor(b)
            && !runs_active_task(b) ==> ranks_no_later(a, b) && !ranks_no_later(b, a),
        a.queued_tasks.len() > 0 && !asks_for_supervisor(a) && !runs_active_task(a)
            && !asks_for_supervisor(b) && !runs_active_task(b) && b.queued_tasks.len() == 0
            ==> ranks_no_later(a, b) && !ranks_no_later(b, a),
{
    lemma_ranked_is_ordered_permutation(s);
    if 0 <= i < j < ranked(s).len() {
        assert(ranks_no_later(ranked(s)[i], ranked(s)[j]));
    }
}

/// The text of each blocker flag that is set, in a fixed order.
pub open spec fn blocker_texts(worker: bool, session: bool, repository: bool) -> Seq<Seq<char>> {
    (if worker {
        seq!["waiting Worker"@]
    } else {
        Seq::empty()
    }) + (if session {
        seq!["waiting Session"@]
    } else {
        Seq::empty()
    }) + (if repository {
        seq!["waiting repository"@]
    } else {
        Seq::empty()
    })
}

/// Builds the blocker texts of the set flags.
fn blockers_of(worker: bool, session: bool, repository: bool) -> (blockers: Vec<String>)
    ensures
        text_models(blockers@) == blocker_texts(worker, session, repository),
{
    let mut blockers: Vec<String> = Vec::new();
    if worker {
        blockers.push("waiting Worker".to_owned());
    }
    if session {
        blockers.push("waiting Session".to_owned());
    }
    if repository {
        blockers.push("waiting repository".to_owned());
    }
    assert(text_models(blockers@) =~= blocker_texts(worker, session, repository));
    blockers
}

/// The variant name of a dependency condition, as diagnostics print it.
pub open spec fn condition_label(condition: DependencyCondition) -> Seq<char> {
    match condition {
        DependencyCondition::ResultReady => "ResultReady"@,
        DependencyCondition::Approved => "Approved"@,
    }
}

fn condition_label_text(condition: DependencyCondition) -> (label: &'static str)
    ensures
        label@ == condition_label(condition),
{
    match condition {
        DependencyCondition::ResultReady => "ResultReady",
        DependencyCondition::Approved => "Approved",
    }
}

/// The blocker text of one dependency edge.
pub open spec fn dependency_blocker(d: TaskDependencyView) -> Seq<char> {
    "dependency "@ + uuid_text(d.task_id.0) + " "@ + condition_label(d.condition)
}

/// The blocker texts of the dependency edges that no Result revision satisfies yet, in order.
pub open spec fn unsatisfied_blockers(deps: Seq<TaskDependencyView>) -> Seq<Seq<char>>
    decreases deps.len(),
{
    if deps.len() == 0 {
        Seq::empty()
    } else {
        let rest = unsatisfied_blockers(deps.drop_last());
        if deps.last().satisfied_by_result_revision is None {
            rest.push(dependency_blocker(deps.last()))
        } else {
            rest
        }
    }
}

/// Everything a Task row is waiting on: the set wait flags, then each unsatisfied dependency.
pub open spec fn task_blocker_texts(t: PopupTaskModel) -> Seq<Seq<char>> {
    blocker_texts(t.waiting_for_worker, t.waiting_for_session, t.waiting_for_repository)
        + unsatisfied_blockers(t.dependencies)
}

/// Lists everything a Task row is waiting on: Worker capacity, a Session, repository
/// admission, and each dependency that no Result revision satisfies yet.
pub fn task_blockers(task: &PopupTaskView) -> (blockers: Vec<String>)
    ensures
        text_models(blockers@) == task_blocker_texts(task@),
{
    let mut blockers = blockers_of(
        task.waiting_for_worker,
        task.waiting_for_session,
        task.waiting_for_repository,
    );
    let ghost base = blocker_texts(
        task.waiting_for_worker,
        task.waiting_for_session,
        task.waiting_for_repository,
    );
    let deps = &task.dependencies;
    let mut i: usize = 0;
    while i < deps.len()
        invariant
            i <= deps@.len(),
            text_models(blockers@) == base + unsatisfied_blockers(deps@.take(i as int)),
        decreases deps@.len() - i,
    {
        let d = deps[i];
        proof {
            assert(deps@.take(i + 1).drop_last() =~= deps@.take(i as int));
            assert(deps@.take(i + 1).last() == d);
        }
        if d.satisfied_by_result_revision.is_none() {
            let mut text = String::from_str("dependency ");
            let id = d.task_id.to_text();
            text.append(id.as_str());
            text.append(" ");
            text.append(condition_label_text(d.condition));
            let ghost before = blockers@;
            blockers.push(text);
            proof {
                assert(text_models(blockers@) =~= text_models(before).push(text@));
                assert(base + unsatisfied_blockers(deps@.take(i + 1)) =~= (base
                    + unsatisfied_blockers(deps@.take(i as int))).push(dependency_blocker(d)));
            }
        }
        i = i + 1;
    }
    assert(deps@.take(deps@.len() as int) =~= deps@);
    blockers
}

/// The first Task with the given identity.
pub open spec fn find_task(tasks: Seq<TaskView>, id: TaskId) -> Option<TaskView>
    decreases tasks.len(),
{
    if tasks.len() == 0 {
        None
    } else if tasks[0].id == id {
        Some(tasks[0])
    } else {
        find_task(tasks.drop_first(), id)
    }
}

proof fn lemma_find_task_skip(tasks: Seq<TaskView>, id: TaskId, i: int)
    requires
        0 <= i <= tasks.len(),
        forall|k: int| 0 <= k < i ==> #[trigger] tasks[k].id != id,
    ensures
        find_task(tasks, id) == find_task(tasks.skip(i), id),
    decreases i,
{
    if i == 0 {
        assert(tasks.skip(0) =~= tasks);
    } else {
        lemma_find_task_skip(tasks, id, i - 1);
        assert(tasks.skip(i - 1).drop_first() =~= tasks.skip(i));
    }
}

/// Finds the first Task with the given identity.
fn find_task_exec(tasks: &[TaskView], id: TaskId) -> (found: Option<TaskView>)
    ensures
        found == find_task(tasks@, id),
{
    let mut i: usize = 0;
    while i < tasks.len()
        invariant
            i <= tasks@.len(),
            forall|k: int| 0 <= k < i ==> #[trigger] tasks@[k].id != id,
        decreases tasks@.len() - i,
    {
        if tasks[i].id.0 == id.0 {
            proof {
                lemma_find_task_skip(tasks@, id, i as int);
            }
            return Some(tasks[i].clone());
        }
        i = i + 1;
    }
    proof {
        lemma_find_task_skip(tasks@, id, i as int);
    }
    None
}

/// The blocker flags of the first Task graph row with the given Task identity.
pub open spec fn find_flags(graph: Seq<TaskGraphView>, id: TaskId) -> Option<(bool, bool, bool)>
    decreases graph.len(),
{
    if graph.len() == 0 {
        None
    } else if graph[0].task.id == id {
        Some(
            (
                graph[0].waiting_for_worker,
                graph[0].waiting_for_session,
                graph[0].waiting_for_repository,
            ),
        )
    } else {
        find_flags(graph.drop_first(), id)
    }
}

proof fn lemma_find_flags_skip(graph: Seq<TaskGraphView>, id: TaskId, i: int)
    requires
        0 <= i <= graph.len(),
        forall|k: int| 0 <= k < i ==> #[trigger] graph[k].task.id != id,
    ensures
        find_flags(graph, id) == find_flags(graph.skip(i), id),
    decreases i,
{
    if i == 0 {
        assert(graph.skip(0) =~= graph);
    } else {
        lemma_find_flags_skip(graph, id, i - 1);
        assert(graph.skip(i - 1).drop_first() =~= graph.skip(i));
    }
}

/// Finds the blocker flags of the first Task graph row for a Task.
fn find_flags_exec(graph: &[TaskGraphView], id: TaskId) -> (found: Option<(bool, bool, bool)>)
    ensures
        found == find_flags(graph@, id),
{
    let mut i: usize = 0;
    while i < graph.len()
        invariant
            i <= graph@.len(),
            forall|k: int| 0 <= k < i ==> #[trigger] graph@[k].task.id != id,
        decreases graph@.len() - i,
    {
        if graph[i].task.id.0 == id.0 {
            proof {
                lemma_find_flags_skip(graph@, id, i as int);
            }
            return Some(
                (
                    graph[i].waiting_for_worker,
                    graph[i].waiting_for_session,
                    graph[i].waiting_for_repository,
                ),
            );
        }
        i = i + 1;
    }
    proof {
        lemma_find_flags_skip(graph@, id, i as int);
    }
    None
}

/// The popup row of a Task graph row titled with the given text.
pub open spec fn graph_row_model(title: Seq<char>, g: TaskGraphView) -> PopupTaskModel {
    PopupTaskModel {
        title,
        task: g.task,
        scheduling_state: g.scheduling_state,
        dependencies: g.dependencies@,
        dependents: g.dependents@,
        worker_queue_position: g.worker_queue_position,
        waiting_for_worker: g.waiting_for_worker,
        waiting_for_session: g.waiting_for_session,
        waiting_for_repository: g.waiting_for_repository,
    }
}

/// The queued Task rows of one Worker, titled by Task identity, in graph order.
pub open spec fn queued_rows(graph: Seq<TaskGraphView>, worker: Seq<char>) -> Seq<PopupTaskModel>
    decreases graph.len(),
{
    if graph.len() == 0 {
        Seq::empty()
    } else {
        let rest = queued_rows(graph.drop_last(), worker);
        let g = graph.last();
        if g.task.worker_id@ == worker && g.task.state == TaskState::Queued {
            rest.push(graph_row_model(uuid_text(g.task.id.0), g))
        } else {
            rest
        }
    }
}

/// The Task identities of one Worker's graph rows, in graph order.
pub open spec fn worker_task_ids(graph: Seq<TaskGraphView>, worker: Seq<char>) -> Seq<TaskId>
    decreases graph.len(),
{
    if graph.len() == 0 {
        Seq::empty()
    } else {
        let rest = worker_task_ids(graph.drop_last(), worker);
        if graph.last().task.worker_id@ == worker {
            rest.push(graph.last().task.id)
        } else {
            rest
        }
    }
}

/// The Holds attached to any of the given Tasks, in their given order.
pub open spec fn holds_of(holds: Seq<HoldView>, ids: Seq<TaskId>) -> Seq<HoldView>
    decreases holds.len(),
{
    if holds.len() == 0 {
        Seq::empty()
    } else {
        let rest = holds_of(holds.drop_last(), ids);
        if ids.contains(holds.last().task_id) {
            rest.push(holds.last())
        } else {
            rest
        }
    }
}

/// A popup row built from a Task graph row.
fn graph_row(title: String, g: &TaskGraphView) -> (row: PopupTaskView)
    ensures
        row@ == graph_row_model(title@, *g),
{
    PopupTaskView {
        title,
        task: g.task.clone(),
        scheduling_state: g.scheduling_state,
        dependencies: copy_dependencies(&g.dependencies),
        dependents: copy_task_ids(&g.dependents),
        worker_queue_position: g.worker_queue_position,
        waiting_for_worker: g.waiting_for_worker,
        waiting_for_session: g.waiting_for_session,
        waiting_for_repository: g.waiting_for_repository,
    }
}

fn queued_rows_exec(graph: &[TaskGraphView], worker: &HarnessId) -> (rows: Vec<PopupTaskView>)
    ensures
        task_models(rows@) == queued_rows(graph@, worker@),
{
    let mut rows: Vec<PopupTaskView> = Vec::new();
    let mut i: usize = 0;
    while i < graph.len()
        invariant
            i <= graph@.len(),
            task_models(rows@) == queued_rows(graph@.take(i as int), worker@),
        decreases graph@.len() - i,
    {
        let g = &graph[i];
        proof {
            assert(graph@.take(i + 1).drop_last() =~= graph@.take(i as int));
            assert(graph@.take(i + 1).last() == graph@[i as int]);
        }
        if g.task.worker_id.same_as(worker) && g.task.state == TaskState::Queued {
            let row = graph_row(g.task.id.to_text(), g);
            rows.push(row);
            assert(task_models(rows@) =~= queued_rows(graph@.take(i as int), worker@).push(row@));
        }
        i = i + 1;
    }
    assert(graph@.take(graph@.len() as int) =~= graph@);
    rows
}

fn worker_task_ids_exec(graph: &[TaskGraphView], worker: &HarnessId) -> (ids: Vec<TaskId>)
    ensures
        ids@ == worker_task_ids(graph@, worker@),
{
    let mut ids: Vec<TaskId> = Vec::new();
    let mut i: usize = 0;
    while i < graph.len()
        invariant
            i <= graph@.len(),
            ids@ == worker_task_ids(graph@.take(i as int), worker@),
        decreases graph@.len() - i,
    {
        proof {
            assert(graph@.take(i + 1).drop_last() =~= graph@.take(i as int));
            assert(graph@.take(i + 1).last() == graph@[i as int]);
        }
        if graph[i].task.worker_id.same_as(worker) {
            ids.push(graph[i].task.id);
        }
        i = i + 1;
    }
    assert(graph@.take(graph@.len() as int) =~= graph@);
    ids
}

fn contains_task_id(ids: &Vec<TaskId>, id: TaskId) -> (found: bool)
    ensures
        found == ids@.contains(id),
{
    let mut i: usize = 0;
    while i < ids.len()
        invariant
            i <= ids@.len(),
            forall|k: int| 0 <= k < i ==> ids@[k] != id,
        decreases ids@.len() - i,
    {
        if ids[i].0 == id.0 {
            assert(ids@[i as int] == id);
            return true;
        }
        i = i + 1;
    }
    false
}

fn holds_of_exec(holds: &[HoldView], ids: &Vec<TaskId>) -> (out: Vec<HoldView>)
    ensures
        out@ == holds_of(holds@, ids@),
{
    let mut out: Vec<HoldView> = Vec::new();
    let mut i: usize = 0;
    while i < holds.len()
        invariant
            i <= holds@.len(),
            out@ == holds_of(holds@.take(i as int), ids@),
        decreases holds@.len() - i,
    {
        proof {
            assert(holds@.take(i + 1).drop_last() =~= holds@.take(i as int));
            assert(holds@.take(i + 1).last() == holds@[i as int]);
        }
        if contains_task_id(ids, holds[i].task_id) {
            out.push(holds[i].clone());
        }
        i = i + 1;
    }
    assert(holds@.take(holds@.len() as int) =~= holds@);
    out
}

/// The popup row of one Worker built from the separate status, Task, graph, and Hold
/// projections.
pub open spec fn projection_row(
    h: HarnessStatusView,
    tasks: Seq<TaskView>,
    graph: Seq<TaskGraphView>,
    holds: Seq<HoldView>,
) -> PopupWorkerModel {
    let active = match h.active_task_id {
        Some(id) => find_task(tasks, id),
        None => None,
    };
    PopupWorkerModel {
        id: h.id@,
        kind: "unknown"@,
        model: None,
        launch_profile: None,
        presence: h.presence@,
        activity: h.activity@,
        native_health: None,
        context_percent: match active {
            Some(t) => opt_text(t.context_percent),
            None => None,
        },
        context_observed_at: None,
        last_activity: None,
        session_id: None,
        terminal_id: None,
        unread_messages: h.unread_messages,
        active_task: match active {
            Some(t) => Some(
                PopupTaskModel {
                    title: uuid_text(t.id.0),
                    task: t,
                    scheduling_state: TaskSchedulingState::Ready,
                    dependencies: Seq::empty(),
                    dependents: Seq::empty(),
                    worker_queue_position: None,
                    waiting_for_worker: false,
                    waiting_for_session: false,
                    waiting_for_repository: false,
                },
            ),
            None => None,
        },
        queued_tasks: queued_rows(graph, h.id@),
        blockers: match active {
            Some(t) => match find_flags(graph, t.id) {
                Some((w, s, r)) => blocker_texts(w, s, r),
                None => Seq::empty(),
            },
            None => Seq::empty(),
        },
        holds: holds_of(holds, worker_task_ids(graph, h.id@)),
        attention_events: 0,
    }
}

/// The popup rows of every Worker in status order, before ranking.
pub open spec fn projection_rows(
    status: Seq<HarnessStatusView>,
    tasks: Seq<TaskView>,
    graph: Seq<TaskGraphView>,
    holds: Seq<HoldView>,
) -> Seq<PopupWorkerModel>
    decreases status.len(),
{
    if status.len() == 0 {
        Seq::empty()
    } else {
        let rest = projection_rows(status.drop_last(), tasks, graph, holds);
        if status.last().tier == HarnessTier::Worker {
            rest.push(projection_row(status.last(), tasks, graph, holds))
        } else {
            rest
        }
    }
}

fn project_worker(
    h: &HarnessStatusView,
    tasks: &[TaskView],
    graph: &[TaskGraphView],
    holds: &[HoldView],
) -> (row: PopupWorkerView)
    ensures
        row@ == projection_row(*h, tasks@, graph@, holds@),
{
    let active = match h.active_task_id {
        Some(id) => find_task_exec(tasks, id),
        None => None,
    };
    let queued_tasks = queued_rows_exec(graph, &h.id);
    let blockers = match &active {
        Some(t) => match find_flags_exec(graph, t.id) {
            Some((w, s, r)) => blockers_of(w, s, r),
            None => Vec::new(),
        },
        None => Vec::new(),
    };
    let ids = worker_task_ids_exec(graph, &h.id);
    let worker_holds = holds_of_exec(holds, &ids);
    let context_percent = match &active {
        Some(t) => copy_text_option(&t.context_percent),
        None => None,
    };
    let active_task = match active {
        Some(t) => {
            let title = t.id.to_text();
            Some(
                PopupTaskView {
                    title,
                    task: t,
                    scheduling_state: TaskSchedulingState::Ready,
                    dependencies: Vec::new(),
                    dependents: Vec::new(),
                    worker_queue_position: None,
                    waiting_for_worker: false,
                    waiting_for_session: false,
                    waiting_for_repository: false,
                },
            )
        },
        None => None,
    };
    let row = PopupWorkerView {
        id: h.id.duplicate(),
        kind: "unknown".to_owned(),
        model: None,
        launch_profile: None,
        presence: h.presence.clone(),
        activity: h.activity.clone(),
        native_health: None,
        context_percent,
        context_observed_at: None,
        last_activity: None,
        session_id: None,
        terminal_id: None,
        unread_messages: h.unread_messages,
        active_task,
        queued_tasks,
        blockers,
        holds: worker_holds,
        attention_events: 0,
    };
    assert(row@.active_task == projection_row(*h, tasks@, graph@, holds@).active_task);
    assert(row@.blockers =~= projection_row(*h, tasks@, graph@, holds@).blockers);
    row
}

impl PopupWorkerView {
    /// Whether this Worker needs Supervisor attention.
    pub fn attention_required(&self) -> (needed: bool)
        ensures
            needed == needs_attention(self@),
    {
        if self.unread_messages > 0 || self.holds.len() > 0 || self.attention_events > 0 {
            return true;
        }
        if text_equals(&self.activity, "waiting") || text_equals(&self.activity, "reviewing")
            || text_equals(&self.activity, "cancelling") || text_equals(
            &self.activity,
            "delivery_unknown",
        ) {
            return true;
        }
        match &self.active_task {
            Some(task) => match task.task.state {
                TaskState::Waiting | TaskState::Reviewing | TaskState::Cancelling
                | TaskState::DeliveryUnknown => true,
                _ => false,
            },
            None => false,
        }
    }

    /// Visible priority of this Worker; smaller values are shown first.
    pub fn priority(&self) -> (priority: u8)
        ensures
            priority == worker_priority(self@),
    {
        if self.attention_required() {
            0
        } else if match &self.active_task {
            Some(task) => match task.task.state {
                TaskState::Dispatching | TaskState::Working | TaskState::Cancelling => true,
                _ => false,
            },
            None => false,
        } {
            1
        } else if self.queued_tasks.len() > 0 {
            2
        } else if text_equals(&self.presence, "online") {
            3
        } else {
            4
        }
    }

    /// The status label: the active Task's state, or else the Worker's activity.
    pub fn status_label(&self) -> (label: String)
        ensures
            label@ == status_label_of(self@),
    {
        match &self.active_task {
            Some(task) => task.task.state.as_str().to_owned(),
            None => self.activity.clone(),
        }
    }
}

/// Whether row `a` may be shown before row `b`.
fn ranks_no_later_exec(a: &PopupWorkerView, b: &PopupWorkerView) -> (no_later: bool)
    ensures
        no_later == ranks_no_later(a@, b@),
{
    let pa = a.priority();
    let pb = b.priority();
    pa < pb || (pa == pb && !bytes_less(b.id.as_str().as_bytes(), a.id.as_str().as_bytes()))
}

/// Inserting after the last row that may precede the new row.
proof fn lemma_insert_ranked_at(s: Seq<PopupWorkerModel>, w: PopupWorkerModel, j: int)
    requires
        0 <= j <= s.len(),
        j == 0 || ranks_no_later(s[j - 1], w),
        forall|k: int| j <= k < s.len() ==> !ranks_no_later(#[trigger] s[k], w),
    ensures
        insert_ranked(s, w) == s.insert(j, w),
    decreases s.len(),
{
    if s.len() == 0 {
        assert(s.insert(j, w) =~= seq![w]);
    } else if j == s.len() {
        assert(s.insert(j, w) =~= s.push(w));
    } else {
        assert(!ranks_no_later(s[s.len() - 1], w));
        lemma_insert_ranked_at(s.drop_last(), w, j);
        assert(s.drop_last().insert(j, w).push(s.last()) =~= s.insert(j, w));
    }
}

/// Inserts a row at its ranked position.
fn insert_row(rows: &mut Vec<PopupWorkerView>, row: PopupWorkerView)
    ensures
        worker_models(final(rows)@) == insert_ranked(worker_models(old(rows)@), row@),
{
    let ghost before = worker_models(rows@);
    let mut j = rows.len();
    while j > 0 && !ranks_no_later_exec(&rows[j - 1], &row)
        invariant
            j <= rows@.len(),
            before == worker_models(rows@),
            forall|k: int| j <= k < rows@.len() ==> !ranks_no_later(#[trigger] before[k], row@),
        decreases j,
    {
        j = j - 1;
    }
    proof {
        lemma_insert_ranked_at(before, row@, j as int);
    }
    rows.insert(j, row);
    assert(worker_models(rows@) =~= before.insert(j as int, row@));
}

/// Orders rows stably by priority and then Harness ID.
pub fn rank_rows(rows: Vec<PopupWorkerView>) -> (out: Vec<PopupWorkerView>)
    ensures
        worker_models(out@) == ranked(worker_models(rows@)),
{
    let ghost input = worker_models(rows@);
    let mut out: Vec<PopupWorkerView> = Vec::new();
    let mut rest = rows;
    let ghost mut done: Seq<PopupWorkerModel> = Seq::empty();
    assert(done + worker_models(rest@) =~= input);
    while rest.len() > 0
        invariant
            done + worker_models(rest@) == input,
            worker_models(out@) == ranked(done),
        decreases rest@.len(),
    {
        let ghost before = rest@;
        let row = rest.remove(0);
        proof {
            assert(done.push(row@).drop_last() =~= done);
            assert(done.push(row@) + worker_models(rest@) =~= done + worker_models(before));
        }
        insert_row(&mut out, row);
        proof {
            done = done.push(row@);
        }
    }
    assert(done =~= input);
    out
}


/// Aggregate projection consumed by the terminal-only Harness Network dashboard.
#[derive(Debug)]
pub struct PopupDashboard {
    pub workers: Vec<PopupWorkerView>,
    pub generated_at: Option<String>,
    pub supervisor_attention: u32,
    pub supervisor_id: Option<String>,
    pub supervisor_presence: Option<String>,
    pub supervisor_activity: Option<String>,
}

/// The mathematical value of a [`PopupDashboard`].
pub struct PopupDashboardModel {
    pub workers: Seq<PopupWorkerModel>,
    pub generated_at: Option<Seq<char>>,
    pub supervisor_attention: u32,
    pub supervisor_id: Option<Seq<char>>,
    pub supervisor_presence: Option<Seq<char>>,
    pub supervisor_activity: Option<Seq<char>>,
}

impl View for PopupDashboard {
    type V = PopupDashboardModel;

    open spec fn view(&self) -> PopupDashboardModel {
        PopupDashboardModel {
            workers: worker_models(self.workers@),
            generated_at: opt_text(self.generated_at),
            supervisor_attention: self.supervisor_attention,
            supervisor_id: opt_text(self.supervisor_id),
            supervisor_presence: opt_text(self.supervisor_presence),
            supervisor_activity: opt_text(self.supervisor_activity),
        }
    }
}

impl Default for PopupDashboard {
    fn default() -> (dashboard: Self)
        ensures
            dashboard@.workers.len() == 0,
            dashboard@.generated_at is None,
            dashboard@.supervisor_attention == 0,
            dashboard@.supervisor_id is None,
            dashboard@.supervisor_presence is None,
            dashboard@.supervisor_activity is None,
    {
        PopupDashboard {
            workers: Vec::new(),
            generated_at: None,
            supervisor_attention: 0,
            supervisor_id: None,
            supervisor_presence: None,
            supervisor_activity: None,
        }
    }
}

/// The Debug name of a Harness Kind.
pub open spec fn kind_debug_name(kind: HarnessKind) -> Seq<char> {
    match kind {
        HarnessKind::Omp => "Omp"@,
        HarnessKind::Codex => "Codex"@,
    }
}

/// The Debug name of a native health value.
pub open spec fn health_debug_name(health: NativeSessionHealth) -> Seq<char> {
    match health {
        NativeSessionHealth::Healthy => "Healthy"@,
        NativeSessionHealth::ContextPressure => "ContextPressure"@,
        NativeSessionHealth::Compacted => "Compacted"@,
        NativeSessionHealth::Ambiguous => "Ambiguous"@,
        NativeSessionHealth::Failed => "Failed"@,
    }
}

fn kind_debug_text(kind: HarnessKind) -> (name: String)
    ensures
        name@ == kind_debug_name(kind),
{
    match kind {
        HarnessKind::Omp => "Omp".to_owned(),
        HarnessKind::Codex => "Codex".to_owned(),
    }
}

fn health_debug_text(health: NativeSessionHealth) -> (name: String)
    ensures
        name@ == health_debug_name(health),
{
    match health {
        NativeSessionHealth::Healthy => "Healthy".to_owned(),
        NativeSessionHealth::ContextPressure => "ContextPressure".to_owned(),
        NativeSessionHealth::Compacted => "Compacted".to_owned(),
        NativeSessionHealth::Ambiguous => "Ambiguous".to_owned(),
        NativeSessionHealth::Failed => "Failed".to_owned(),
    }
}

/// The popup row of a Dashboard Task.
pub open spec fn dashboard_task_model(t: DashboardTaskView) -> PopupTaskModel {
    PopupTaskModel {
        title: t.title@,
        task: t.task,
        scheduling_state: t.scheduling_state,
        dependencies: t.dependencies@,
        dependents: t.dependents@,
        worker_queue_position: t.worker_queue_position,
        waiting_for_worker: t.waiting_for_worker,
        waiting_for_session: t.waiting_for_session,
        waiting_for_repository: t.waiting_for_repository,
    }
}

fn dashboard_task_row(t: DashboardTaskView) -> (row: PopupTaskView)
    ensures
        row@ == dashboard_task_model(t),
{
    PopupTaskView {
        title: t.title,
        task: t.task,
        scheduling_state: t.scheduling_state,
        dependencies: t.dependencies,
        dependents: t.dependents,
        worker_queue_position: t.worker_queue_position,
        waiting_for_worker: t.waiting_for_worker,
        waiting_for_session: t.waiting_for_session,
        waiting_for_repository: t.waiting_for_repository,
    }
}

fn dashboard_task_rows(tasks: Vec<DashboardTaskView>) -> (rows: Vec<PopupTaskView>)
    ensures
        task_models(rows@) == tasks@.map_values(|t: DashboardTaskView| dashboard_task_model(t)),
{
    let ghost input = tasks@;
    let mut rows: Vec<PopupTaskView> = Vec::new();
    let mut rest = tasks;
    let ghost mut done: nat = 0;
    while rest.len() > 0
        invariant
            done + rest@.len() == input.len(),
            rest@ == input.skip(done as int),
            task_models(rows@) == input.take(done as int).map_values(
                |t: DashboardTaskView| dashboard_task_model(t),
            ),
        decreases rest@.len(),
    {
        let ghost before = rows@;
        let t = rest.remove(0);
        assert(t == input[done as int]);
        let row = dashboard_task_row(t);
        rows.push(row);
        proof {
            assert(task_models(rows@) =~= task_models(before).push(dashboard_task_model(input[done as int])));
            assert(input.take(done as int + 1) =~= input.take(done as int).push(input[done as int]));
            assert(task_models(rows@) =~= input.take(done as int + 1).map_values(
                |t: DashboardTaskView| dashboard_task_model(t),
            ));
            assert(rest@ =~= input.skip(done as int + 1));
            done = done + 1;
        }
    }
    assert(input.take(done as int) =~= input);
    rows
}

/// The popup row of one Dashboard Worker.
pub open spec fn dashboard_row(w: DashboardWorkerView) -> PopupWorkerModel {
    PopupWorkerModel {
        id: w.id@,
        kind: kind_debug_name(w.kind),
        model: opt_text(w.model),
        launch_profile: opt_text(w.launch_profile),
        presence: match w.session {
            Some(s) => presence_name(s.presence),
            None => "offline"@,
        },
        activity: match w.session {
            Some(s) => activity_name(s.activity),
            None => "offline"@,
        },
        native_health: match w.session {
            Some(s) => Some(health_debug_name(s.native_health)),
            None => None,
        },
        context_percent: match w.session {
            Some(s) => opt_text(s.context_percent),
            None => None,
        },
        context_observed_at: match w.session {
            Some(s) => opt_text(s.context_observed_at),
            None => None,
        },
        last_activity: match w.session {
            Some(s) => match s.last_activity {
                Some(a) => Some((a.summary@, a.observed_at@)),
                None => None,
            },
            None => None,
        },
        session_id: match w.session {
            Some(s) => Some(s.id),
            None => None,
        },
        terminal_id: match w.session {
            Some(s) => opt_text(s.terminal_id),
            None => None,
        },
        unread_messages: w.unread_messages,
        active_task: match w.active_task {
            Some(t) => Some(dashboard_task_model(t)),
            None => None,
        },
        queued_tasks: w.queued_tasks@.map_values(|t: DashboardTaskView| dashboard_task_model(t)),
        blockers: match w.active_task {
            Some(t) => blocker_texts(
                t.waiting_for_worker,
                t.waiting_for_session,
                t.waiting_for_repository,
            ),
            None => Seq::empty(),
        },
        holds: w.holds@,
        attention_events: w.attention_events@.len(),
    }
}

fn dashboard_worker_row(w: DashboardWorkerView) -> (row: PopupWorkerView)
    ensures
        row@ == dashboard_row(w),
{
    let ghost given = w;
    let DashboardWorkerView {
        schema_version: _,
        id,
        kind,
        launch_profile,
        model,
        session,
        unread_messages,
        active_task,
        queued_tasks,
        holds,
        attention_events,
    } = w;
    let blockers = match &active_task {
        Some(t) => blockers_of(t.waiting_for_worker, t.waiting_for_session, t.waiting_for_repository),
        None => Vec::new(),
    };
    let (presence, activity, native_health, context_percent, context_observed_at, last_activity, session_id, terminal_id) =
        match session {
        Some(s) => (
            s.presence.as_str().to_owned(),
            s.activity.as_str().to_owned(),
            Some(health_debug_text(s.native_health)),
            s.context_percent,
            s.context_observed_at,
            match s.last_activity {
                Some(a) => Some((a.summary, a.observed_at)),
                None => None,
            },
            Some(s.id),
            s.terminal_id,
        ),
        None => ("offline".to_owned(), "offline".to_owned(), None, None, None, None, None, None),
    };
    let active = match active_task {
        Some(t) => Some(dashboard_task_row(t)),
        None => None,
    };
    let row = PopupWorkerView {
        id,
        kind: kind_debug_text(kind),
        model,
        launch_profile,
        presence,
        activity,
        native_health,
        context_percent,
        context_observed_at,
        last_activity,
        session_id,
        terminal_id,
        unread_messages,
        active_task: active,
        queued_tasks: dashboard_task_rows(queued_tasks),
        blockers,
        holds,
        attention_events: attention_events.len(),
    };
    assert(row@.blockers =~= dashboard_row(given).blockers);
    row
}

impl PopupDashboard {
    /// Combines the currently available durable projections without inspecting terminal
    /// output: one row per Worker, shown by priority and then Harness ID.
    pub fn from_projections(
        status: &[HarnessStatusView],
        tasks: &[TaskView],
        graph: &[TaskGraphView],
        holds: &[HoldView],
    ) -> (dashboard: Self)
        ensures
            dashboard@.workers == ranked(projection_rows(status@, tasks@, graph@, holds@)),
            dashboard@.generated_at is None,
            dashboard@.supervisor_attention == 0,
            dashboard@.supervisor_id is None,
            dashboard@.supervisor_presence is None,
            dashboard@.supervisor_activity is None,
    {
        let mut rows: Vec<PopupWorkerView> = Vec::new();
        let mut i: usize = 0;
        while i < status.len()
            invariant
                i <= status@.len(),
                worker_models(rows@) == projection_rows(status@.take(i as int), tasks@, graph@, holds@),
            decreases status@.len() - i,
        {
            proof {
                assert(status@.take(i + 1).drop_last() =~= status@.take(i as int));
                assert(status@.take(i + 1).last() == status@[i as int]);
            }
            if status[i].tier == HarnessTier::Worker {
                let row = project_worker(&status[i], tasks, graph, holds);
                rows.push(row);
                assert(worker_models(rows@) =~= projection_rows(
                    status@.take(i as int),
                    tasks@,
                    graph@,
                    holds@,
                ).push(row@));
            }
            i = i + 1;
        }
        assert(status@.take(status@.len() as int) =~= status@);
        PopupDashboard {
            workers: rank_rows(rows),
            generated_at: None,
            supervisor_attention: 0,
            supervisor_id: None,
            supervisor_presence: None,
            supervisor_activity: None,
        }
    }

    /// Adapts the single coherent Coordinator Dashboard query for terminal rendering: one row
    /// per Worker, shown by priority and then Harness ID, with the Supervisor summary.
    pub fn from_dashboard(view: DashboardView) -> (dashboard: Self)
        ensures
            dashboard@.workers == ranked(
                view.workers@.map_values(|w: DashboardWorkerView| dashboard_row(w)),
            ),
            dashboard@.generated_at == Some(view.generated_at@),
            dashboard@.supervisor_attention == view.supervisor.attention_count,
            dashboard@.supervisor_id == Some(view.supervisor.id@),
            dashboard@.supervisor_presence == Some(presence_name(view.supervisor.presence)),
            dashboard@.supervisor_activity == Some(activity_name(view.supervisor.activity)),
    {
        let ghost input = view.workers@;
        let DashboardView { schema_version: _, generated_at, supervisor, workers, attention_events: _ } =
            view;
        let mut rows: Vec<PopupWorkerView> = Vec::new();
        let mut rest = workers;
        let ghost mut done: nat = 0;
        while rest.len() > 0
            invariant
                done + rest@.len() == input.len(),
                rest@ == input.skip(done as int),
                worker_models(rows@) == input.take(done as int).map_values(
                    |w: DashboardWorkerView| dashboard_row(w),
                ),
            decreases rest@.len(),
        {
            let ghost before = rows@;
            let w = rest.remove(0);
            assert(w == input[done as int]);
            let row = dashboard_worker_row(w);
            rows.push(row);
            proof {
                assert(worker_models(rows@) =~= worker_models(before).push(dashboard_row(input[done as int])));
                assert(input.take(done as int + 1) =~= input.take(done as int).push(input[done as int]));
                assert(worker_models(rows@) =~= input.take(done as int + 1).map_values(
                    |w: DashboardWorkerView| dashboard_row(w),
                ));
                assert(rest@ =~= input.skip(done as int + 1));
                done = done + 1;
            }
        }
        assert(input.take(done as int) =~= input);
        PopupDashboard {
            workers: rank_rows(rows),
            generated_at: Some(generated_at),
            supervisor_attention: supervisor.attention_count,
            supervisor_id: Some(supervisor.id.as_str().to_owned()),
            supervisor_presence: Some(supervisor.presence.as_str().to_owned()),
            supervisor_activity: Some(supervisor.activity.as_str().to_owned()),
        }
    }

    /// Returns Worker IDs in their visible priority order.
    pub fn worker_ids(&self) -> (ids: Vec<&str>)
        ensures
            ids@.len() == self@.workers.len(),
            forall|k: int| 0 <= k < ids@.len() ==> #[trigger] ids@[k]@ == self@.workers[k].id,
    {
        let mut ids: Vec<&str> = Vec::new();
        let mut i: usize = 0;
        while i < self.workers.len()
            invariant
                i <= self.workers@.len(),
                ids@.len() == i,
                forall|k: int| 0 <= k < i ==> #[trigger] ids@[k]@ == self.workers@[k].id@,
            decreases self.workers@.len() - i,
        {
            ids.push(self.workers[i].id.as_str());
            i = i + 1;
        }
        ids
    }

    /// The position of the selected Worker's row, when it is shown.
    pub fn selected_index(&self, selection: &PopupSelection) -> (index: Option<usize>)
        ensures
            match index {
                Some(k) => selection@.selected matches Some(id) && is_first_position(
                    self@.workers,
                    id,
                    k as int,
                ),
                None => !(selection@.selected matches Some(id) && has_worker(self@.workers, id)),
            },
    {
        match selection.selected_worker_id() {
            Some(selected) => position_of(&self.workers, selected),
            None => None,
        }
    }

    /// The selected Worker's row, when it is shown.
    pub fn selected<'a>(&'a self, selection: &PopupSelection) -> (row: Option<&'a PopupWorkerView>)
        ensures
            match row {
                Some(w) => selected_row(selection@.selected, self@.workers) == Some(w@),
                None => selected_row(selection@.selected, self@.workers) is None,
            },
    {
        match selection.selected_worker_id() {
            Some(selected) => match position_of(&self.workers, selected) {
                Some(k) => {
                    proof {
                        lemma_first_position(self@.workers, selected@, k as int);
                    }
                    Some(&self.workers[k])
                },
                None => None,
            },
            None => None,
        }
    }
}


/// Detail/list mode for a narrow popup.
#[derive(Debug, Clone, Copy, PartialEq, Eq, Structural)]
pub enum PopupNarrowMode {
    List,
    Detail,
}

impl Default for PopupNarrowMode {
    fn default() -> (mode: Self)
        ensures
            mode == PopupNarrowMode::List,
    {
        PopupNarrowMode::List
    }
}

/// `k` is the first row showing the Worker `id`.
pub open spec fn is_first_position(ws: Seq<PopupWorkerModel>, id: Seq<char>, k: int) -> bool {
    &&& 0 <= k < ws.len()
    &&& ws[k].id == id
    &&& forall|j: int| 0 <= j < k ==> #[trigger] ws[j].id != id
}

/// Some row shows the Worker `id`.
pub open spec fn has_worker(ws: Seq<PopupWorkerModel>, id: Seq<char>) -> bool {
    exists|k: int| 0 <= k < ws.len() && #[trigger] ws[k].id == id
}

/// The first row showing the Worker `id`.
pub open spec fn first_position(ws: Seq<PopupWorkerModel>, id: Seq<char>) -> int {
    choose|k: int| is_first_position(ws, id, k)
}

proof fn lemma_first_position(ws: Seq<PopupWorkerModel>, id: Seq<char>, k: int)
    requires
        is_first_position(ws, id, k),
    ensures
        first_position(ws, id) == k,
{
    let c = first_position(ws, id);
    assert(is_first_position(ws, id, c));
    if c < k {
        assert(ws[c].id != id);
    } else if c > k {
        assert(ws[k].id != id);
    }
}

proof fn lemma_has_first(ws: Seq<PopupWorkerModel>, id: Seq<char>, w: int)
    requires
        0 <= w < ws.len(),
        ws[w].id == id,
    ensures
        is_first_position(ws, id, first_position(ws, id)),
        first_position(ws, id) <= w,
    decreases w,
{
    if exists|j: int| 0 <= j < w && #[trigger] ws[j].id == id {
        let j = choose|j: int| 0 <= j < w && #[trigger] ws[j].id == id;
        lemma_has_first(ws, id, j);
    } else {
        assert(is_first_position(ws, id, w));
        lemma_first_position(ws, id, w);
    }
}

proof fn lemma_shown_first(ws: Seq<PopupWorkerModel>, id: Seq<char>)
    requires
        has_worker(ws, id),
    ensures
        is_first_position(ws, id, first_position(ws, id)),
{
    let w = choose|k: int| 0 <= k < ws.len() && #[trigger] ws[k].id == id;
    lemma_has_first(ws, id, w);
}

/// No two rows show the same Worker.
pub open spec fn distinct_ids(ws: Seq<PopupWorkerModel>) -> bool {
    forall|i: int, j: int| 0 <= i < j < ws.len() ==> #[trigger] ws[i].id != #[trigger] ws[j].id
}

/// The selection after a refresh: kept when its Worker is still shown, otherwise the first
/// shown Worker, if any.
pub open spec fn retained_selection(selected: Option<Seq<char>>, ws: Seq<PopupWorkerModel>) -> Option<Seq<char>> {
    if selected is Some && has_worker(ws, selected->0) {
        selected
    } else if ws.len() > 0 {
        Some(ws[0].id)
    } else {
        None
    }
}

/// The selection after moving one row down, staying on the last row.
pub open spec fn next_selection(selected: Option<Seq<char>>, ws: Seq<PopupWorkerModel>) -> Option<Seq<char>> {
    match retained_selection(selected, ws) {
        Some(id) if selected is Some => {
            let p = first_position(ws, id);
            Some(ws[if p + 1 < ws.len() { p + 1 } else { ws.len() - 1 }].id)
        },
        r => r,
    }
}

/// The selection after moving one row up, staying on the first row.
pub open spec fn previous_selection(selected: Option<Seq<char>>, ws: Seq<PopupWorkerModel>) -> Option<Seq<char>> {
    match retained_selection(selected, ws) {
        Some(id) if selected is Some => {
            let p = first_position(ws, id);
            Some(ws[if p > 0 { p - 1 } else { 0 }].id)
        },
        r => r,
    }
}

/// After a refresh, or a move down or up, the selection names a shown Worker whenever any is
/// shown, and is empty only when no Worker is shown.
pub proof fn selection_names_a_shown_worker(selected: Option<Seq<char>>, ws: Seq<PopupWorkerModel>)
    ensures
        match retained_selection(selected, ws) {
            Some(id) => has_worker(ws, id),
            None => ws.len() == 0,
        },
        match next_selection(selected, ws) {
            Some(id) => has_worker(ws, id),
            None => ws.len() == 0,
        },
        match previous_selection(selected, ws) {
            Some(id) => has_worker(ws, id),
            None => ws.len() == 0,
        },
{
    if ws.len() > 0 {
        assert(has_worker(ws, ws[0].id));
    }
    match retained_selection(selected, ws) {
        Some(id) => {
            lemma_shown_first(ws, id);
            let p = first_position(ws, id);
            let n = if p + 1 < ws.len() { p + 1 } else { ws.len() - 1 };
            let q = if p > 0 { p - 1 } else { 0 };
            assert(has_worker(ws, ws[n].id));
            assert(has_worker(ws, ws[q].id));
        },
        None => {},
    }
}

/// A refresh keeps the selected Worker, whatever order the rows now have, as long as that
/// Worker is still shown.
pub proof fn selection_survives_reordering(id: Seq<char>, ws: Seq<PopupWorkerModel>)
    requires
        has_worker(ws, id),
    ensures
        retained_selection(Some(id), ws) == Some(id),
{
}

/// Moving up undoes moving down, except on the last row, when no Worker is shown twice.
pub proof fn previous_undoes_next(id: Seq<char>, ws: Seq<PopupWorkerModel>)
    requires
        distinct_ids(ws),
        has_worker(ws, id),
        first_position(ws, id) + 1 < ws.len(),
    ensures
        previous_selection(next_selection(Some(id), ws), ws) == Some(id),
{
    lemma_shown_first(ws, id);
    let p = first_position(ws, id);
    let down = ws[p + 1].id;
    assert(next_selection(Some(id), ws) == Some(down));
    assert(is_first_position(ws, down, p + 1));
    lemma_first_position(ws, down, p + 1);
    assert(has_worker(ws, down));
}

/// Moving down undoes moving up, except on the first row, when no Worker is shown twice.
pub proof fn next_undoes_previous(id: Seq<char>, ws: Seq<PopupWorkerModel>)
    requires
        distinct_ids(ws),
        has_worker(ws, id),
        first_position(ws, id) > 0,
    ensures
        next_selection(previous_selection(Some(id), ws), ws) == Some(id),
{
    lemma_shown_first(ws, id);
    let p = first_position(ws, id);
    let up = ws[p - 1].id;
    assert(previous_selection(Some(id), ws) == Some(up));
    assert(is_first_position(ws, up, p - 1));
    lemma_first_position(ws, up, p - 1);
    assert(has_worker(ws, up));
}

/// The row of the selected Worker, if it is shown.
pub open spec fn selected_row(selected: Option<Seq<char>>, ws: Seq<PopupWorkerModel>) -> Option<PopupWorkerModel> {
    match selected {
        Some(id) => if has_worker(ws, id) {
            Some(ws[first_position(ws, id)])
        } else {
            None
        },
        None => None,
    }
}

/// Some Task has the identity `id`.
pub open spec fn has_task(tasks: Seq<TaskView>, id: TaskId) -> bool {
    exists|i: int| 0 <= i < tasks.len() && #[trigger] tasks[i].id == id
}

/// Some graph row assigns the Task `id` to the Worker `worker`.
pub open spec fn worker_owns(graph: Seq<TaskGraphView>, worker: Seq<char>, id: TaskId) -> bool {
    exists|j: int|
        0 <= j < graph.len() && #[trigger] graph[j].task.worker_id@ == worker && graph[j].task.id
            == id
}

/// `k` is the first Hold on a Task that the graph assigns to `worker`.
pub open spec fn is_first_worker_hold(
    holds: Seq<HoldView>,
    graph: Seq<TaskGraphView>,
    worker: Seq<char>,
    k: int,
) -> bool {
    &&& 0 <= k < holds.len()
    &&& worker_owns(graph, worker, holds[k].task_id)
    &&& forall|j: int| 0 <= j < k ==> !worker_owns(graph, worker, #[trigger] holds[j].task_id)
}

proof fn lemma_find_task(tasks: Seq<TaskView>, id: TaskId)
    ensures
        find_task(tasks, id) matches Some(t) ==> t.id == id,
        find_task(tasks, id) is None <==> !has_task(tasks, id),
    decreases tasks.len(),
{
    if tasks.len() > 0 {
        let rest = tasks.drop_first();
        lemma_find_task(rest, id);
        if tasks[0].id != id {
            if has_task(tasks, id) {
                let i = choose|i: int| 0 <= i < tasks.len() && #[trigger] tasks[i].id == id;
                assert(rest[i - 1].id == id);
            }
            if has_task(rest, id) {
                let i = choose|i: int| 0 <= i < rest.len() && #[trigger] rest[i].id == id;
                assert(tasks[i + 1].id == id);
            }
        } else {
            assert(tasks[0].id == id);
        }
    }
}

proof fn lemma_worker_task_ids(graph: Seq<TaskGraphView>, worker: Seq<char>, id: TaskId)
    ensures
        worker_task_ids(graph, worker).contains(id) <==> worker_owns(graph, worker, id),
    decreases graph.len(),
{
    if graph.len() > 0 {
        let init = graph.drop_last();
        lemma_worker_task_ids(init, worker, id);
        let rest = worker_task_ids(init, worker);
        let ids = worker_task_ids(graph, worker);
        if worker_owns(graph, worker, id) {
            let j = choose|j: int|
                0 <= j < graph.len() && #[trigger] graph[j].task.worker_id@ == worker
                    && graph[j].task.id == id;
            if j < init.len() {
                assert(init[j] == graph[j]);
                assert(worker_owns(init, worker, id));
                let m = choose|m: int| 0 <= m < rest.len() && rest[m] == id;
                assert(ids[m] == id);
            } else {
                assert(ids[ids.len() - 1] == id);
            }
        }
        if ids.contains(id) {
            let m = choose|m: int| 0 <= m < ids.len() && ids[m] == id;
            if m < rest.len() {
                assert(rest[m] == id);
                let j = choose|j: int|
                    0 <= j < init.len() && #[trigger] init[j].task.worker_id@ == worker
                        && init[j].task.id == id;
                assert(graph[j] == init[j]);
            } else {
                assert(graph[graph.len() - 1].task.worker_id@ == worker);
            }
        }
    }
}

proof fn lemma_first_hold(holds: Seq<HoldView>, ids: Seq<TaskId>)
    ensures
        holds_of(holds, ids).len() > 0 <==> exists|k: int|
            0 <= k < holds.len() && ids.contains(#[trigger] holds[k].task_id),
        holds_of(holds, ids).len() > 0 ==> exists|k: int|
            0 <= k < holds.len() && ids.contains(#[trigger] holds[k].task_id) && holds_of(
                holds,
                ids,
            )[0] == holds[k] && forall|j: int|
                0 <= j < k ==> !ids.contains(#[trigger] holds[j].task_id),
    decreases holds.len(),
{
    if holds.len() > 0 {
        let init = holds.drop_last();
        lemma_first_hold(init, ids);
        let rest = holds_of(init, ids);
        if rest.len() > 0 {
            let k = choose|k: int|
                0 <= k < init.len() && ids.contains(#[trigger] init[k].task_id) && rest[0]
                    == init[k] && forall|j: int|
                    0 <= j < k ==> !ids.contains(#[trigger] init[j].task_id);
            assert(holds[k] == init[k]);
            assert forall|j: int| 0 <= j < k implies !ids.contains(#[trigger] holds[j].task_id) by {
                assert(holds[j] == init[j]);
            }
        } else {
            assert forall|j: int| 0 <= j < init.len() implies !ids.contains(
                #[trigger] holds[j].task_id,
            ) by {
                assert(holds[j] == init[j]);
                if ids.contains(holds[j].task_id) {
                    assert(ids.contains(init[j].task_id));
                }
            }
            if ids.contains(holds.last().task_id) {
                assert(holds_of(holds, ids)[0] == holds[holds.len() - 1]);
            }
        }
    }
}

proof fn lemma_projection_rows_members(
    status: Seq<HarnessStatusView>,
    tasks: Seq<TaskView>,
    graph: Seq<TaskGraphView>,
    holds: Seq<HoldView>,
)
    ensures
        forall|i: int|
            0 <= i < projection_rows(status, tasks, graph, holds).len() ==> exists|j: int|
                0 <= j < status.len() && status[j].tier == HarnessTier::Worker
                    && #[trigger] projection_rows(status, tasks, graph, holds)[i] == projection_row(
                    status[j],
                    tasks,
                    graph,
                    holds,
                ),
        forall|k: int|
            0 <= k < status.len() && #[trigger] status[k].tier == HarnessTier::Worker
                ==> projection_rows(status, tasks, graph, holds).contains(
                projection_row(status[k], tasks, graph, holds),
            ),
    decreases status.len(),
{
    if status.len() > 0 {
        let init = status.drop_last();
        lemma_projection_rows_members(init, tasks, graph, holds);
        let rest = projection_rows(init, tasks, graph, holds);
        let rows = projection_rows(status, tasks, graph, holds);
        assert forall|i: int| 0 <= i < rows.len() implies exists|j: int|
            0 <= j < status.len() && status[j].tier == HarnessTier::Worker && #[trigger] rows[i]
                == projection_row(status[j], tasks, graph, holds) by {
            if i < rest.len() {
                assert(rows[i] == rest[i]);
                let j = choose|j: int|
                    0 <= j < init.len() && init[j].tier == HarnessTier::Worker && #[trigger] rest[i]
                        == projection_row(init[j], tasks, graph, holds);
                assert(status[j] == init[j]);
            } else {
                assert(status[status.len() - 1] == status.last());
            }
        }
        assert forall|k: int|
            0 <= k < status.len() && #[trigger] status[k].tier == HarnessTier::Worker implies rows.contains(
            projection_row(status[k], tasks, graph, holds),
        ) by {
            if k < init.len() {
                assert(init[k] == status[k]);
                let r = projection_row(status[k], tasks, graph, holds);
                assert(rest.contains(r));
                let m = choose|m: int| 0 <= m < rest.len() && rest[m] == r;
                assert(rows[m] == r);
            } else {
                assert(rows[rows.len() - 1] == projection_row(status[k], tasks, graph, holds));
            }
        }
    }
}

/// Selecting a Worker in a popup built from the separate projections shows that Worker's
/// own row, whatever the ranking. Its active Task is the one its status names, when the Task
/// projection holds that Task, and none otherwise; it has a Hold exactly when some Hold is on
/// a Task that the graph assigns it, and its first Hold is the first such Hold; its presence,
/// which decides whether it can be stopped, is its status presence.
pub proof fn selected_worker_shows_its_projection(
    status: Seq<HarnessStatusView>,
    tasks: Seq<TaskView>,
    graph: Seq<TaskGraphView>,
    holds: Seq<HoldView>,
    k: int,
)
    requires
        0 <= k < status.len(),
        status[k].tier == HarnessTier::Worker,
        forall|i: int, j: int|
            0 <= i < j < status.len() ==> #[trigger] status[i].id@ != #[trigger] status[j].id@,
    ensures
        selected_row(Some(status[k].id@), ranked(projection_rows(status, tasks, graph, holds)))
            == Some(projection_row(status[k], tasks, graph, holds)),
        ({
            let row = projection_row(status[k], tasks, graph, holds);
            &&& match status[k].active_task_id {
                Some(id) => if has_task(tasks, id) {
                    row.active_task matches Some(t) && t.task.id == id
                } else {
                    row.active_task is None
                },
                None => row.active_task is None,
            }
            &&& row.holds.len() > 0 <==> exists|j: int|
                0 <= j < holds.len() && worker_owns(graph, status[k].id@, #[trigger] holds[j].task_id)
            &&& row.holds.len() > 0 ==> exists|j: int|
                is_first_worker_hold(holds, graph, status[k].id@, j) && row.holds[0] == #[trigger] holds[j]
            &&& row.presence == status[k].presence@
        }),
{
    let h = status[k];
    let ids = worker_task_ids(graph, h.id@);
    if let Some(id) = h.active_task_id {
        lemma_find_task(tasks, id);
    }
    lemma_first_hold(holds, ids);
    assert forall|x: TaskId| ids.contains(x) <==> worker_owns(graph, h.id@, x) by {
        lemma_worker_task_ids(graph, h.id@, x);
    }
    broadcast use vstd::seq_lib::group_to_multiset_ensures;

    let rows = projection_rows(status, tasks, graph, holds);
    let ws = ranked(rows);
    let row = projection_row(status[k], tasks, graph, holds);
    let id = status[k].id@;
    lemma_projection_rows_members(status, tasks, graph, holds);
    lemma_ranked_is_ordered_permutation(rows);
    assert(rows.contains(row));
    assert(rows.to_multiset().count(row) > 0);
    assert(ws.contains(row));
    let m = choose|m: int| 0 <= m < ws.len() && ws[m] == row;
    assert(ws[m].id == id);
    assert(has_worker(ws, id));
    lemma_shown_first(ws, id);
    let p = first_position(ws, id);
    let shown = ws[p];
    assert(ws.contains(shown));
    assert(ws.to_multiset().count(shown) > 0);
    assert(rows.contains(shown));
    let i = choose|i: int| 0 <= i < rows.len() && rows[i] == shown;
    let j = choose|j: int|
        0 <= j < status.len() && status[j].tier == HarnessTier::Worker && #[trigger] rows[i]
            == projection_row(status[j], tasks, graph, holds);
    if j != k {
        if j < k {
            assert(status[j].id@ != status[k].id@);
        } else {
            assert(status[k].id@ != status[j].id@);
        }
    }
}

/// Stable popup selection, keyed by durable Harness identity rather than display position.
#[derive(Debug)]
pub struct PopupSelection {
    selected_worker: Option<HarnessId>,
    narrow_mode: PopupNarrowMode,
}

/// The mathematical value of a [`PopupSelection`].
pub struct PopupSelectionModel {
    pub selected: Option<Seq<char>>,
    pub narrow_mode: PopupNarrowMode,
}

impl View for PopupSelection {
    type V = PopupSelectionModel;

    closed spec fn view(&self) -> PopupSelectionModel {
        PopupSelectionModel {
            selected: match self.selected_worker {
                Some(id) => Some(id@),
                None => None,
            },
            narrow_mode: self.narrow_mode,
        }
    }
}

impl Default for PopupSelection {
    fn default() -> (selection: Self)
        ensures
            selection@.selected is None,
            selection@.narrow_mode == PopupNarrowMode::List,
    {
        PopupSelection { selected_worker: None, narrow_mode: PopupNarrowMode::List }
    }
}

/// Finds the first row showing a Worker.
fn position_of(ws: &Vec<PopupWorkerView>, id: &HarnessId) -> (found: Option<usize>)
    ensures
        match found {
            Some(k) => is_first_position(worker_models(ws@), id@, k as int),
            None => !has_worker(worker_models(ws@), id@),
        },
{
    let ghost m = worker_models(ws@);
    let mut i: usize = 0;
    while i < ws.len()
        invariant
            m == worker_models(ws@),
            i <= ws@.len(),
            forall|j: int| 0 <= j < i ==> #[trigger] m[j].id != id@,
        decreases ws@.len() - i,
    {
        if ws[i].id.same_as(id) {
            return Some(i);
        }
        i = i + 1;
    }
    None
}

impl PopupSelection {
    /// Returns the selected durable Worker identity.
    pub fn selected_worker_id(&self) -> (id: Option<&HarnessId>)
        ensures
            match id {
                Some(id) => self@.selected == Some(id@),
                None => self@.selected is None,
            },
    {
        self.selected_worker.as_ref()
    }

    /// The narrow-terminal mode.
    pub fn narrow_mode(&self) -> (mode: PopupNarrowMode)
        ensures
            mode == self@.narrow_mode,
    {
        self.narrow_mode
    }

    /// Shows the selected Worker's detail on a narrow terminal.
    pub fn show_detail(&mut self)
        ensures
            final(self)@.selected == old(self)@.selected,
            final(self)@.narrow_mode == PopupNarrowMode::Detail,
    {
        self.narrow_mode = PopupNarrowMode::Detail;
    }

    /// Returns a narrow terminal to its Worker list.
    pub fn show_list(&mut self)
        ensures
            final(self)@.selected == old(self)@.selected,
            final(self)@.narrow_mode == PopupNarrowMode::List,
    {
        self.narrow_mode = PopupNarrowMode::List;
    }

    /// Preserves the selected Worker through a refresh, choosing the first visible Worker only
    /// when the previous Worker is absent.
    pub fn retain_worker(&mut self, dashboard: &PopupDashboard)
        ensures
            final(self)@.selected == retained_selection(old(self)@.selected, dashboard@.workers),
            final(self)@.narrow_mode == old(self)@.narrow_mode,
    {
        if let Some(selected) = &self.selected_worker {
            if position_of(&dashboard.workers, selected).is_some() {
                return;
            }
        }
        if dashboard.workers.len() > 0 {
            self.selected_worker = Some(dashboard.workers[0].id.duplicate());
        } else {
            self.selected_worker = None;
        }
    }

    /// Selects the next Worker in visible priority order.
    pub fn select_next(&mut self, dashboard: &PopupDashboard)
        ensures
            final(self)@.selected == next_selection(old(self)@.selected, dashboard@.workers),
            final(self)@.narrow_mode == old(self)@.narrow_mode,
    {
        if self.selected_worker.is_none() {
            self.retain_worker(dashboard);
            return;
        }
        self.retain_worker(dashboard);
        let index = match &self.selected_worker {
            Some(selected) => position_of(&dashboard.workers, selected),
            None => {
                return;
            },
        };
        match index {
            Some(k) => {
                proof {
                    lemma_first_position(dashboard@.workers, self@.selected->0, k as int);
                }
                let n = dashboard.workers.len();
                let target = if k + 1 < n {
                    k + 1
                } else {
                    n - 1
                };
                self.selected_worker = Some(dashboard.workers[target].id.duplicate());
            },
            None => {},
        }
    }

    /// Selects the previous Worker in visible priority order.
    pub fn select_previous(&mut self, dashboard: &PopupDashboard)
        ensures
            final(self)@.selected == previous_selection(old(self)@.selected, dashboard@.workers),
            final(self)@.narrow_mode == old(self)@.narrow_mode,
    {
        if self.selected_worker.is_none() {
            self.retain_worker(dashboard);
            return;
        }
        self.retain_worker(dashboard);
        let index = match &self.selected_worker {
            Some(selected) => position_of(&dashboard.workers, selected),
            None => {
                return;
            },
        };
        match index {
            Some(k) => {
                proof {
                    lemma_first_position(dashboard@.workers, self@.selected->0, k as int);
                }
                let target = if k > 0 {
                    k - 1
                } else {
                    0
                };
                self.selected_worker = Some(dashboard.workers[target].id.duplicate());
            },
            None => {},
        }
    }

    /// The selected Worker's active Task row.
    pub fn selected_task<'a>(&self, dashboard: &'a PopupDashboard) -> (task: Option<&'a PopupTaskView>)
        ensures
            match task {
                Some(t) => selected_row(self@.selected, dashboard@.workers) matches Some(w)
                    && w.active_task == Some(t@),
                None => !(selected_row(self@.selected, dashboard@.workers) matches Some(w)
                    && w.active_task is Some),
            },
    {
        match dashboard.selected(self) {
            Some(worker) => match &worker.active_task {
                Some(task) => Some(task),
                None => None,
            },
            None => None,
        }
    }

    /// Returns the selected Worker's active Task target for approve and cancel actions.
    pub fn selected_task_id(&self, dashboard: &PopupDashboard) -> (id: Option<TaskId>)
        ensures
            id == match selected_row(self@.selected, dashboard@.workers) {
                Some(w) => match w.active_task {
                    Some(t) => Some(t.task.id),
                    None => None,
                },
                None => None,
            },
    {
        match self.selected_task(dashboard) {
            Some(task) => Some(task.task.id),
            None => None,
        }
    }

    /// Returns the selected Worker's first unresolved Hold target, including terminal Tasks.
    pub fn selected_hold_task_id(&self, dashboard: &PopupDashboard) -> (id: Option<TaskId>)
        ensures
            id == match selected_row(self@.selected, dashboard@.workers) {
                Some(w) => if w.holds.len() > 0 {
                    Some(w.holds[0].task_id)
                } else {
                    None
                },
                None => None,
            },
    {
        match dashboard.selected(self) {
            Some(worker) => if worker.holds.len() > 0 {
                Some(worker.holds[0].task_id)
            } else {
                None
            },
            None => None,
        }
    }

    /// Returns the selected Worker only when it currently accepts a stop request.
    pub fn selected_stoppable_worker_id<'a>(&self, dashboard: &'a PopupDashboard) -> (id: Option<&'a HarnessId>)
        ensures
            match id {
                Some(id) => selected_row(self@.selected, dashboard@.workers) matches Some(w)
                    && w.presence == "online"@ && id@ == w.id,
                None => !(selected_row(self@.selected, dashboard@.workers) matches Some(w)
                    && w.presence == "online"@),
            },
    {
        match dashboard.selected(self) {
            Some(worker) => if text_equals(&worker.presence, "online") {
                Some(&worker.id)
            } else {
                None
            },
            None => None,
        }
    }
}


/// The native Worker prompt of one Task: its instructions followed by the Coordinator
/// completion contract naming the Task and the completion tools.
pub open spec fn task_prompt(
    task_id: TaskId,
    instructions: Seq<char>,
    attachment_create: Seq<char>,
    complete: Seq<char>,
) -> Seq<char> {
    instructions + "\n\nCoordinator completion contract:\n- This is Task "@ + uuid_text(task_id.0) + ".\n- Normal assistant text is not a Result and does not complete the Task.\n- Execute the requested verification command(s).\n- Call `"@
        + attachment_create + "` with the exact verification output to create immutable evidence.\n- Then call `"@ + complete + "` exactly once with a `manifest` containing schema_version 1, this task_id, summary, changed_files, at least one verification entry referencing the returned Attachment ID, deviations, risks, and attachments.\n- Do not invent or search for a native turn ID; omit native_turn_id unless the provider explicitly exposes it. The Worker Host binds the Result to terminal provider evidence.\n- Do not finish the native turn until `"@ + complete + "` reports that the Result was recorded."@
}

/// Formats the native Worker prompt for one Task and preserves structured Result authority.
pub fn worker_task_prompt(
    task_id: TaskId,
    instructions: &str,
    completion_tools: WorkerCompletionTools,
) -> (prompt: String)
    ensures
        prompt@ == task_prompt(
            task_id,
            instructions@,
            completion_tools.attachment_create@,
            completion_tools.complete@,
        ),
{
    let mut out = String::from_str(instructions);
    out.append("\n\nCoordinator completion contract:\n- This is Task ");
    let id = task_id.to_text();
    out.append(id.as_str());
    out.append(".\n- Normal assistant text is not a Result and does not complete the Task.\n- Execute the requested verification command(s).\n- Call `");
    out.append(completion_tools.attachment_create);
    out.append("` with the exact verification output to create immutable evidence.\n- Then call `");
    out.append(completion_tools.complete);
    out.append("` exactly once with a `manifest` containing schema_version 1, this task_id, summary, changed_files, at least one verification entry referencing the returned Attachment ID, deviations, risks, and attachments.\n- Do not invent or search for a native turn ID; omit native_turn_id unless the provider explicitly exposes it. The Worker Host binds the Result to terminal provider evidence.\n- Do not finish the native turn until `");
    out.append(completion_tools.complete);
    out.append("` reports that the Result was recorded.");
    out
}

} // verus!
