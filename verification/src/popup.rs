//! Keyboard control of the Supervisor popup: each key press moves the stable selection or
//! names one authorized Coordinator action for the selected Worker.
//!
//! Drawing the terminal, reading keys, and performing the actions stand outside this module.
use vstd::prelude::*;
use crate::contract::{HarnessId, HarnessSessionId, ObservationCheckpoint, TaskId};
use crate::coordinator::CoordinatorCommand;
use crate::host::{
    next_selection, previous_selection, selected_row, PopupDashboard, PopupNarrowMode,
    PopupSelection, PopupSelectionModel, PopupWorkerModel,
};

verus! {

/// Audit note recorded when the Supervisor clears a Hold from the popup.
pub const HOLD_CLEAR_AUDIT_NOTE: &'static str = "Supervisor reconciled the repository from the popup.";

/// One key press, as the popup distinguishes them.
#[derive(Debug, Clone, Copy, PartialEq, Eq, Structural)]
pub enum PopupKey {
    Escape,
    Up,
    Down,
    Enter,
    Right,
    Left,
    Char(char),
    Other,
}

/// What the popup does after a key press.
#[derive(Debug, Clone, PartialEq, Eq)]
pub enum PopupAction {
    /// Close the popup and stop.
    Close,
    /// Nothing beyond redrawing.
    Redraw,
    /// Clear the action warning.
    ClearWarning,
    /// Focus the selected Worker's terminal pane.
    Focus { session_id: HarnessSessionId, terminal_id: String },
    /// Show an action warning.
    Warn { message: String },
    /// Cancel the selected Worker's active Task.
    Cancel { task_id: TaskId },
    /// Approve the selected Worker's active Task at its current Result revision.
    Approve { task_id: TaskId, result_revision: u32 },
    /// Clear the selected Worker's first unresolved Hold.
    ClearHold { task_id: TaskId },
    /// Stop the selected Worker.
    Stop { worker_id: HarnessId },
}

/// The mathematical value of a [`PopupAction`].
pub enum PopupActionView {
    Close,
    Redraw,
    ClearWarning,
    Focus { session_id: HarnessSessionId, terminal_id: Seq<char> },
    Warn { message: Seq<char> },
    Cancel { task_id: TaskId },
    Approve { task_id: TaskId, result_revision: u32 },
    ClearHold { task_id: TaskId },
    Stop { worker_id: Seq<char> },
}

impl View for PopupAction {
    type V = PopupActionView;

    open spec fn view(&self) -> PopupActionView {
        match self {
            PopupAction::Close => PopupActionView::Close,
            PopupAction::Redraw => PopupActionView::Redraw,
            PopupAction::ClearWarning => PopupActionView::ClearWarning,
            PopupAction::Focus { session_id, terminal_id } => PopupActionView::Focus {
                session_id: *session_id,
                terminal_id: terminal_id@,
            },
            PopupAction::Warn { message } => PopupActionView::Warn { message: message@ },
            PopupAction::Cancel { task_id } => PopupActionView::Cancel { task_id: *task_id },
            PopupAction::Approve { task_id, result_revision } => PopupActionView::Approve {
                task_id: *task_id,
                result_revision: *result_revision,
            },
            PopupAction::ClearHold { task_id } => PopupActionView::ClearHold { task_id: *task_id },
            PopupAction::Stop { worker_id } => PopupActionView::Stop { worker_id: worker_id@ },
        }
    }
}

/// The selection after a key press, given the Worker rows when a Dashboard has been read.
pub open spec fn key_selection(
    selection: PopupSelectionModel,
    rows: Option<Seq<PopupWorkerModel>>,
    key: PopupKey,
) -> PopupSelectionModel {
    match key {
        PopupKey::Up => match rows {
            Some(ws) => PopupSelectionModel {
                selected: previous_selection(selection.selected, ws),
                narrow_mode: selection.narrow_mode,
            },
            None => selection,
        },
        PopupKey::Down => match rows {
            Some(ws) => PopupSelectionModel {
                selected: next_selection(selection.selected, ws),
                narrow_mode: selection.narrow_mode,
            },
            None => selection,
        },
        PopupKey::Enter | PopupKey::Right => PopupSelectionModel {
            selected: selection.selected,
            narrow_mode: PopupNarrowMode::Detail,
        },
        PopupKey::Left => PopupSelectionModel {
            selected: selection.selected,
            narrow_mode: PopupNarrowMode::List,
        },
        _ => selection,
    }
}

/// The focus action for a selected Worker row: its live Session and terminal, or the warning
/// that names what is missing.
pub open spec fn focus_action(w: PopupWorkerModel) -> PopupActionView {
    match w.session_id {
        None => PopupActionView::Warn {
            message: "Unable to focus Worker: selected Worker has no live Coordinator Session"@,
        },
        Some(session_id) => match w.terminal_id {
            None => PopupActionView::Warn {
                message: "Unable to focus Worker: selected Worker has no durable terminal identity"@,
            },
            Some(terminal_id) => PopupActionView::Focus { session_id, terminal_id },
        },
    }
}

/// The action named by a character key for the selected Worker row, if one is shown.
pub open spec fn char_action(c: char, row: Option<PopupWorkerModel>) -> PopupActionView {
    if c == 'q' {
        PopupActionView::Close
    } else if c == 'r' {
        PopupActionView::ClearWarning
    } else if c == 'o' {
        match row {
            Some(w) => focus_action(w),
            None => PopupActionView::Redraw,
        }
    } else if c == 'c' {
        match row {
            Some(w) => match w.active_task {
                Some(t) => PopupActionView::Cancel { task_id: t.task.id },
                None => PopupActionView::Redraw,
            },
            None => PopupActionView::Redraw,
        }
    } else if c == 'a' {
        match row {
            Some(w) => match w.active_task {
                Some(t) => PopupActionView::Approve {
                    task_id: t.task.id,
                    result_revision: t.task.result_revision,
                },
                None => PopupActionView::Redraw,
            },
            None => PopupActionView::Redraw,
        }
    } else if c == 'h' {
        match row {
            Some(w) => if w.holds.len() > 0 {
                PopupActionView::ClearHold { task_id: w.holds[0].task_id }
            } else {
                PopupActionView::Redraw
            },
            None => PopupActionView::Redraw,
        }
    } else if c == 's' {
        match row {
            Some(w) => if w.presence == "online"@ {
                PopupActionView::Stop { worker_id: w.id }
            } else {
                PopupActionView::Redraw
            },
            None => PopupActionView::Redraw,
        }
    } else {
        PopupActionView::Redraw
    }
}

/// The action after a key press, given the selection before it and the Worker rows when a
/// Dashboard has been read.
pub open spec fn key_action(
    selected: Option<Seq<char>>,
    rows: Option<Seq<PopupWorkerModel>>,
    key: PopupKey,
) -> PopupActionView {
    match key {
        PopupKey::Escape => PopupActionView::Close,
        PopupKey::Char(c) => char_action(
            c,
            match rows {
                Some(ws) => selected_row(selected, ws),
                None => None,
            },
        ),
        _ => PopupActionView::Redraw,
    }
}

/// The Worker rows of a Dashboard, when one has been read.
pub open spec fn rows_of(dashboard: Option<&PopupDashboard>) -> Option<Seq<PopupWorkerModel>> {
    match dashboard {
        Some(d) => Some(d@.workers),
        None => None,
    }
}

fn focus_of(
    session_id: Option<HarnessSessionId>,
    terminal_id: &Option<String>,
) -> (action: PopupAction)
    ensures
        action@ == match session_id {
            None => PopupActionView::Warn {
                message: "Unable to focus Worker: selected Worker has no live Coordinator Session"@,
            },
            Some(s) => match terminal_id {
                None => PopupActionView::Warn {
                    message: "Unable to focus Worker: selected Worker has no durable terminal identity"@,
                },
                Some(t) => PopupActionView::Focus { session_id: s, terminal_id: t@ },
            },
        },
{
    match session_id {
        None => PopupAction::Warn {
            message: "Unable to focus Worker: selected Worker has no live Coordinator Session".to_owned(),
        },
        Some(session_id) => match terminal_id {
            None => PopupAction::Warn {
                message: "Unable to focus Worker: selected Worker has no durable terminal identity".to_owned(),
            },
            Some(terminal_id) => PopupAction::Focus { session_id, terminal_id: terminal_id.clone() },
        },
    }
}

impl PopupSelection {
    /// Applies one key press: arrows move the selection through the shown Workers, Enter and
    /// Right show the detail, Left the list; Escape and `q` close; `r` clears the warning; `o`
    /// focuses, `c` cancels, `a` approves, `h` clears the first Hold of, and `s` stops the
    /// selected Worker, when it has what the action needs.
    pub fn handle_key(&mut self, dashboard: Option<&PopupDashboard>, key: PopupKey) -> (action: PopupAction)
        ensures
            final(self)@ == key_selection(old(self)@, rows_of(dashboard), key),
            action@ == key_action(old(self)@.selected, rows_of(dashboard), key),
    {
        match key {
            PopupKey::Escape => PopupAction::Close,
            PopupKey::Up => {
                if let Some(d) = dashboard {
                    self.select_previous(d);
                }
                PopupAction::Redraw
            },
            PopupKey::Down => {
                if let Some(d) = dashboard {
                    self.select_next(d);
                }
                PopupAction::Redraw
            },
            PopupKey::Enter | PopupKey::Right => {
                self.show_detail();
                PopupAction::Redraw
            },
            PopupKey::Left => {
                self.show_list();
                PopupAction::Redraw
            },
            PopupKey::Char(c) => {
                if c == 'q' {
                    PopupAction::Close
                } else if c == 'r' {
                    PopupAction::ClearWarning
                } else {
                    match dashboard {
                        Some(d) => self.worker_action(d, c),
                        None => PopupAction::Redraw,
                    }
                }
            },
            PopupKey::Other => PopupAction::Redraw,
        }
    }

    fn worker_action(&self, dashboard: &PopupDashboard, c: char) -> (action: PopupAction)
        requires
            c != 'q',
            c != 'r',
        ensures
            action@ == char_action(c, selected_row(self@.selected, dashboard@.workers)),
    {
        if c == 'o' {
            match dashboard.selected(self) {
                Some(worker) => focus_of(worker.session_id, &worker.terminal_id),
                None => PopupAction::Redraw,
            }
        } else if c == 'c' {
            match self.selected_task(dashboard) {
                Some(task) => PopupAction::Cancel { task_id: task.task.id },
                None => PopupAction::Redraw,
            }
        } else if c == 'a' {
            match self.selected_task(dashboard) {
                Some(task) => PopupAction::Approve {
                    task_id: task.task.id,
                    result_revision: task.task.result_revision,
                },
                None => PopupAction::Redraw,
            }
        } else if c == 'h' {
            match self.selected_hold_task_id(dashboard) {
                Some(task_id) => PopupAction::ClearHold { task_id },
                None => PopupAction::Redraw,
            }
        } else if c == 's' {
            match self.selected_stoppable_worker_id(dashboard) {
                Some(worker_id) => PopupAction::Stop { worker_id: worker_id.duplicate() },
                None => PopupAction::Redraw,
            }
        } else {
            PopupAction::Redraw
        }
    }
}

/// The repository capture an action needs first: Approval and Hold clearance act on fresh
/// repository evidence.
pub fn capture_for(action: &PopupAction) -> (capture: Option<CoordinatorCommand>)
    ensures
        capture == match *action {
            PopupAction::Approve { task_id, .. } => Some(
                CoordinatorCommand::CaptureRepositoryObservation {
                    task_id,
                    checkpoint: ObservationCheckpoint::Approval,
                },
            ),
            PopupAction::ClearHold { task_id } => Some(
                CoordinatorCommand::CaptureRepositoryObservation {
                    task_id,
                    checkpoint: ObservationCheckpoint::HoldClear,
                },
            ),
            _ => None,
        },
{
    match action {
        PopupAction::Approve { task_id, .. } => Some(
            CoordinatorCommand::CaptureRepositoryObservation {
                task_id: *task_id,
                checkpoint: ObservationCheckpoint::Approval,
            },
        ),
        PopupAction::ClearHold { task_id } => Some(
            CoordinatorCommand::CaptureRepositoryObservation {
                task_id: *task_id,
                checkpoint: ObservationCheckpoint::HoldClear,
            },
        ),
        _ => None,
    }
}

/// The Coordinator command that carries out an action, given the digest of the repository
/// observation captured for it; `None` for actions that the popup performs itself.
pub fn action_command(action: &PopupAction, observation_digest: String) -> (command: Option<CoordinatorCommand>)
    ensures
        match *action {
            PopupAction::Cancel { task_id } => command == Some(CoordinatorCommand::CancelTask { task_id }),
            PopupAction::Approve { task_id, result_revision } => command == Some(
                CoordinatorCommand::ApproveTask { task_id, result_revision, observation_digest },
            ),
            PopupAction::ClearHold { task_id } => command matches Some(
                CoordinatorCommand::ClearWorktreeHold { task_id: t, observation_digest: d, audit_note: n },
            ) && t == task_id && d == observation_digest && n@ == HOLD_CLEAR_AUDIT_NOTE@,
            PopupAction::Stop { worker_id } => command == Some(
                CoordinatorCommand::StopWorker { worker_id },
            ),
            _ => command is None,
        },
{
    match action {
        PopupAction::Cancel { task_id } => Some(CoordinatorCommand::CancelTask { task_id: *task_id }),
        PopupAction::Approve { task_id, result_revision } => Some(
            CoordinatorCommand::ApproveTask {
                task_id: *task_id,
                result_revision: *result_revision,
                observation_digest,
            },
        ),
        PopupAction::ClearHold { task_id } => Some(
            CoordinatorCommand::ClearWorktreeHold {
                task_id: *task_id,
                observation_digest,
                audit_note: HOLD_CLEAR_AUDIT_NOTE.to_owned(),
            },
        ),
        PopupAction::Stop { worker_id } => Some(
            CoordinatorCommand::StopWorker { worker_id: worker_id.duplicate() },
        ),
        _ => None,
    }
}


/// The action keys act on the selected Worker's own row and nothing else: `h` clears its
/// first unresolved Hold, `c` cancels and `a` approves its active Task (at that Task's Result
/// revision), `s` stops it only while it is online; with no Hold, no active Task, an offline
/// Worker, or no shown selection, the key only redraws. `q` and Escape always close.
pub proof fn action_keys_target_the_selected_row(
    selected: Option<Seq<char>>,
    ws: Seq<PopupWorkerModel>,
)
    ensures
        key_action(selected, Some(ws), PopupKey::Char('q')) == PopupActionView::Close,
        key_action(selected, Some(ws), PopupKey::Escape) == PopupActionView::Close,
        match selected_row(selected, ws) {
            Some(w) => {
                &&& key_action(selected, Some(ws), PopupKey::Char('h')) == if w.holds.len() > 0 {
                    PopupActionView::ClearHold { task_id: w.holds[0].task_id }
                } else {
                    PopupActionView::Redraw
                }
                &&& key_action(selected, Some(ws), PopupKey::Char('c')) == match w.active_task {
                    Some(t) => PopupActionView::Cancel { task_id: t.task.id },
                    None => PopupActionView::Redraw,
                }
                &&& key_action(selected, Some(ws), PopupKey::Char('a')) == match w.active_task {
                    Some(t) => PopupActionView::Approve {
                        task_id: t.task.id,
                        result_revision: t.task.result_revision,
                    },
                    None => PopupActionView::Redraw,
                }
                &&& key_action(selected, Some(ws), PopupKey::Char('s')) == if w.presence
                    == "online"@ {
                    PopupActionView::Stop { worker_id: w.id }
                } else {
                    PopupActionView::Redraw
                }
            },
            None => {
                &&& key_action(selected, Some(ws), PopupKey::Char('h')) == PopupActionView::Redraw
                &&& key_action(selected, Some(ws), PopupKey::Char('c')) == PopupActionView::Redraw
                &&& key_action(selected, Some(ws), PopupKey::Char('a')) == PopupActionView::Redraw
                &&& key_action(selected, Some(ws), PopupKey::Char('s')) == PopupActionView::Redraw
            },
        },
        key_action(selected, None, PopupKey::Char('h')) == PopupActionView::Redraw,
{
}

} // verus!
