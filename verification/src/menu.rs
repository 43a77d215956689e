//! The interactive session as a state machine.
//!
//! The program that drives a session clears the terminal, shows what
//! [`enter`] returns for the current state, reads what the state
//! [`awaits`](MenuState::awaits), and shows what [`respond`] returns before
//! it moves to the next state. Everything that is decided along the way is
//! decided here.

use crate::error::StorageError;
use crate::request::is_list_name;
use crate::store::{add_task, list_tasks, mark_task_complete, refused};
use crate::task::{task_views, Task, TaskView};
use crate::text::{decimal, decimal_text, integer_of, parse_integer};
use vstd::prelude::*;
use vstd::string::StringExecFns;

verus! {

/// The colours in which the session paints its texts.
#[derive(Clone, Copy, Debug, PartialEq, Eq, Structural)]
pub enum Color {
    Cyan,
    Green,
    Yellow,
    Blue,
    Red,
}

/// The fixed texts of the session.
#[derive(Clone, Copy, Debug, PartialEq, Eq, Structural)]
pub enum Label {
    Title,
    OptionAdd,
    OptionList,
    OptionComplete,
    OptionExit,
    AskDescription,
    TaskAdded,
    TasksHeading,
    AskTaskId,
    TaskCompleted,
    UpdatedHeading,
    Farewell,
    InvalidChoice,
    Continue,
    MarkerDone,
    MarkerOpen,
}

impl Label {
    /// The wording of the label.
    pub open spec fn text_of(self) -> Seq<char> {
        match self {
            Label::Title => "Todo Application"@,
            Label::OptionAdd => "1. Add Task"@,
            Label::OptionList => "2. List Tasks"@,
            Label::OptionComplete => "3. Mark Task Complete"@,
            Label::OptionExit => "4. Exit"@,
            Label::AskDescription => "Enter task description:"@,
            Label::TaskAdded => "Task added successfully!"@,
            Label::TasksHeading => "Tasks:"@,
            Label::AskTaskId => "Enter task ID to mark as complete:"@,
            Label::TaskCompleted => "Task marked as complete!"@,
            Label::UpdatedHeading => "Updated Tasks:"@,
            Label::Farewell => "Exiting the application."@,
            Label::InvalidChoice => "Invalid choice. Please choose again."@,
            Label::Continue => "Press Enter to continue..."@,
            Label::MarkerDone => "[x]"@,
            Label::MarkerOpen => "[ ]"@,
        }
    }

    /// The colour of the label.
    pub open spec fn color_of(self) -> Color {
        match self {
            Label::Title => Color::Cyan,
            Label::OptionAdd => Color::Green,
            Label::OptionList => Color::Yellow,
            Label::OptionComplete => Color::Blue,
            Label::OptionExit => Color::Red,
            Label::AskDescription => Color::Cyan,
            Label::TaskAdded => Color::Green,
            Label::TasksHeading => Color::Yellow,
            Label::AskTaskId => Color::Cyan,
            Label::TaskCompleted => Color::Blue,
            Label::UpdatedHeading => Color::Yellow,
            Label::Farewell => Color::Red,
            Label::InvalidChoice => Color::Red,
            Label::Continue => Color::Cyan,
            Label::MarkerDone => Color::Green,
            Label::MarkerOpen => Color::Red,
        }
    }

    /// The wording of the label.
    pub fn text(self) -> (text: &'static str)
        ensures
            text@ == self.text_of(),
    {
        match self {
            Label::Title => "Todo Application",
            Label::OptionAdd => "1. Add Task",
            Label::OptionList => "2. List Tasks",
            Label::OptionComplete => "3. Mark Task Complete",
            Label::OptionExit => "4. Exit",
            Label::AskDescription => "Enter task description:",
            Label::TaskAdded => "Task added successfully!",
            Label::TasksHeading => "Tasks:",
            Label::AskTaskId => "Enter task ID to mark as complete:",
            Label::TaskCompleted => "Task marked as complete!",
            Label::UpdatedHeading => "Updated Tasks:",
            Label::Farewell => "Exiting the application.",
            Label::InvalidChoice => "Invalid choice. Please choose again.",
            Label::Continue => "Press Enter to continue...",
            Label::MarkerDone => "[x]",
            Label::MarkerOpen => "[ ]",
        }
    }

    /// The colour of the label.
    pub fn color(self) -> (color: Color)
        ensures
            color == self.color_of(),
    {
        match self {
            Label::Title => Color::Cyan,
            Label::OptionAdd => Color::Green,
            Label::OptionList => Color::Yellow,
            Label::OptionComplete => Color::Blue,
            Label::OptionExit => Color::Red,
            Label::AskDescription => Color::Cyan,
            Label::TaskAdded => Color::Green,
            Label::TasksHeading => Color::Yellow,
            Label::AskTaskId => Color::Cyan,
            Label::TaskCompleted => Color::Blue,
            Label::UpdatedHeading => Color::Yellow,
            Label::Farewell => Color::Red,
            Label::InvalidChoice => Color::Red,
            Label::Continue => Color::Cyan,
            Label::MarkerDone => Color::Green,
            Label::MarkerOpen => Color::Red,
        }
    }
}

/// The marker in front of a listed task.
pub open spec fn marker_of(completed: bool) -> Label {
    if completed {
        Label::MarkerDone
    } else {
        Label::MarkerOpen
    }
}

/// What follows the marker of a listed task: its identifier, a colon, a
/// space and its description.
pub open spec fn caption_of(task: TaskView) -> Seq<char> {
    decimal(task.id) + ": "@ + task.description
}

/// The marker in front of a listed task: `[x]` for a completed one, `[ ]`
/// for an open one.
pub fn marker(task: &Task) -> (label: Label)
    ensures
        label == marker_of(task@.completed),
{
    if task.completed {
        Label::MarkerDone
    } else {
        Label::MarkerOpen
    }
}

/// What follows the marker of a listed task.
pub fn caption(task: &Task) -> (text: String)
    ensures
        text@ == caption_of(task@),
{
    let mut text = decimal_text(task.id);
    text.append(": ");
    text.append(task.description.as_str());
    text
}

/// One line of a screen, as a model.
pub enum LineView {
    Notice(Label),
    Entry(TaskView),
}

/// One line of a screen: a fixed text, or a task.
#[derive(Debug, PartialEq, Eq)]
pub enum Line {
    Notice(Label),
    Entry(Task),
}

impl View for Line {
    type V = LineView;

    open spec fn view(&self) -> LineView {
        match self {
            Line::Notice(label) => LineView::Notice(*label),
            Line::Entry(task) => LineView::Entry(task@),
        }
    }
}

/// The models of a sequence of lines, in the same order.
pub open spec fn line_views(lines: Seq<Line>) -> Seq<LineView> {
    Seq::new(lines.len(), |i: int| lines[i]@)
}

/// One line for each task, in the same order.
pub open spec fn entries(tasks: Seq<TaskView>) -> Seq<LineView> {
    Seq::new(tasks.len(), |i: int| LineView::Entry(tasks[i]))
}

/// The states of a session.
#[derive(Clone, Copy, Debug, PartialEq, Eq, Structural)]
pub enum MenuState {
    MainMenu,
    Adding,
    Listing,
    Completing,
    Exiting,
}

/// What the session reads from the user in a state.
#[derive(Clone, Copy, Debug, PartialEq, Eq, Structural)]
pub enum Awaited {
    /// One word: the number of a menu entry.
    Choice,
    /// One line: the description of a new task.
    Description,
    /// One word: the identifier of the task to complete.
    TaskId,
    /// The Enter key, asked for with the `Continue` label.
    Acknowledgement,
    /// Nothing: the session is over.
    Nothing,
}

/// The state that a word typed at the main menu leads to: the numerals of 1
/// to 4 select an action, anything else leads back to the main menu.
pub open spec fn chosen(input: Seq<char>) -> MenuState {
    match integer_of(input) {
        Some(number) => if number == 1 {
            MenuState::Adding
        } else if number == 2 {
            MenuState::Listing
        } else if number == 3 {
            MenuState::Completing
        } else if number == 4 {
            MenuState::Exiting
        } else {
            MenuState::MainMenu
        },
        None => MenuState::MainMenu,
    }
}

impl MenuState {
    /// The state in which a session starts.
    pub open spec fn initial_state() -> MenuState {
        MenuState::MainMenu
    }

    /// The one state that a session never leaves.
    pub open spec fn terminal(self) -> bool {
        self == MenuState::Exiting
    }

    /// What the state reads.
    pub open spec fn awaited(self) -> Awaited {
        match self {
            MenuState::MainMenu => Awaited::Choice,
            MenuState::Adding => Awaited::Description,
            MenuState::Listing => Awaited::Acknowledgement,
            MenuState::Completing => Awaited::TaskId,
            MenuState::Exiting => Awaited::Nothing,
        }
    }

    /// The state that follows once `input` was read: the main menu
    /// dispatches on it, every action returns to the main menu whatever was
    /// read, and the session stays over once it is over.
    pub open spec fn successor(self, input: Seq<char>) -> MenuState {
        match self {
            MenuState::MainMenu => chosen(input),
            MenuState::Adding => MenuState::MainMenu,
            MenuState::Listing => MenuState::MainMenu,
            MenuState::Completing => MenuState::MainMenu,
            MenuState::Exiting => MenuState::Exiting,
        }
    }

    /// The state in which a session starts.
    pub fn initial() -> (state: MenuState)
        ensures
            state == MenuState::initial_state(),
    {
        MenuState::MainMenu
    }

    /// Tells whether the session is over.
    pub fn is_terminal(self) -> (over: bool)
        ensures
            over == self.terminal(),
    {
        match self {
            MenuState::Exiting => true,
            _ => false,
        }
    }

    /// What the session reads in this state.
    pub fn awaits(self) -> (kind: Awaited)
        ensures
            kind == self.awaited(),
    {
        match self {
            MenuState::MainMenu => Awaited::Choice,
            MenuState::Adding => Awaited::Description,
            MenuState::Listing => Awaited::Acknowledgement,
            MenuState::Completing => Awaited::TaskId,
            MenuState::Exiting => Awaited::Nothing,
        }
    }

    /// The state that follows once `input` was read.
    pub fn next(self, input: &str) -> (state: MenuState)
        ensures
            state == self.successor(input@),
    {
        match self {
            MenuState::MainMenu => match parse_integer(input) {
                Some(1) => MenuState::Adding,
                Some(2) => MenuState::Listing,
                Some(3) => MenuState::Completing,
                Some(4) => MenuState::Exiting,
                _ => MenuState::MainMenu,
            },
            MenuState::Exiting => MenuState::Exiting,
            _ => MenuState::MainMenu,
        }
    }
}

/// What is shown on entering a state, `tasks` being the stored tasks (they
/// matter to the two states that list them).
pub open spec fn opening_of(state: MenuState, tasks: Seq<TaskView>) -> Seq<LineView> {
    match state {
        MenuState::MainMenu => seq![
            LineView::Notice(Label::Title),
            LineView::Notice(Label::OptionAdd),
            LineView::Notice(Label::OptionList),
            LineView::Notice(Label::OptionComplete),
            LineView::Notice(Label::OptionExit),
        ],
        MenuState::Adding => seq![LineView::Notice(Label::AskDescription)],
        MenuState::Listing => seq![LineView::Notice(Label::TasksHeading)] + entries(tasks),
        MenuState::Completing => seq![LineView::Notice(Label::TasksHeading)] + entries(tasks)
            + seq![LineView::Notice(Label::AskTaskId)],
        MenuState::Exiting => seq![LineView::Notice(Label::Farewell)],
    }
}

/// What is shown once a state has read `input` and done its work, `tasks`
/// being the tasks stored afterwards (they matter to the state that
/// completes one). Where this is not empty, the session asks for an
/// acknowledgement before it moves on: see [`acknowledges`].
pub open spec fn closing_of(state: MenuState, input: Seq<char>, tasks: Seq<TaskView>) -> Seq<
    LineView,
> {
    match state {
        MenuState::MainMenu => if chosen(input) == MenuState::MainMenu {
            seq![LineView::Notice(Label::InvalidChoice)]
        } else {
            Seq::empty()
        },
        MenuState::Adding => seq![LineView::Notice(Label::TaskAdded)],
        MenuState::Listing => Seq::empty(),
        MenuState::Completing => seq![
            LineView::Notice(Label::TaskCompleted),
            LineView::Notice(Label::UpdatedHeading),
        ] + entries(tasks),
        MenuState::Exiting => Seq::empty(),
    }
}

fn push_notice(lines: &mut Vec<Line>, label: Label)
    ensures
        line_views(final(lines)@) == line_views(old(lines)@).push(LineView::Notice(label)),
{
    lines.push(Line::Notice(label));
    assert(line_views(lines@) =~= line_views(old(lines)@).push(LineView::Notice(label)));
}

fn push_entries(lines: &mut Vec<Line>, tasks: Vec<Task>)
    ensures
        line_views(final(lines)@) == line_views(old(lines)@) + entries(task_views(tasks@)),
{
    let ghost all = tasks@;
    let ghost before = line_views(lines@);
    assert(before + entries(task_views(all.take(0))) =~= before);
    for task in it: tasks
        invariant
            it.seq() == all,
            line_views(lines@) == before + entries(task_views(all.take(it.index() as int))),
    {
        let ghost shown = line_views(lines@);
        let ghost entry = task@;
        lines.push(Line::Entry(task));
        proof {
            let k = it.index() as int;
            assert(line_views(lines@) =~= shown.push(LineView::Entry(entry)));
            assert(line_views(lines@) =~= before + entries(task_views(all.take(k + 1))));
        }
    }
    assert(all.take(all.len() as int) =~= all);
}

/// The screen shown on entering `state`, with `tasks` as the stored tasks.
pub fn opening(state: MenuState, tasks: Vec<Task>) -> (lines: Vec<Line>)
    ensures
        line_views(lines@) == opening_of(state, task_views(tasks@)),
{
    let mut lines: Vec<Line> = Vec::new();
    match state {
        MenuState::MainMenu => {
            push_notice(&mut lines, Label::Title);
            push_notice(&mut lines, Label::OptionAdd);
            push_notice(&mut lines, Label::OptionList);
            push_notice(&mut lines, Label::OptionComplete);
            push_notice(&mut lines, Label::OptionExit);
        },
        MenuState::Adding => {
            push_notice(&mut lines, Label::AskDescription);
        },
        MenuState::Listing => {
            push_notice(&mut lines, Label::TasksHeading);
            push_entries(&mut lines, tasks);
        },
        MenuState::Completing => {
            push_notice(&mut lines, Label::TasksHeading);
            push_entries(&mut lines, tasks);
            push_notice(&mut lines, Label::AskTaskId);
        },
        MenuState::Exiting => {
            push_notice(&mut lines, Label::Farewell);
        },
    }
    assert(line_views(lines@) =~= opening_of(state, task_views(tasks@)));
    lines
}

/// The screen shown once `state` has read `input` and done its work, with
/// `tasks` as the tasks stored afterwards.
pub fn closing(state: MenuState, input: &str, tasks: Vec<Task>) -> (lines: Vec<Line>)
    ensures
        line_views(lines@) == closing_of(state, input@, task_views(tasks@)),
{
    let mut lines: Vec<Line> = Vec::new();
    match state {
        MenuState::MainMenu => {
            if state.next(input) == MenuState::MainMenu {
                push_notice(&mut lines, Label::InvalidChoice);
            }
        },
        MenuState::Adding => {
            push_notice(&mut lines, Label::TaskAdded);
        },
        MenuState::Listing => {},
        MenuState::Completing => {
            push_notice(&mut lines, Label::TaskCompleted);
            push_notice(&mut lines, Label::UpdatedHeading);
            push_entries(&mut lines, tasks);
        },
        MenuState::Exiting => {},
    }
    assert(line_views(lines@) =~= closing_of(state, input@, task_views(tasks@)));
    lines
}

/// Tells whether the session asks for an acknowledgement once `state` has
/// read `input` and done its work: it does wherever a closing screen is
/// shown, whatever the stored tasks are.
pub fn acknowledges(state: MenuState, input: &str) -> (pause: bool)
    ensures
        forall|tasks: Seq<TaskView>|
            pause == (#[trigger] closing_of(state, input@, tasks).len() > 0),
{
    match state {
        MenuState::MainMenu => state.next(input) == MenuState::MainMenu,
        MenuState::Adding => true,
        MenuState::Listing => false,
        MenuState::Completing => true,
        MenuState::Exiting => false,
    }
}

/// What a state hands back once it has read its input: the lines to show
/// and the state to move to.
#[derive(Debug, PartialEq, Eq)]
pub struct Reply {
    pub next: MenuState,
    pub lines: Vec<Line>,
}

impl MenuState {
    /// Entering the state reads the task list.
    pub open spec fn lists(self) -> bool {
        self == MenuState::Listing || self == MenuState::Completing
    }

    /// Answering in the state changes the task list.
    pub open spec fn changes(self) -> bool {
        self == MenuState::Adding || self == MenuState::Completing
    }
}

/// Enters `state`: reads the task list where the state shows it, and returns
/// the screen to display.
///
/// The three states that show no tasks always succeed and never touch the
/// database. The two others fail exactly when the read fails, and refuse an
/// invalid list name before the database is touched.
pub fn enter(conn: &rusqlite::Connection, list_name: &str, state: MenuState) -> (outcome: Result<
    Vec<Line>,
    StorageError,
>)
    ensures
        match outcome {
            Ok(lines) => exists|tasks: Seq<TaskView>|
                line_views(lines@) == #[trigger] opening_of(state, tasks),
            Err(_) => state.lists(),
        },
        state.lists() ==> (refused(outcome) <==> !is_list_name(list_name@)),
{
    let tasks = match state {
        MenuState::Listing | MenuState::Completing => list_tasks(conn, list_name)?,
        _ => Vec::new(),
    };
    let ghost shown = task_views(tasks@);
    let lines = opening(state, tasks);
    assert(line_views(lines@) == opening_of(state, shown));
    Ok(lines)
}

/// Answers `input` in `state`: does the state's work and returns what to
/// show and where to go next.
///
/// The main menu dispatches on the input and shows a notice for an invalid
/// choice; it never touches the database, nor do the listing and the final
/// state. Adding stores the input as a new task's description; completing
/// reads the input as a task identifier, marks that task and shows the list
/// as it is afterwards. These two fail exactly when the database fails, and
/// refuse an invalid list name before the database is touched.
///
/// In the completing state the input has to be a numeral of a 32-bit integer.
pub fn respond(conn: &rusqlite::Connection, list_name: &str, state: MenuState, input: &str) -> (outcome:
    Result<Reply, StorageError>)
    requires
        state == MenuState::Completing ==> integer_of(input@) is Some,
    ensures
        match outcome {
            Ok(reply) => {
                &&& reply.next == state.successor(input@)
                &&& exists|tasks: Seq<TaskView>|
                    line_views(reply.lines@) == #[trigger] closing_of(state, input@, tasks)
            },
            Err(_) => state.changes(),
        },
        state.changes() ==> (refused(outcome) <==> !is_list_name(list_name@)),
{
    let tasks = match state {
        MenuState::Adding => {
            add_task(conn, list_name, input)?;
            Vec::new()
        },
        MenuState::Completing => match parse_integer(input) {
            Some(task_id) => mark_task_complete(conn, list_name, task_id)?,
            None => Vec::new(),
        },
        _ => Vec::new(),
    };
    let ghost shown = task_views(tasks@);
    let lines = closing(state, input, tasks);
    assert(line_views(lines@) == closing_of(state, input@, shown));
    Ok(Reply { next: state.next(input), lines })
}

/// A session ends only when the user asks for it: a step leads into the
/// final state from the main menu on the choice 4, and from nowhere else but
/// the final state itself.
pub proof fn lemma_exit_only_by_choice(state: MenuState, input: Seq<char>)
    ensures
        state.successor(input).terminal() <==> (state.terminal() || (state == MenuState::MainMenu
            && integer_of(input) == Some(4i32))),
{
}

/// The main menu shows the notice of an invalid choice exactly when it
/// stays where it is, and shows nothing when it moves on.
pub proof fn lemma_notice_on_invalid_choice(input: Seq<char>, tasks: Seq<TaskView>)
    ensures
        chosen(input) == MenuState::MainMenu ==> closing_of(MenuState::MainMenu, input, tasks)
            == seq![LineView::Notice(Label::InvalidChoice)],
        chosen(input) != MenuState::MainMenu ==> closing_of(MenuState::MainMenu, input, tasks)
            == Seq::<LineView>::empty(),
        chosen(input) == MenuState::MainMenu <==> !(integer_of(input) matches Some(number)
            && 1 <= number <= 4),
{
}

} // verus!
