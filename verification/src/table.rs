//! The table of all recorded projects: its rows, its heading, and how the
//! view that shows it reacts to input.

use vstd::prelude::*;
use vstd::string::*;
use crate::store::{ProjectLog, ProjectView};
use crate::text::{decimal, decimal_digits};

verus! {

/// The title of the frame around the table.
pub const TABLE_TITLE: &'static str = "Python Projects";

/// The headings of the four columns.
pub const VERSION_HEADING: &'static str = "Version";

pub const PROJECT_HEADING: &'static str = "Project";

pub const CREATED_HEADING: &'static str = "Created At";

pub const ACCESSED_HEADING: &'static str = "Last Accessed";

/// The share of the width that each of the four columns takes, in percent.
pub const COLUMN_PERCENT: u16 = 25;

/// The key that ends the view.
pub const QUIT_KEY: char = 'q';

/// What is printed for each version before the table is drawn, before the
/// version.
pub const LISTED_PART: &'static str = "Python version listed: ";

/// One row of the table: the four cells as they are shown.
#[derive(Debug, Clone, PartialEq, Eq)]
pub struct TableRow {
    pub version: String,
    pub project: String,
    pub created_at: String,
    pub last_accessed: String,
}

/// What a row is to the contracts.
pub struct TableRowView {
    pub version: Seq<char>,
    pub project: Seq<char>,
    pub created_at: Seq<char>,
    pub last_accessed: Seq<char>,
}

impl View for TableRow {
    type V = TableRowView;

    open spec fn view(&self) -> TableRowView {
        TableRowView {
            version: self.version@,
            project: self.project@,
            created_at: self.created_at@,
            last_accessed: self.last_accessed@,
        }
    }
}

/// The views of a sequence of rows, in order.
pub open spec fn row_views(rows: Seq<TableRow>) -> Seq<TableRowView> {
    rows.map_values(|r: TableRow| r@)
}

/// The row of one project of `version`: the times in decimal.
pub open spec fn row_of(version: Seq<char>, p: ProjectView) -> TableRowView {
    TableRowView {
        version,
        project: p.name,
        created_at: decimal_digits(p.created_at as nat),
        last_accessed: decimal_digits(p.last_accessed as nat),
    }
}

/// The rows of the projects of `version`, in the order of its log.
pub open spec fn rows_of(version: Seq<char>, projects: Seq<ProjectView>) -> Seq<TableRowView> {
    projects.map_values(|p: ProjectView| row_of(version, p))
}

/// The row of headings.
pub open spec fn header_view() -> TableRowView {
    TableRowView {
        version: VERSION_HEADING@,
        project: PROJECT_HEADING@,
        created_at: CREATED_HEADING@,
        last_accessed: ACCESSED_HEADING@,
    }
}

/// Gives the row of headings.
pub fn table_header() -> (header: TableRow)
    ensures
        header@ == header_view(),
{
    TableRow {
        version: String::from_str(VERSION_HEADING),
        project: String::from_str(PROJECT_HEADING),
        created_at: String::from_str(CREATED_HEADING),
        last_accessed: String::from_str(ACCESSED_HEADING),
    }
}

/// Writes the line that is printed for `version` before the table is drawn.
pub fn version_listed_line(version: &str) -> (line: String)
    ensures
        line@ == LISTED_PART@ + version@,
{
    let mut line = String::from_str(LISTED_PART);
    line.append(version);
    line
}

/// Adds to `rows` one row for each project that `log` holds, in its order,
/// each under the version `version` that the log was loaded for.
pub fn append_rows(rows: &mut Vec<TableRow>, version: &str, log: &ProjectLog)
    ensures
        row_views(final(rows)@) == row_views(old(rows)@) + rows_of(version@, log@.projects),
{
    let ghost all = rows_of(version@, log@.projects);
    let mut i: usize = 0;
    while i < log.projects.len()
        invariant
            i <= log.projects.len(),
            all == rows_of(version@, log@.projects),
            row_views(rows@) =~= row_views(old(rows)@) + all.take(i as int),
        decreases log.projects.len() - i,
    {
        let project = &log.projects[i];
        let ghost before = rows@;
        rows.push(
            TableRow {
                version: String::from_str(version),
                project: project.name.clone(),
                created_at: decimal(project.created_at),
                last_accessed: decimal(project.last_accessed),
            },
        );
        proof {
            assert(row_views(rows@) =~= row_views(before).push(all[i as int]));
            assert(all.take(i as int + 1) =~= all.take(i as int).push(all[i as int]));
        }
        i += 1;
    }
    assert(all.take(i as int) =~= all);
}

/// The versions and what their logs hold, as the contracts see a list of
/// loaded logs.
pub open spec fn loaded_views(loaded: Seq<(String, ProjectLog)>) -> Seq<
    (Seq<char>, Seq<ProjectView>),
> {
    loaded.map_values(|entry: (String, ProjectLog)| (entry.0@, entry.1@.projects))
}

/// The rows of the whole table: those of the first version, then those of
/// the second, and so on.
pub open spec fn all_rows(loaded: Seq<(Seq<char>, Seq<ProjectView>)>) -> Seq<TableRowView>
    decreases loaded.len(),
{
    if loaded.len() == 0 {
        Seq::empty()
    } else {
        all_rows(loaded.drop_last()) + rows_of(loaded.last().0, loaded.last().1)
    }
}

/// Builds the rows of the table from the versions of a scan, each with the
/// log that was loaded for it: one row for each pair of a version and one of
/// its projects, the versions in their order and the projects in theirs.
pub fn table_rows(loaded: &Vec<(String, ProjectLog)>) -> (rows: Vec<TableRow>)
    ensures
        row_views(rows@) == all_rows(loaded_views(loaded@)),
{
    let mut rows: Vec<TableRow> = Vec::new();
    let mut i: usize = 0;
    assert(row_views(rows@) =~= all_rows(loaded_views(loaded@).take(0)));
    while i < loaded.len()
        invariant
            i <= loaded.len(),
            row_views(rows@) == all_rows(loaded_views(loaded@).take(i as int)),
        decreases loaded.len() - i,
    {
        append_rows(&mut rows, loaded[i].0.as_str(), &loaded[i].1);
        proof {
            let upto = loaded_views(loaded@).take(i as int + 1);
            assert(upto.drop_last() =~= loaded_views(loaded@).take(i as int));
            assert(upto.last() == (loaded@[i as int].0@, loaded@[i as int].1@.projects));
        }
        i += 1;
    }
    assert(loaded_views(loaded@).take(i as int) =~= loaded_views(loaded@));
    rows
}

/// The table has as many rows as the logs hold projects: one more log adds
/// one row for each of its projects, and no log gives no row.
pub proof fn rows_count_projects(loaded: Seq<(Seq<char>, Seq<ProjectView>)>)
    ensures
        loaded.len() == 0 ==> all_rows(loaded).len() == 0,
        loaded.len() > 0 ==> all_rows(loaded).len() == all_rows(loaded.drop_last()).len()
            + loaded.last().1.len(),
{
}

/// The two states of the view that shows the table.
#[derive(Debug, Clone, Copy, PartialEq, Eq, Structural)]
pub enum RendererState {
    /// The table is on the screen and input is awaited.
    Running,
    /// The view has ended and the terminal is to be restored.
    Terminated,
}

/// What the terminal handed in.
#[derive(Debug, Clone, Copy, PartialEq, Eq, Structural)]
pub enum InputEvent {
    /// A key that stands for a character was pressed.
    Character(char),
    /// Another key was pressed.
    OtherKey,
    /// Anything else: the mouse, a new size.
    Other,
}

/// The state after `event`: only the quit key ends a running view, and a
/// view that has ended stays so.
pub open spec fn state_after(state: RendererState, event: InputEvent) -> RendererState {
    if state is Terminated || event == InputEvent::Character(QUIT_KEY) {
        RendererState::Terminated
    } else {
        RendererState::Running
    }
}

/// What is to be done with the terminal in a state.
#[derive(Debug, Clone, Copy, PartialEq, Eq, Structural)]
pub enum RendererAction {
    /// Draw the whole table again, then wait for one input event.
    Redraw,
    /// Leave the view: give the terminal back as it was.
    Restore,
}

/// Says what is to be done in `state`: a running view is drawn again, one
/// that has ended is left.
pub fn action_for(state: RendererState) -> (action: RendererAction)
    ensures
        action is Redraw <==> state is Running,
        action is Restore <==> state is Terminated,
{
    match state {
        RendererState::Running => RendererAction::Redraw,
        RendererState::Terminated => RendererAction::Restore,
    }
}

/// A running view ends on the quit key and on nothing else, and a view that
/// has ended never runs again.
pub proof fn only_quit_key_ends_view(event: InputEvent)
    ensures
        state_after(RendererState::Running, event) is Terminated <==> event
            == InputEvent::Character(QUIT_KEY),
        state_after(RendererState::Terminated, event) is Terminated,
{
}

/// Decides the state of the view after an input event.
pub fn next_state(state: RendererState, event: InputEvent) -> (next: RendererState)
    ensures
        next == state_after(state, event),
{
    match state {
        RendererState::Terminated => RendererState::Terminated,
        RendererState::Running => match event {
            InputEvent::Character(c) => if c == QUIT_KEY {
                RendererState::Terminated
            } else {
                RendererState::Running
            },
            _ => RendererState::Running,
        },
    }
}

} // verus!
