//! The project log of a version: what it holds, where it is kept, and how a
//! project is added to it.

use vstd::prelude::*;
use vstd::string::*;

verus! {

/// The directory that holds the logs, one file for each version.
pub const LOG_DIR: &'static str = "/var/log/pymanager";

/// What stands between the directory and the file's name.
pub const PATH_SEPARATOR: &'static str = "/";

/// The ending of a log file's name.
pub const LOG_SUFFIX: &'static str = ".json";

/// A project, with the seconds since the epoch at which it was recorded and
/// at which it was last touched.
#[derive(Debug, Clone, PartialEq, Eq)]
pub struct Project {
    pub name: String,
    pub created_at: u64,
    pub last_accessed: u64,
}

/// What a project is to the contracts.
pub struct ProjectView {
    pub name: Seq<char>,
    pub created_at: u64,
    pub last_accessed: u64,
}

impl View for Project {
    type V = ProjectView;

    open spec fn view(&self) -> ProjectView {
        ProjectView {
            name: self.name@,
            created_at: self.created_at,
            last_accessed: self.last_accessed,
        }
    }
}

/// The projects recorded for one version, in the order in which they were
/// added.
#[derive(Debug, Clone, PartialEq, Eq)]
pub struct ProjectLog {
    pub version: String,
    pub projects: Vec<Project>,
}

/// What a log is to the contracts.
pub struct ProjectLogView {
    pub version: Seq<char>,
    pub projects: Seq<ProjectView>,
}

/// The views of a sequence of projects, in order.
pub open spec fn project_views(projects: Seq<Project>) -> Seq<ProjectView> {
    projects.map_values(|p: Project| p@)
}

impl View for ProjectLog {
    type V = ProjectLogView;

    open spec fn view(&self) -> ProjectLogView {
        ProjectLogView { version: self.version@, projects: project_views(self.projects@) }
    }
}

/// Whether a project of that name is among `projects`.
pub open spec fn has_project(projects: Seq<ProjectView>, name: Seq<char>) -> bool {
    exists|i: int| 0 <= i < projects.len() && (#[trigger] projects[i]).name == name
}

/// Whether no two of `projects` share a name.
pub open spec fn names_unique(projects: Seq<ProjectView>) -> bool {
    forall|i: int, j: int|
        0 <= i < j < projects.len() ==> (#[trigger] projects[i]).name != (
        #[trigger] projects[j]).name
}

/// A project as it is when first recorded: both times are the same.
pub open spec fn new_project(name: Seq<char>, timestamp: u64) -> ProjectView {
    ProjectView { name, created_at: timestamp, last_accessed: timestamp }
}

/// The log after `name` was added at `timestamp`: unchanged where it holds a
/// project of that name already, else one project longer.
pub open spec fn with_project(log: ProjectLogView, name: Seq<char>, timestamp: u64)
    -> ProjectLogView {
    if has_project(log.projects, name) {
        log
    } else {
        ProjectLogView {
            version: log.version,
            projects: log.projects.push(new_project(name, timestamp)),
        }
    }
}

/// The path of the file that holds the log of `version`.
pub open spec fn log_path_of(version: Seq<char>) -> Seq<char> {
    LOG_DIR@ + PATH_SEPARATOR@ + version + LOG_SUFFIX@
}

/// Gives the path of the file that holds the log of `version`.
pub fn log_path(version: &str) -> (path: String)
    ensures
        path@ == log_path_of(version@),
{
    let mut path = String::from_str(LOG_DIR);
    path.append(PATH_SEPARATOR);
    path.append(version);
    path.append(LOG_SUFFIX);
    path
}

/// Two versions are never kept in the same file: equal paths mean equal
/// versions, so a log that was stored under a version is the one that is
/// found under it.
pub proof fn log_paths_differ(first: Seq<char>, second: Seq<char>)
    requires
        log_path_of(first) == log_path_of(second),
    ensures
        first == second,
{
    let head = LOG_DIR@ + PATH_SEPARATOR@;
    let first_path = log_path_of(first);
    let second_path = log_path_of(second);
    assert(first_path.len() == head.len() + first.len() + LOG_SUFFIX@.len());
    assert(second_path.len() == head.len() + second.len() + LOG_SUFFIX@.len());
    assert forall|i: int| 0 <= i < first.len() implies first[i] == second[i] by {
        assert(first_path[head.len() + i] == first[i]);
        assert(second_path[head.len() + i] == second[i]);
    }
    assert(first =~= second);
}

/// What adding a project came to.
#[derive(Debug, Clone, Copy, PartialEq, Eq)]
pub enum AddOutcome {
    /// The project was appended; the log is to be stored.
    Added,
    /// A project of that name was there; nothing changed and nothing is to
    /// be stored.
    AlreadyExists,
}

impl ProjectLog {
    /// The log of a version for which nothing was recorded yet.
    pub fn new(version: &str) -> (log: ProjectLog)
        ensures
            log@.version == version@,
            log@.projects == Seq::<ProjectView>::empty(),
    {
        let log = ProjectLog { version: String::from_str(version), projects: Vec::new() };
        assert(log@.projects =~= Seq::<ProjectView>::empty());
        log
    }

    /// Tells whether the log holds a project of exactly that name.
    pub fn has_project(&self, name: &str) -> (r: bool)
        ensures
            r == has_project(self@.projects, name@),
    {
        let wanted = String::from_str(name);
        let mut i: usize = 0;
        while i < self.projects.len()
            invariant
                i <= self.projects.len(),
                wanted@ == name@,
                forall|j: int| 0 <= j < i ==> (#[trigger] self@.projects[j]).name != name@,
            decreases self.projects.len() - i,
        {
            if self.projects[i].name == wanted {
                assert(self@.projects[i as int].name == name@);
                return true;
            }
            i += 1;
        }
        false
    }
}

/// Decides what the log of `version` is, given what was found in its file:
/// the stored log as it is, or an empty log where there was no file.
pub fn load_project_log(version: &str, stored: Option<ProjectLog>) -> (log: ProjectLog)
    ensures
        match stored {
            Some(found) => log == found,
            None => log@.version == version@ && log@.projects == Seq::<ProjectView>::empty(),
        },
{
    match stored {
        Some(found) => found,
        None => ProjectLog::new(version),
    }
}

/// Records the project `name` in the log at the time `timestamp`, unless a
/// project of that name is there already; then the log stays as it is, the
/// times of the project that is there included.
pub fn add_project(log: &mut ProjectLog, name: &str, timestamp: u64) -> (outcome: AddOutcome)
    ensures
        final(log)@ == with_project(old(log)@, name@, timestamp),
        outcome is AlreadyExists <==> has_project(old(log)@.projects, name@),
        outcome is AlreadyExists ==> *final(log) == *old(log),
        outcome is Added ==> final(log)@.projects.len() == old(log)@.projects.len() + 1
            && final(log)@.projects.last() == new_project(name@, timestamp),
        names_unique(old(log)@.projects) ==> names_unique(final(log)@.projects),
{
    proof {
        if names_unique(log@.projects) {
            adding_keeps_names_unique(log@, name@, timestamp);
        }
    }
    if log.has_project(name) {
        AddOutcome::AlreadyExists
    } else {
        log.projects.push(
            Project {
                name: String::from_str(name),
                created_at: timestamp,
                last_accessed: timestamp,
            },
        );
        assert(log@.projects =~= old(log)@.projects.push(new_project(name@, timestamp)));
        AddOutcome::Added
    }
}

/// Adding a project whose name is new makes the log longer by exactly one
/// project, which stands last, has that name and was created and last
/// touched at the same time; what was there stays.
pub proof fn adding_new_project_grows_log(log: ProjectLogView, name: Seq<char>, timestamp: u64)
    requires
        !has_project(log.projects, name),
    ensures
        with_project(log, name, timestamp).projects.len() == log.projects.len() + 1,
        with_project(log, name, timestamp).projects.drop_last() == log.projects,
        with_project(log, name, timestamp).projects.last().name == name,
        with_project(log, name, timestamp).projects.last().created_at == timestamp,
        with_project(log, name, timestamp).projects.last().last_accessed == timestamp,
        with_project(log, name, timestamp).version == log.version,
        has_project(with_project(log, name, timestamp).projects, name),
{
    let after = with_project(log, name, timestamp).projects;
    assert(after.drop_last() =~= log.projects);
    assert(after[log.projects.len() as int].name == name);
}

/// Adding the same name a second time changes nothing, whenever it is done:
/// the log is the one that the first addition left.
pub proof fn adding_twice_changes_nothing(
    log: ProjectLogView,
    name: Seq<char>,
    first: u64,
    second: u64,
)
    ensures
        with_project(with_project(log, name, first), name, second) == with_project(
            log,
            name,
            first,
        ),
        log.projects.len() == 0 ==> with_project(
            with_project(log, name, first),
            name,
            second,
        ).projects.len() == 1,
{
    if !has_project(log.projects, name) {
        adding_new_project_grows_log(log, name, first);
    }
}

/// A log in which no name occurs twice stays so when a project is added.
pub proof fn adding_keeps_names_unique(log: ProjectLogView, name: Seq<char>, timestamp: u64)
    requires
        names_unique(log.projects),
    ensures
        names_unique(with_project(log, name, timestamp).projects),
{
    if !has_project(log.projects, name) {
        let after = with_project(log, name, timestamp).projects;
        assert forall|i: int, j: int| 0 <= i < j < after.len() implies (#[trigger] after[i]).name
            != (#[trigger] after[j]).name by {
            if j < log.projects.len() {
                assert(after[i] == log.projects[i]);
                assert(after[j] == log.projects[j]);
            } else {
                assert(after[i] == log.projects[i]);
            }
        }
    }
}

} // verus!
