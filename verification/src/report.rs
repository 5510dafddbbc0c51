//! What the commands say: the lines that each of them prints.

use vstd::prelude::*;
use vstd::string::*;
use crate::store::{AddOutcome, Project, ProjectLog, ProjectView};
use crate::text::{decimal, decimal_digits, texts};

verus! {

/// What is said where no version was found.
pub const NO_VERSIONS_MESSAGE: &'static str = "No Python versions found.";

/// What stands above the versions that were found.
pub const VERSIONS_HEADING: &'static str = "Python versions found:";

/// What is said, before the version, where a log holds no project.
pub const NO_PROJECTS_MESSAGE: &'static str = "No projects found for Python version ";

/// What stands above the projects of a version, before the version.
pub const PROJECTS_HEADING: &'static str = "Projects worked on by Python version ";

/// What ends the heading above the projects of a version.
pub const HEADING_END: &'static str = ":";

/// The parts of a project's line around its name and its two times.
pub const CREATED_PART: &'static str = " (created at ";

pub const ACCESSED_PART: &'static str = ", last accessed at ";

pub const LINE_END: &'static str = ")";

/// The parts of the messages on an added project.
pub const PROJECT_PART: &'static str = "Project '";

pub const EXISTS_PART: &'static str = "' already exists for Python version ";

pub const ADDED_PART: &'static str = "' added to Python version ";

/// The lines that report a scan: the message that nothing was found, or the
/// heading and then the versions in the order of the scan.
pub open spec fn versions_report(versions: Seq<Seq<char>>) -> Seq<Seq<char>> {
    if versions.len() == 0 {
        seq![NO_VERSIONS_MESSAGE@]
    } else {
        seq![VERSIONS_HEADING@] + versions
    }
}

/// The line of one project: its name and both times in decimal.
pub open spec fn project_line(p: ProjectView) -> Seq<char> {
    p.name + CREATED_PART@ + decimal_digits(p.created_at as nat) + ACCESSED_PART@ + decimal_digits(
        p.last_accessed as nat,
    ) + LINE_END@
}

/// The lines that report the projects of `version`: the message that there
/// are none, or the heading and then one line for each project in the order
/// of the log.
pub open spec fn projects_report(version: Seq<char>, projects: Seq<ProjectView>) -> Seq<
    Seq<char>,
> {
    if projects.len() == 0 {
        seq![NO_PROJECTS_MESSAGE@ + version]
    } else {
        seq![PROJECTS_HEADING@ + version + HEADING_END@] + projects.map_values(
            |p: ProjectView| project_line(p),
        )
    }
}

/// The message on an attempt to add `name` to the log of `version`.
pub open spec fn add_message(outcome: AddOutcome, name: Seq<char>, version: Seq<char>) -> Seq<
    char,
> {
    match outcome {
        AddOutcome::Added => PROJECT_PART@ + name + ADDED_PART@ + version,
        AddOutcome::AlreadyExists => PROJECT_PART@ + name + EXISTS_PART@ + version,
    }
}

/// Reports the versions that a scan found.
pub fn list_python_versions(versions: &Vec<String>) -> (lines: Vec<String>)
    ensures
        texts(lines@) == versions_report(texts(versions@)),
{
    let mut lines: Vec<String> = Vec::new();
    if versions.len() == 0 {
        lines.push(String::from_str(NO_VERSIONS_MESSAGE));
        assert(texts(lines@) =~= versions_report(texts(versions@)));
        return lines;
    }
    lines.push(String::from_str(VERSIONS_HEADING));
    let mut i: usize = 0;
    while i < versions.len()
        invariant
            i <= versions.len(),
            texts(lines@) =~= seq![VERSIONS_HEADING@] + texts(versions@).take(i as int),
        decreases versions.len() - i,
    {
        let ghost before = lines@;
        lines.push(versions[i].clone());
        proof {
            let all = texts(versions@);
            assert(texts(lines@) =~= texts(before).push(all[i as int]));
            assert(all.take(i as int + 1) =~= all.take(i as int).push(all[i as int]));
        }
        i += 1;
    }
    assert(texts(versions@).take(i as int) =~= texts(versions@));
    lines
}

/// Writes the line of one project.
pub fn format_project(project: &Project) -> (line: String)
    ensures
        line@ == project_line(project@),
{
    let mut line = project.name.clone();
    line.append(CREATED_PART);
    line.append(decimal(project.created_at).as_str());
    line.append(ACCESSED_PART);
    line.append(decimal(project.last_accessed).as_str());
    line.append(LINE_END);
    line
}

/// Reports the projects recorded for `version`, as its log holds them.
pub fn list_python_projects(version: &str, log: &ProjectLog) -> (lines: Vec<String>)
    ensures
        texts(lines@) == projects_report(version@, log@.projects),
{
    let mut lines: Vec<String> = Vec::new();
    if log.projects.len() == 0 {
        let mut line = String::from_str(NO_PROJECTS_MESSAGE);
        line.append(version);
        lines.push(line);
        assert(texts(lines@) =~= projects_report(version@, log@.projects));
        return lines;
    }
    let mut heading = String::from_str(PROJECTS_HEADING);
    heading.append(version);
    heading.append(HEADING_END);
    lines.push(heading);
    let ghost all = log@.projects.map_values(|p: ProjectView| project_line(p));
    let mut i: usize = 0;
    while i < log.projects.len()
        invariant
            i <= log.projects.len(),
            all == log@.projects.map_values(|p: ProjectView| project_line(p)),
            texts(lines@) =~= seq![PROJECTS_HEADING@ + version@ + HEADING_END@] + all.take(
                i as int,
            ),
        decreases log.projects.len() - i,
    {
        let ghost before = lines@;
        lines.push(format_project(&log.projects[i]));
        proof {
            assert(texts(lines@) =~= texts(before).push(all[i as int]));
            assert(all.take(i as int + 1) =~= all.take(i as int).push(all[i as int]));
        }
        i += 1;
    }
    assert(all.take(i as int) =~= all);
    lines
}

/// Writes the message on an attempt to add the project `name` to the log of
/// `version`.
pub fn add_project_message(outcome: AddOutcome, name: &str, version: &str) -> (message: String)
    ensures
        message@ == add_message(outcome, name@, version@),
{
    let mut message = String::from_str(PROJECT_PART);
    message.append(name);
    match outcome {
        AddOutcome::Added => message.append(ADDED_PART),
        AddOutcome::AlreadyExists => message.append(EXISTS_PART),
    }
    message.append(version);
    message
}

} // verus!
