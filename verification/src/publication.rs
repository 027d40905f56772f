//! The decisions behind publishing a complete file: whether a destination may be prepared, which
//! paths are siblings, the order of the publishing stages, and what a failed stage means.
//!
//! Writing the temporary file, persisting it and synchronizing directories is the caller's I/O;
//! each step reports back whether it succeeded, and [`next_step`] says what comes next.

use vstd::prelude::*;

verus! {

/// What to do with a destination that already exists at publication time.
#[derive(Clone, Copy, Debug, Eq, PartialEq, Structural)]
pub enum Policy {
    /// Refuse to replace any existing directory entry, including a dangling symlink.
    CreateNew,
    /// Atomically replace the destination entry, leaving any link target untouched.
    Replace,
}

/// What looking up the destination entry, without following links, found.
#[derive(Clone, Copy, Debug, Eq, PartialEq, Structural)]
pub enum Lookup {
    /// Some directory entry is there.
    Present,
    /// Nothing is there.
    Missing,
    /// The lookup failed for another reason.
    Failed,
}

/// Why a destination cannot be prepared.
#[derive(Clone, Copy, Debug, Eq, PartialEq, Structural)]
pub enum DestinationError {
    /// The destination exists and the policy refuses to replace it.
    AlreadyExists,
    /// The destination could not be looked up.
    LookupFailed,
}

/// Whether preparing a destination under `policy` looks the destination up first.
pub open spec fn looks_up(policy: Policy) -> bool {
    policy == Policy::CreateNew
}

/// Whether preparing a destination under `policy` looks the destination up first: only a
/// policy that refuses to replace an entry needs to know whether one is there.
pub fn looks_up_destination(policy: Policy) -> (looks: bool)
    ensures
        looks == looks_up(policy),
{
    policy == Policy::CreateNew
}

/// Whether a destination may be prepared under `policy`, given what looking it up found (when
/// the policy looks it up).
///
/// `CreateNew` rejects an occupied destination early as a convenience; it does not reserve it.
pub fn check_destination(policy: Policy, lookup: Option<Lookup>) -> (checked: Result<(), DestinationError>)
    requires
        lookup is Some <==> looks_up(policy),
    ensures
        checked == match lookup {
            Some(Lookup::Present) => Err(DestinationError::AlreadyExists),
            Some(Lookup::Failed) => Err(DestinationError::LookupFailed),
            _ => Ok::<(), DestinationError>(()),
        },
{
    match lookup {
        Some(Lookup::Present) => Err(DestinationError::AlreadyExists),
        Some(Lookup::Failed) => Err(DestinationError::LookupFailed),
        _ => Ok(()),
    }
}

/// The directory that a path names its entry in, without the final component
/// (`std::path::Path::parent`), or `None` for a root or an empty path.
pub uninterp spec fn path_parent(path: Seq<char>) -> Option<Seq<char>>;

/// Whether two paths have the same components (`==` on `std::path::Path`).
pub uninterp spec fn same_path(first: Seq<char>, second: Seq<char>) -> bool;

/// `std::path::Path::parent` of `path`.
#[verifier::external_body]
fn path_parent_of(path: &str) -> (parent: Option<String>)
    ensures
        parent matches Some(p) ==> path_parent(path@) == Some(p@),
        parent is None ==> path_parent(path@) is None,
{
    std::path::Path::new(path).parent().map(|parent| parent.to_string_lossy().into_owned())
}

/// `==` on the `std::path::Path`s of two strings.
#[verifier::external_body]
fn paths_equal(first: &str, second: &str) -> (equal: bool)
    ensures
        equal == same_path(first@, second@),
{
    std::path::Path::new(first) == std::path::Path::new(second)
}

/// The directory a path is published in: its parent, or the current directory `.` for a path
/// without one.
pub open spec fn directory_of(path: Seq<char>) -> Seq<char> {
    match path_parent(path) {
        Some(parent) => parent,
        None => "."@,
    }
}

/// The directory a path is published in: its parent, or the current directory for a path
/// without one.
pub fn parent(path: &str) -> (directory: String)
    ensures
        directory@ == directory_of(path@),
{
    match path_parent_of(path) {
        Some(parent) => parent,
        None => {
            let current = String::from_str(".");
            proof {
                reveal_strlit(".");
            }
            current
        },
    }
}

/// Whether `other` is a distinct sibling of `destination`: another path in the same directory.
pub open spec fn distinct_sibling(destination: Seq<char>, other: Seq<char>) -> bool {
    !same_path(destination, other) && same_path(directory_of(destination), directory_of(other))
}

/// Whether `other` is a distinct sibling of `destination`, as a named partial file or an adopted
/// temporary file must be: a partial path outside the destination directory, or the
/// destination itself, is refused.
pub fn is_distinct_sibling(destination: &str, other: &str) -> (sibling: bool)
    ensures
        sibling == distinct_sibling(destination@, other@),
{
    if paths_equal(destination, other) {
        return false;
    }
    let first = parent(destination);
    let second = parent(other);
    paths_equal(first.as_str(), second.as_str())
}

/// A stage of publishing a completed file, in the order they run.
#[derive(Clone, Copy, Debug, Eq, PartialEq, Structural)]
pub enum Stage {
    /// Synchronize the completed temporary file.
    FileSync,
    /// Persist the file under the destination name, under the policy.
    Persist,
    /// Synchronize the destination's directory.
    DirectorySync,
}

/// Whether the completed output is visible once `stage` has been reached: only a failure to
/// synchronize the directory comes after the destination was changed.
pub open spec fn published_by(stage: Stage) -> bool {
    stage == Stage::DirectorySync
}

impl Stage {
    /// Whether a failure at this stage happened after the output was made visible.
    pub fn is_published(self) -> (published: bool)
        ensures
            published == published_by(self),
    {
        self == Stage::DirectorySync
    }

    /// The description of a failure at this stage, for the destination `path`.
    pub fn message(self, path: &str) -> (text: String)
        ensures
            text@ == match self {
                Stage::FileSync => "cannot sync pending output for "@ + path@,
                Stage::Persist => "cannot publish "@ + path@,
                Stage::DirectorySync => "published "@ + path@ + ", but could not sync its directory"@,
            },
    {
        match self {
            Stage::FileSync => {
                let mut text = String::from_str("cannot sync pending output for ");
                text.append(path);
                text
            },
            Stage::Persist => {
                let mut text = String::from_str("cannot publish ");
                text.append(path);
                text
            },
            Stage::DirectorySync => {
                let mut text = String::from_str("published ");
                text.append(path);
                text.append(", but could not sync its directory");
                text
            },
        }
    }
}

/// What publishing does next.
#[derive(Clone, Copy, Debug, Eq, PartialEq, Structural)]
pub enum Step {
    /// Run a stage.
    Run(Stage),
    /// The file is published and its directory synchronized.
    Done,
}

/// The stage that follows a successful `stage`.
pub open spec fn following(stage: Stage) -> Step {
    match stage {
        Stage::FileSync => Step::Run(Stage::Persist),
        Stage::Persist => Step::Run(Stage::DirectorySync),
        Stage::DirectorySync => Step::Done,
    }
}

/// The first step of publishing.
pub fn first_step() -> (step: Step)
    ensures
        step == Step::Run(Stage::FileSync),
{
    Step::Run(Stage::FileSync)
}

/// What follows running `stage`: the next step when it succeeded, and the failed stage
/// otherwise, which ends publishing.
pub fn next_step(stage: Stage, succeeded: bool) -> (next: Result<Step, Stage>)
    ensures
        succeeded ==> next == Ok::<Step, Stage>(following(stage)),
        !succeeded ==> next == Err::<Step, Stage>(stage),
{
    if !succeeded {
        return Err(stage);
    }
    match stage {
        Stage::FileSync => Ok(Step::Run(Stage::Persist)),
        Stage::Persist => Ok(Step::Run(Stage::DirectorySync)),
        Stage::DirectorySync => Ok(Step::Done),
    }
}

/// Publishing runs the stages in order and ends after the directory is synchronized: from the
/// first step, three successful stages lead to the end, and a failure before the directory
/// stage never leaves the output published.
pub proof fn lemma_stages_run_in_order()
    ensures
        following(Stage::FileSync) == Step::Run(Stage::Persist),
        following(Stage::Persist) == Step::Run(Stage::DirectorySync),
        following(Stage::DirectorySync) == Step::Done,
        !published_by(Stage::FileSync) && !published_by(Stage::Persist),
        published_by(Stage::DirectorySync),
{
}

} // verus!
