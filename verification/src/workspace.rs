//! Checks of the Cargo workspace conventions used by Archivindex projects.
//!
//! The policy is checked against a workspace's manifests and tool configuration, modelled as
//! [`document::TomlItem`]s; reading the files and running `cargo metadata` is the command's job.

use vstd::prelude::*;

pub mod document;
pub mod exemption;
pub mod check;
mod toml_types;

use crate::cli::{plural, plural_spec};

verus! {

/// One policy violation in a project file.
#[derive(Clone, Debug, Eq, PartialEq)]
pub struct Violation {
    /// File containing the violation.
    pub path: String,
    /// Human-readable description of the required change.
    pub message: String,
}

impl Violation {
    /// The violation as it is displayed: `path: message`.
    pub fn to_string(&self) -> (text: String)
        ensures
            text@ == self.path@ + ": "@ + self.message@,
    {
        let mut text = self.path.clone();
        text.append(": ");
        text.append(self.message.as_str());
        text
    }
}

/// A package that belongs to the workspace being checked.
#[derive(Clone, Debug)]
pub struct Member {
    /// The package name, which is how an exemption refers to it.
    pub name: String,
    /// The package manifest.
    pub manifest_path: String,
    /// Whether the package can be published to a registry.
    ///
    /// Metadata that only matters on crates.io and docs.rs is required of these packages alone.
    pub publishable: bool,
}

/// A Cargo workspace and the packages it contains.
#[derive(Clone, Debug)]
pub struct Project {
    /// The workspace root directory.
    pub root: String,
    /// The root manifest, `Cargo.toml` in the root directory.
    pub root_manifest: String,
    /// The member packages, ordered by manifest path.
    pub members: Vec<Member>,
}

/// The file and message of each violation.
pub open spec fn violation_views(violations: Seq<Violation>) -> Seq<(Seq<char>, Seq<char>)> {
    violations.map_values(|violation: Violation| (violation.path@, violation.message@))
}

/// Record a violation of `path`.
pub fn push(violations: &mut Vec<Violation>, path: &str, message: String)
    ensures
        violation_views(final(violations)@) == violation_views(old(violations)@).push((path@, message@)),
{
    violations.push(Violation { path: path.to_owned(), message });
    assert(violation_views(violations@) =~= violation_views(old(violations)@).push((path@, message@)));
}

/// A package that the workspace metadata lists.
#[derive(Clone, Debug)]
pub struct Package {
    /// The package name.
    pub name: String,
    /// The package manifest.
    pub manifest_path: String,
    /// Whether the metadata lists the package among the workspace members.
    pub workspace_member: bool,
    /// The registries the package may be published to, or `None` for any registry.
    pub publish: Option<Vec<String>>,
}

/// Whether a package that may be published to `publish` can be published to a registry: Cargo
/// represents `publish = false` as an empty registry list.
pub open spec fn can_publish(publish: Option<Vec<String>>) -> bool {
    match publish {
        Some(registries) => registries@.len() > 0,
        None => true,
    }
}

/// The name, manifest and publishability of a member.
pub open spec fn member_view(member: Member) -> (Seq<char>, Seq<char>, bool) {
    (member.name@, member.manifest_path@, member.publishable)
}

/// The name, manifest and publishability of each member.
pub open spec fn member_views(members: Seq<Member>) -> Seq<(Seq<char>, Seq<char>, bool)> {
    members.map_values(|member: Member| member_view(member))
}

/// The members among `packages`, in the order the metadata lists them.
pub open spec fn selected(packages: Seq<Package>) -> Seq<(Seq<char>, Seq<char>, bool)>
    decreases packages.len(),
{
    if packages.len() == 0 {
        Seq::empty()
    } else {
        let package = packages.last();
        let rest = selected(packages.drop_last());
        if package.workspace_member {
            rest.push((package.name@, package.manifest_path@, can_publish(package.publish)))
        } else {
            rest
        }
    }
}

/// Whether one path sorts before another (`<` on `std::path::Path`, which compares components).
pub uninterp spec fn path_precedes(first: Seq<char>, second: Seq<char>) -> bool;

/// A path with a name joined to it (`std::path::Path::join`).
pub uninterp spec fn joined_path(base: Seq<char>, name: Seq<char>) -> Seq<char>;

/// `<` on the `std::path::Path`s of two strings. The order is a total order, so a path that
/// sorts before another does not also sort after it.
#[verifier::external_body]
fn precedes(first: &str, second: &str) -> (before: bool)
    ensures
        before == path_precedes(first@, second@),
        before ==> !path_precedes(second@, first@),
{
    std::path::Path::new(first) < std::path::Path::new(second)
}

/// `std::path::Path::join` of a name to a base path.
#[verifier::external_body]
pub(crate) fn join(base: &str, name: &str) -> (path: String)
    ensures
        path@ == joined_path(base@, name@),
{
    std::path::Path::new(base).join(name).to_string_lossy().into_owned()
}

/// Whether each member's manifest path does not sort before the one listed before it.
pub open spec fn ordered_by_manifest(members: Seq<Member>) -> bool {
    forall|i: int| 0 <= i < members.len() - 1 ==> !path_precedes(
        #[trigger] members[i + 1].manifest_path@,
        members[i].manifest_path@,
    )
}

proof fn lemma_insert_to_multiset<A>(items: Seq<A>, k: int, item: A)
    requires
        0 <= k <= items.len(),
    ensures
        items.insert(k, item).to_multiset() =~= items.to_multiset().insert(item),
{
    broadcast use vstd::seq_lib::group_to_multiset_ensures, vstd::multiset::group_multiset_axioms;
    let inserted = items.insert(k, item);
    assert(inserted.remove(k) =~= items);
    assert(inserted[k] == item);
    assert(inserted.contains(item));
}

impl Project {
    /// The project whose workspace root is `root`, from the packages that its metadata lists:
    /// the workspace members, ordered by manifest path, each publishable unless it may be
    /// published to no registry.
    pub fn from_metadata(root: String, packages: Vec<Package>) -> (project: Self)
        ensures
            project.root@ == root@,
            project.root_manifest@ == joined_path(root@, "Cargo.toml"@),
            member_views(project.members@).to_multiset() == selected(packages@).to_multiset(),
            ordered_by_manifest(project.members@),
    {
        let mut members: Vec<Member> = Vec::new();
        let mut i: usize = 0;
        assert(packages@.take(0) =~= Seq::<Package>::empty());
        assert(member_views(members@) =~= Seq::empty());
        while i < packages.len()
            invariant
                i <= packages@.len(),
                member_views(members@).to_multiset() == selected(packages@.take(i as int)).to_multiset(),
                ordered_by_manifest(members@),
            decreases packages@.len() - i,
        {
            let package = &packages[i];
            let ghost done = packages@.take(i as int);
            assert(packages@.take(i + 1).drop_last() =~= done);
            assert(packages@.take(i + 1).last() == packages@[i as int]);
            if package.workspace_member {
                let publishable = match &package.publish {
                    Some(registries) => registries.len() > 0,
                    None => true,
                };
                let member = Member {
                    name: package.name.clone(),
                    manifest_path: package.manifest_path.clone(),
                    publishable,
                };
                let mut k = members.len();
                loop
                    invariant
                        k <= members@.len(),
                        ordered_by_manifest(members@),
                        k < members@.len() ==> !path_precedes(members@[k as int].manifest_path@, member.manifest_path@),
                    ensures
                        k <= members@.len(),
                        k < members@.len() ==> !path_precedes(members@[k as int].manifest_path@, member.manifest_path@),
                        k > 0 ==> !path_precedes(member.manifest_path@, members@[k - 1].manifest_path@),
                    decreases k,
                {
                    if k == 0 {
                        break;
                    }
                    if !precedes(member.manifest_path.as_str(), members[k - 1].manifest_path.as_str()) {
                        break;
                    }
                    k = k - 1;
                }
                let ghost before = members@;
                proof {
                    lemma_insert_to_multiset(member_views(before), k as int, member_view(member));
                    assert(member_views(before.insert(k as int, member)) =~= member_views(before).insert(
                        k as int,
                        member_view(member),
                    ));
                }
                members.insert(k, member);
                proof {
                    broadcast use vstd::seq_lib::group_to_multiset_ensures;
                    let view = (package.name@, package.manifest_path@, can_publish(package.publish));
                    assert(member_view(member) == view);
                    assert(selected(packages@.take(i + 1)) == selected(done).push(view));
                    assert(ordered_by_manifest(members@)) by {
                        assert forall|j: int| 0 <= j < members@.len() - 1 implies !path_precedes(
                            #[trigger] members@[j + 1].manifest_path@,
                            members@[j].manifest_path@,
                        ) by {
                            if j + 1 < k {
                                assert(members@[j + 1] == before[j + 1]);
                                assert(members@[j] == before[j]);
                                assert(!path_precedes(before[j + 1].manifest_path@, before[j].manifest_path@));
                            } else if j + 1 == k {
                                assert(members@[j + 1] == member);
                                assert(members@[j] == before[k - 1]);
                            } else if j == k {
                                assert(members@[j] == member);
                                assert(members@[j + 1] == before[k as int]);
                            } else {
                                let i = j - 1;
                                assert(members@[j + 1] == before[i + 1]);
                                assert(members@[j] == before[i]);
                                assert(!path_precedes(before[i + 1].manifest_path@, before[i].manifest_path@));
                            }
                        }
                    }
                }
            }
            i = i + 1;
        }
        assert(packages@.take(packages@.len() as int) =~= packages@);
        let root_manifest = join(root.as_str(), "Cargo.toml");
        Project { root, root_manifest, members }
    }
}

/// The closing summary of a check that found `count` violations, or `None` when it found none.
pub fn violations_summary(count: u64) -> (summary: Option<String>)
    ensures
        count == 0 ==> summary is None,
        count > 0 ==> (summary matches Some(text) && text@ == plural_spec(count as nat, "policy violation"@) + " found"@),
{
    if count == 0 {
        return None;
    }
    let mut text = plural(count, "policy violation");
    text.append(" found");
    Some(text)
}

} // verus!
