//! The path resolver: where on disk the mirror of a project lives.

use vstd::prelude::*;
use crate::config::Config;
use crate::config::ConfigView;
use crate::config::ProjectConfig;
use crate::config::ProjectConfigView;
use crate::paths::join_path;
use crate::paths::joined;
use crate::paths::lemma_joined_last_segment;
use crate::utils::get_repo_name;
use crate::utils::last_segment;
use crate::utils::lemma_repo_name_is_one_segment;
use crate::utils::repo_name;

verus! {

/// One mirror to bring up to date: where it lives, where it comes from and
/// how a new mirror is to be labelled.
#[derive(Clone, Debug, PartialEq, Eq)]
pub struct MirrorTarget {
    pub path: String,
    pub url: String,
    pub description: Option<String>,
}

/// The model of a [`MirrorTarget`].
pub struct MirrorTargetView {
    pub path: Seq<char>,
    pub url: Seq<char>,
    pub description: Option<Seq<char>>,
}

impl View for MirrorTarget {
    type V = MirrorTargetView;

    open spec fn view(&self) -> MirrorTargetView {
        MirrorTargetView {
            path: self.path@,
            url: self.url@,
            description: self.description.deep_view(),
        }
    }
}

impl DeepView for MirrorTarget {
    type V = MirrorTargetView;

    open spec fn deep_view(&self) -> MirrorTargetView {
        self@
    }
}

/// The directory that holds the mirror of `project`: its own `path` if it
/// has one, the default otherwise.
pub open spec fn base_dir(project: ProjectConfigView, default_path: Seq<char>) -> Seq<char> {
    match project.path {
        Some(path) => path,
        None => default_path,
    }
}

/// The directory name of the mirror of `project`: its own `name` if it has
/// one, the name derived from its URL otherwise.
pub open spec fn mirror_name(project: ProjectConfigView) -> Seq<char> {
    match project.name {
        Some(name) => name,
        None => repo_name(project.url),
    }
}

/// The location of the mirror of `project`.
pub open spec fn resolved_path(project: ProjectConfigView, default_path: Seq<char>) -> Seq<char> {
    joined(base_dir(project, default_path), mirror_name(project))
}

/// The target that `project` resolves to.
pub open spec fn resolved(project: ProjectConfigView, default_path: Seq<char>) -> MirrorTargetView {
    MirrorTargetView {
        path: resolved_path(project, default_path),
        url: project.url,
        description: project.description,
    }
}

/// The targets of a whole configuration, in the order of declaration. A
/// configuration without a project list has none.
pub open spec fn planned(config: ConfigView) -> Seq<MirrorTargetView> {
    match config.projects {
        Some(projects) => Seq::new(
            projects.len(),
            |i: int| resolved(projects[i], config.default_path),
        ),
        None => Seq::empty(),
    }
}

/// A declared name always wins: two projects with the same `name` and the
/// same `path` resolve to the same location, whatever their URLs are.
pub proof fn lemma_name_overrides_url(
    a: ProjectConfigView,
    b: ProjectConfigView,
    default_path: Seq<char>,
)
    requires
        a.name is Some,
        a.name == b.name,
        a.path == b.path,
    ensures
        resolved_path(a, default_path) == resolved_path(b, default_path),
        resolved_path(a, default_path) == joined(base_dir(a, default_path), a.name->0),
{
}

/// A project without a `name` is mirrored in a directory named after its
/// URL: the resolved location is the base directory joined with the URL's
/// repository name, and that name is its last segment.
pub proof fn lemma_unnamed_project_location(project: ProjectConfigView, default_path: Seq<char>)
    requires
        project.name is None,
    ensures
        resolved_path(project, default_path) == joined(
            base_dir(project, default_path),
            repo_name(project.url),
        ),
        base_dir(project, default_path).len() > 0 ==> last_segment(
            resolved_path(project, default_path),
        ) == repo_name(project.url),
{
    lemma_repo_name_is_one_segment(project.url);
    if base_dir(project, default_path).len() > 0 {
        lemma_joined_last_segment(base_dir(project, default_path), repo_name(project.url));
    }
}

/// A copy of an optional string.
fn copy_of(text: &Option<String>) -> (copy: Option<String>)
    ensures
        copy.deep_view() == text.deep_view(),
{
    match text {
        Some(s) => Some(s.clone()),
        None => None,
    }
}

/// Resolves the target of one project. The result depends on nothing but
/// the project and the default path.
pub fn resolve(project: &ProjectConfig, default_path: &str) -> (target: MirrorTarget)
    ensures
        target@ == resolved(project@, default_path@),
{
    let base: &str = match &project.path {
        Some(path) => path.as_str(),
        None => default_path,
    };
    let name: &str = match &project.name {
        Some(name) => name.as_str(),
        None => get_repo_name(project.url.as_str()),
    };
    MirrorTarget {
        path: join_path(base, name),
        url: project.url.clone(),
        description: copy_of(&project.description),
    }
}

/// Resolves every project of `config`, in the order of declaration.
pub fn plan(config: &Config) -> (targets: Vec<MirrorTarget>)
    ensures
        targets.deep_view() == planned(config@),
{
    let mut targets: Vec<MirrorTarget> = Vec::new();
    match &config.projects {
        Some(projects) => {
            let mut i: usize = 0;
            while i < projects.len()
                invariant
                    i <= projects.len(),
                    targets.len() == i,
                    forall|j: int|
                        0 <= j < i ==> (#[trigger] targets[j])@ == resolved(
                            projects[j]@,
                            config.default_path@,
                        ),
                decreases projects.len() - i,
            {
                targets.push(resolve(&projects[i], config.default_path.as_str()));
                i = i + 1;
            }
            assert(targets.deep_view() =~= planned(config@));
        },
        None => {
            assert(targets.deep_view() =~= planned(config@));
        },
    }
    targets
}

/// No two of the targets live at the same location.
pub open spec fn paths_distinct(targets: Seq<MirrorTargetView>) -> bool {
    forall|i: int, j: int| 0 <= i < j < targets.len() ==> targets[i].path != targets[j].path
}

/// The target at `j` is the first that lives where an earlier one does,
/// and the target at `i` is that earlier one.
pub open spec fn is_first_collision(targets: Seq<MirrorTargetView>, i: int, j: int) -> bool {
    &&& 0 <= i < j < targets.len()
    &&& targets[i].path == targets[j].path
    &&& paths_distinct(targets.take(j))
}

/// At most one pair of positions is the first collision.
pub proof fn lemma_first_collision_unique(
    targets: Seq<MirrorTargetView>,
    i: int,
    j: int,
    k: int,
    l: int,
)
    requires
        is_first_collision(targets, i, j),
        is_first_collision(targets, k, l),
    ensures
        i == k,
        j == l,
        !paths_distinct(targets),
{
    if j < l {
        assert(targets.take(l)[i] == targets[i] && targets.take(l)[j] == targets[j]);
    }
    if l < j {
        assert(targets.take(j)[k] == targets[k] && targets.take(j)[l] == targets[l]);
    }
    if i < k {
        assert(targets.take(j)[i] == targets[i] && targets.take(j)[k] == targets[k]);
    }
    if k < i {
        assert(targets.take(j)[i] == targets[i] && targets.take(j)[k] == targets[k]);
    }
}

/// Looks for two targets that live at the same location. Such targets
/// must not be worked on at the same time. The result is `None` exactly
/// when all locations differ; otherwise it is the first collision, as
/// `(earlier, later)`.
pub fn find_collision(targets: &Vec<MirrorTarget>) -> (hit: Option<(usize, usize)>)
    ensures
        match hit {
            Some((i, j)) => is_first_collision(targets.deep_view(), i as int, j as int),
            None => paths_distinct(targets.deep_view()),
        },
{
    let ghost all = targets.deep_view();
    let mut j: usize = 0;
    while j < targets.len()
        invariant
            j <= targets.len(),
            all == targets.deep_view(),
            paths_distinct(all.take(j as int)),
        decreases targets.len() - j,
    {
        let mut i: usize = 0;
        while i < j
            invariant
                i <= j < targets.len(),
                all == targets.deep_view(),
                paths_distinct(all.take(j as int)),
                forall|k: int| 0 <= k < i ==> all[k].path != all[j as int].path,
            decreases j - i,
        {
            if targets[i].path == targets[j].path {
                return Some((i, j));
            }
            i = i + 1;
        }
        proof {
            let before = all.take(j as int);
            let after = all.take(j + 1);
            assert forall|a: int, b: int| 0 <= a < b < after.len() implies after[a].path
                != after[b].path by {
                if b < j {
                    assert(before[a].path != before[b].path);
                }
            }
        }
        j = j + 1;
    }
    assert(all.take(j as int) =~= all);
    None
}

} // verus!
