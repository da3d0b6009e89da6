//! The declaration of the mirrors to keep.

use vstd::prelude::*;

verus! {

/// The declaration of one repository to mirror.
pub struct ProjectConfig {
    /// The mirror's directory name; derived from `url` when absent.
    pub name: Option<String>,
    /// The directory to keep this mirror in, in place of the default.
    pub path: Option<String>,
    /// Where the repository is fetched from.
    pub url: String,
    /// A one-line label to store with a new mirror.
    pub description: Option<String>,
}

/// All mirrors to keep, and where to keep them.
pub struct Config {
    /// The directory that holds every mirror without a `path` of its own.
    pub default_path: String,
    /// The declared repositories.
    pub projects: Option<Vec<ProjectConfig>>,
}

/// The model of a [`ProjectConfig`].
pub struct ProjectConfigView {
    pub name: Option<Seq<char>>,
    pub path: Option<Seq<char>>,
    pub url: Seq<char>,
    pub description: Option<Seq<char>>,
}

/// The model of a [`Config`].
pub struct ConfigView {
    pub default_path: Seq<char>,
    pub projects: Option<Seq<ProjectConfigView>>,
}

impl View for ProjectConfig {
    type V = ProjectConfigView;

    open spec fn view(&self) -> ProjectConfigView {
        ProjectConfigView {
            name: self.name.deep_view(),
            path: self.path.deep_view(),
            url: self.url@,
            description: self.description.deep_view(),
        }
    }
}

impl DeepView for ProjectConfig {
    type V = ProjectConfigView;

    open spec fn deep_view(&self) -> ProjectConfigView {
        self@
    }
}

impl View for Config {
    type V = ConfigView;

    open spec fn view(&self) -> ConfigView {
        ConfigView { default_path: self.default_path@, projects: self.projects.deep_view() }
    }
}

} // verus!
