//! The configuration tree a repository declares for itself: one mandatory
//! `project` section, optional `readme`, `website` and `package` sections, and
//! an optional `workspace` section marking the repository as a container of
//! sub-projects.
use vstd::prelude::*;

verus! {

/// Deprecation notice of a project: a message and an optional replacement.
#[derive(Debug, Clone)]
pub struct Deprecated {
    /// The deprecation message.
    pub message: String,
    /// The replacement project.
    pub replacement: Option<String>,
}

/// The `project` section: display fields and inclusion toggles.
#[derive(Debug, Clone)]
pub struct MosaicProjectConfig {
    /// The name of the project; defaults to the repository name downstream.
    pub name: Option<String>,
    /// The description of the project.
    pub description: Option<String>,
    /// Include the number of stars in the project.
    pub stars: bool,
    /// The priority of the project; the higher the number, the higher the
    /// priority.
    pub priority: u8,
    /// Infer the version of the project automatically.
    pub version: bool,
    /// Should the project be ignored.
    pub ignore: bool,
    /// The handle of the project; auto generated downstream when absent.
    pub handle: Option<String>,
    /// Whether the project is deprecated.
    pub deprecated: Option<Deprecated>,
    /// An alternative project.
    pub alternative: Option<String>,
}

/// The `readme` section.
#[derive(Debug, Clone)]
pub struct MosaicReadmeConfig {
    /// Include the README of the project.
    pub enabled: bool,
    /// The path to the README file; auto detected when absent.
    pub path: Option<String>,
}

/// The registry a package belongs to.
#[derive(Debug, Clone, PartialEq, Eq, Structural)]
pub enum PackageType {
    /// For NPM packages.  Accepted spellings: `NPM`, `npm`, `node`.
    NPM,
    /// For Rust crates.  Accepted spellings: `Cargo`, `cargo`, `crates`,
    /// `rust`.
    Cargo,
}

/// The `package` section.
#[derive(Debug, Clone)]
pub struct MosaicPackageConfig {
    /// Include information about the package.
    pub enabled: bool,
    /// The package type; inferred from the repository when absent.
    pub package_type: Option<PackageType>,
    /// Include the number of downloads.
    pub downloads: bool,
    /// The package name; inferred from the repository when absent.
    pub name: Option<String>,
}

/// The `website` section.
#[derive(Debug, Clone)]
pub struct MosaicWebsiteConfig {
    /// Customize the auto-generated page for the project.
    pub enabled: bool,
    /// The title of the website.
    pub title: Option<String>,
    /// The description of the website.
    pub description: Option<String>,
    /// The URL of the website; inferred from the repository when absent.
    pub url: Option<String>,
    /// The keywords to show on the project page.
    pub keywords: Option<Vec<String>>,
}

/// The sections shared by a top-level config and a workspace override.
#[derive(Debug, Clone)]
pub struct BaseMosaicConfig {
    /// The mandatory `project` section.
    pub project: MosaicProjectConfig,
    /// The optional `readme` section.
    pub readme: Option<MosaicReadmeConfig>,
    /// The optional `website` section.
    pub website: Option<MosaicWebsiteConfig>,
    /// The optional `package` section.
    pub package: Option<MosaicPackageConfig>,
}

/// The `workspace` section: the repository defines sub-projects of its own.
#[derive(Debug, Clone)]
pub struct MosaicWorkspaceConfig {
    /// Include the workspace of the project.
    pub enabled: bool,
    /// The ignored projects in this workspace.
    pub ignores: Option<Vec<String>>,
    /// Per-project overrides, keyed by sub-project name.
    pub overrides: Option<Vec<(String, BaseMosaicConfig)>>,
}

/// A full repository configuration.
#[derive(Debug, Clone)]
pub struct MosaicConfig {
    /// The sections describing the repository as one project.
    pub base_config: BaseMosaicConfig,
    /// Present when the repository declares sub-projects.
    pub workspace: Option<MosaicWorkspaceConfig>,
}

/// A parsed configuration together with its provenance.
#[derive(Debug, Clone)]
pub struct ResolvedConfig {
    /// The parsed configuration.
    pub content: MosaicConfig,
    /// Whether the config was read from the delegate owner's override path
    /// rather than the repository's own file.
    pub external: bool,
}

/// Mathematical image of [`Deprecated`].
pub struct DeprecatedView {
    pub message: Seq<char>,
    pub replacement: Option<Seq<char>>,
}

/// Mathematical image of [`MosaicProjectConfig`].
pub struct ProjectConfigView {
    pub name: Option<Seq<char>>,
    pub description: Option<Seq<char>>,
    pub stars: bool,
    pub priority: u8,
    pub version: bool,
    pub ignore: bool,
    pub handle: Option<Seq<char>>,
    pub deprecated: Option<DeprecatedView>,
    pub alternative: Option<Seq<char>>,
}

/// Mathematical image of [`MosaicReadmeConfig`].
pub struct ReadmeConfigView {
    pub enabled: bool,
    pub path: Option<Seq<char>>,
}

/// Mathematical image of [`MosaicPackageConfig`].
pub struct PackageConfigView {
    pub enabled: bool,
    pub package_type: Option<PackageType>,
    pub downloads: bool,
    pub name: Option<Seq<char>>,
}

/// Mathematical image of [`MosaicWebsiteConfig`].
pub struct WebsiteConfigView {
    pub enabled: bool,
    pub title: Option<Seq<char>>,
    pub description: Option<Seq<char>>,
    pub url: Option<Seq<char>>,
    pub keywords: Option<Seq<Seq<char>>>,
}

/// Mathematical image of [`BaseMosaicConfig`].
pub struct BaseConfigView {
    pub project: ProjectConfigView,
    pub readme: Option<ReadmeConfigView>,
    pub website: Option<WebsiteConfigView>,
    pub package: Option<PackageConfigView>,
}

/// Mathematical image of [`MosaicWorkspaceConfig`].
pub struct WorkspaceConfigView {
    pub enabled: bool,
    pub ignores: Option<Seq<Seq<char>>>,
    pub overrides: Option<Seq<(Seq<char>, BaseConfigView)>>,
}

/// Mathematical image of [`MosaicConfig`].
pub struct MosaicConfigView {
    pub base_config: BaseConfigView,
    pub workspace: Option<WorkspaceConfigView>,
}

/// Mathematical image of [`ResolvedConfig`].
pub struct ResolvedConfigView {
    pub content: MosaicConfigView,
    pub external: bool,
}

impl View for Deprecated {
    type V = DeprecatedView;

    open spec fn view(&self) -> DeprecatedView {
        DeprecatedView { message: self.message@, replacement: self.replacement.deep_view() }
    }
}

impl DeepView for Deprecated {
    type V = DeprecatedView;

    open spec fn deep_view(&self) -> DeprecatedView {
        self.view()
    }
}

impl View for MosaicProjectConfig {
    type V = ProjectConfigView;

    open spec fn view(&self) -> ProjectConfigView {
        ProjectConfigView {
            name: self.name.deep_view(),
            description: self.description.deep_view(),
            stars: self.stars,
            priority: self.priority,
            version: self.version,
            ignore: self.ignore,
            handle: self.handle.deep_view(),
            deprecated: self.deprecated.deep_view(),
            alternative: self.alternative.deep_view(),
        }
    }
}

impl DeepView for MosaicProjectConfig {
    type V = ProjectConfigView;

    open spec fn deep_view(&self) -> ProjectConfigView {
        self.view()
    }
}

impl View for MosaicReadmeConfig {
    type V = ReadmeConfigView;

    open spec fn view(&self) -> ReadmeConfigView {
        ReadmeConfigView { enabled: self.enabled, path: self.path.deep_view() }
    }
}

impl DeepView for MosaicReadmeConfig {
    type V = ReadmeConfigView;

    open spec fn deep_view(&self) -> ReadmeConfigView {
        self.view()
    }
}

impl View for MosaicPackageConfig {
    type V = PackageConfigView;

    open spec fn view(&self) -> PackageConfigView {
        PackageConfigView {
            enabled: self.enabled,
            package_type: self.package_type,
            downloads: self.downloads,
            name: self.name.deep_view(),
        }
    }
}

impl DeepView for MosaicPackageConfig {
    type V = PackageConfigView;

    open spec fn deep_view(&self) -> PackageConfigView {
        self.view()
    }
}

impl View for MosaicWebsiteConfig {
    type V = WebsiteConfigView;

    open spec fn view(&self) -> WebsiteConfigView {
        WebsiteConfigView {
            enabled: self.enabled,
            title: self.title.deep_view(),
            description: self.description.deep_view(),
            url: self.url.deep_view(),
            keywords: self.keywords.deep_view(),
        }
    }
}

impl DeepView for MosaicWebsiteConfig {
    type V = WebsiteConfigView;

    open spec fn deep_view(&self) -> WebsiteConfigView {
        self.view()
    }
}

impl View for BaseMosaicConfig {
    type V = BaseConfigView;

    open spec fn view(&self) -> BaseConfigView {
        BaseConfigView {
            project: self.project.view(),
            readme: self.readme.deep_view(),
            website: self.website.deep_view(),
            package: self.package.deep_view(),
        }
    }
}

impl DeepView for BaseMosaicConfig {
    type V = BaseConfigView;

    open spec fn deep_view(&self) -> BaseConfigView {
        self.view()
    }
}

impl View for MosaicWorkspaceConfig {
    type V = WorkspaceConfigView;

    open spec fn view(&self) -> WorkspaceConfigView {
        WorkspaceConfigView {
            enabled: self.enabled,
            ignores: self.ignores.deep_view(),
            overrides: self.overrides.deep_view(),
        }
    }
}

impl DeepView for MosaicWorkspaceConfig {
    type V = WorkspaceConfigView;

    open spec fn deep_view(&self) -> WorkspaceConfigView {
        self.view()
    }
}

impl View for MosaicConfig {
    type V = MosaicConfigView;

    open spec fn view(&self) -> MosaicConfigView {
        MosaicConfigView { base_config: self.base_config.view(), workspace: self.workspace.deep_view() }
    }
}

impl DeepView for MosaicConfig {
    type V = MosaicConfigView;

    open spec fn deep_view(&self) -> MosaicConfigView {
        self.view()
    }
}

impl View for ResolvedConfig {
    type V = ResolvedConfigView;

    open spec fn view(&self) -> ResolvedConfigView {
        ResolvedConfigView { content: self.content.view(), external: self.external }
    }
}

impl DeepView for ResolvedConfig {
    type V = ResolvedConfigView;

    open spec fn deep_view(&self) -> ResolvedConfigView {
        self.view()
    }
}

/// The priority a project gets when its config names none.
pub fn default_priority() -> (r: u8)
    ensures
        r == 10,
{
    10
}

} // verus!
