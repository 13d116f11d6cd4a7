//! What the read path serves: a resolved configuration projected into the
//! projects it describes, and the readme lookup.
use vstd::prelude::*;

use crate::config::MosaicConfig;
use crate::config::MosaicConfigView;
use crate::content::GitHubContentObject;
use crate::content::decoded_of;
use crate::error::AppError;
use crate::error::AppErrView;

verus! {

/// One project as the read path presents it.
#[derive(Debug, Clone)]
pub struct ResolvedProject {
    /// The project's name.
    pub name: String,
    /// The project's description.
    pub description: Option<String>,
    /// Whether the project asks to be left out of downstream output.
    pub ignore: bool,
    /// The project's priority.
    pub priority: u8,
    /// The project's handle.
    pub handle: Option<String>,
    /// The star count, when included.
    pub stars: Option<u32>,
    /// The version, when included.
    pub version: Option<String>,
}

/// Mathematical image of [`ResolvedProject`].
pub struct ResolvedProjectView {
    pub name: Seq<char>,
    pub description: Option<Seq<char>>,
    pub ignore: bool,
    pub priority: u8,
    pub handle: Option<Seq<char>>,
    pub stars: Option<u32>,
    pub version: Option<Seq<char>>,
}

impl View for ResolvedProject {
    type V = ResolvedProjectView;

    open spec fn view(&self) -> ResolvedProjectView {
        ResolvedProjectView {
            name: self.name@,
            description: self.description.deep_view(),
            ignore: self.ignore,
            priority: self.priority,
            handle: self.handle.deep_view(),
            stars: self.stars,
            version: self.version.deep_view(),
        }
    }
}

impl DeepView for ResolvedProject {
    type V = ResolvedProjectView;

    open spec fn deep_view(&self) -> ResolvedProjectView {
        self.view()
    }
}

/// What a configuration resolves to for the read path: an ignored project is
/// refused, a workspace is not expanded, and otherwise the one project the
/// configuration describes, its name defaulting to the repository name.
pub open spec fn s_resolved_projects(c: MosaicConfigView, repository_name: Seq<char>) -> Result<
    Seq<ResolvedProjectView>,
    AppErrView,
> {
    if c.base_config.project.ignore {
        Err(AppErrView::IgnoredProject)
    } else if c.workspace is Some {
        Err(AppErrView::Unknown)
    } else {
        Ok(
            seq![
                ResolvedProjectView {
                    name: match c.base_config.project.name {
                        Some(n) => n,
                        None => repository_name,
                    },
                    description: c.base_config.project.description,
                    ignore: c.base_config.project.ignore,
                    priority: c.base_config.project.priority,
                    handle: c.base_config.project.handle,
                    stars: Some(10u32),
                    version: Some("0.0.1"@),
                },
            ],
        )
    }
}

/// Projects a resolved configuration for the read path.
pub fn resolved_projects(config: &MosaicConfig, repository_name: &str) -> (r: Result<
    Vec<ResolvedProject>,
    AppError,
>)
    ensures
        match r {
            Ok(v) => s_resolved_projects(config@, repository_name@) == Ok::<
                Seq<ResolvedProjectView>,
                AppErrView,
            >(v.deep_view()),
            Err(e) => s_resolved_projects(config@, repository_name@) == Err::<
                Seq<ResolvedProjectView>,
                AppErrView,
            >(e@),
        },
{
    if config.base_config.project.ignore {
        return Err(AppError::IgnoredProject);
    }
    if config.workspace.is_some() {
        return Err(AppError::Unknown);
    }
    let name = match &config.base_config.project.name {
        Some(n) => n.clone(),
        None => repository_name.to_owned(),
    };
    let description = match &config.base_config.project.description {
        Some(d) => Some(d.clone()),
        None => None,
    };
    let handle = match &config.base_config.project.handle {
        Some(h) => Some(h.clone()),
        None => None,
    };
    let project = ResolvedProject {
        name,
        description,
        ignore: config.base_config.project.ignore,
        priority: config.base_config.project.priority,
        handle,
        stars: Some(10),
        version: Some(String::from_str("0.0.1")),
    };
    let mut out: Vec<ResolvedProject> = Vec::new();
    out.push(project);
    proof {
        assert(out.deep_view() =~= s_resolved_projects(config@, repository_name@)->Ok_0);
    }
    Ok(out)
}

/// The readme transform switch of a request.
#[derive(Debug, Clone)]
pub struct TransformQuery {
    /// Whether to transform the README content.
    pub transform: Option<bool>,
}

/// How a raw query value reads as a transform switch: an absent or empty
/// value means true; otherwise only the spellings `true` and `false` are
/// accepted.
pub open spec fn s_transform_flag(raw: Option<Seq<char>>) -> Result<Option<bool>, AppErrView> {
    match raw {
        None => Ok(Some(true)),
        Some(s) => if s.len() == 0 {
            Ok(Some(true))
        } else if s == "true"@ {
            Ok(Some(true))
        } else if s == "false"@ {
            Ok(Some(false))
        } else {
            Err(AppErrView::ParseConfigError("provided string was not `true` or `false`"@))
        },
    }
}

/// Reads a raw query value as a transform switch.
pub fn transform_flag(raw: Option<&str>) -> (r: Result<Option<bool>, AppError>)
    ensures
        match r {
            Ok(v) => s_transform_flag(raw.deep_view()) == Ok::<Option<bool>, AppErrView>(v),
            Err(e) => s_transform_flag(raw.deep_view()) == Err::<Option<bool>, AppErrView>(e@),
        },
{
    match raw {
        None => Ok(Some(true)),
        Some(s) => {
            if s.is_empty() {
                Ok(Some(true))
            } else if crate::strutil::str_eq(s, "true") {
                Ok(Some(true))
            } else if crate::strutil::str_eq(s, "false") {
                Ok(Some(false))
            } else {
                Err(
                    AppError::ParseConfigError(
                        String::from_str("provided string was not `true` or `false`"),
                    ),
                )
            }
        },
    }
}

/// The first index whose item is named `README.md`, or the length.
pub open spec fn s_readme_index(items: Seq<GitHubContentObject>) -> int
    decreases items.len(),
{
    if items.len() == 0 {
        0
    } else if items[0].name@ == "README.md"@ {
        0
    } else {
        1 + s_readme_index(items.drop_first())
    }
}

/// An index before which no item is named `README.md`, and at which one is
/// unless it is the length, is the first readme.
pub proof fn lemma_readme_index_is(items: Seq<GitHubContentObject>, i: int)
    requires
        0 <= i <= items.len(),
        forall|j: int| 0 <= j < i ==> items[j].name@ != "README.md"@,
        i < items.len() ==> items[i].name@ == "README.md"@,
    ensures
        s_readme_index(items) == i,
    decreases items.len(),
{
    if items.len() == 0 {
    } else if items[0].name@ == "README.md"@ {
        assert(i == 0);
    } else {
        assert(i >= 1) by {
            assert(items[0].name@ != "README.md"@);
        }
        lemma_readme_index_is(items.drop_first(), i - 1);
    }
}

/// What the readme route serves from fetched content items: the decoded
/// body of the first item named `README.md`, the transformed text when the
/// transform switch is on, not-found when no such item exists, and an
/// unknown error when the body does not decode.
pub open spec fn s_readme_response(items: Seq<GitHubContentObject>, transform: Option<bool>) -> Result<
    Seq<char>,
    AppErrView,
> {
    let k = s_readme_index(items);
    if k == items.len() {
        Err(AppErrView::NotFound)
    } else {
        match items[k].content {
            None => Err(AppErrView::Unknown),
            Some(c) => match decoded_of(c@) {
                None => Err(AppErrView::Unknown),
                Some(text) => if transform == Some(true) {
                    Ok("# Hello, world!"@)
                } else {
                    Ok(text)
                },
            },
        }
    }
}

/// Serves the readme route from fetched content items.
pub fn readme_response(items: &Vec<GitHubContentObject>, query: &TransformQuery) -> (r: Result<
    String,
    AppError,
>)
    ensures
        match r {
            Ok(s) => s_readme_response(items@, query.transform) matches Ok(t) && t == s@,
            Err(e) => s_readme_response(items@, query.transform) matches Err(w) && w == e@,
        },
{
    let n = items.len();
    let mut i: usize = 0;
    while i < n
        invariant
            i <= n,
            n == items@.len(),
            forall|j: int| 0 <= j < i ==> items@[j].name@ != "README.md"@,
        decreases n - i,
    {
        if crate::strutil::str_eq(items[i].name.as_str(), "README.md") {
            proof {
                lemma_readme_index_is(items@, i as int);
            }
            let readme = &items[i];
            let should_transform = match query.transform {
                Some(b) => b,
                None => false,
            };
            return match readme.decoded_content() {
                None => Err(AppError::Unknown),
                Some(text) => if should_transform {
                    Ok(String::from_str("# Hello, world!"))
                } else {
                    Ok(text)
                },
            };
        }
        i = i + 1;
    }
    proof {
        lemma_readme_index_is(items@, n as int);
    }
    Err(AppError::NotFound)
}

} // verus!
