//! Configuration resolution for one repository: where its config file lives,
//! and what a fetched file resolves to.
//!
//! Configs of repositories the delegate owner does not own live centrally in
//! the delegate owner's own repository, under an override path; such a
//! resolution is marked external.
use vstd::prelude::*;

use crate::config::ResolvedConfig;
use crate::config::ResolvedConfigView;
use crate::content::ContentFetch;
use crate::content::decoded_of;
use crate::error::AppError;
use crate::error::AppErrView;
use crate::schema::config_from_tree;
use crate::schema::s_config_root;
use crate::schema::s_err_message;
use crate::toml_tree::parse_toml_document;
use crate::toml_tree::toml_document;

verus! {

/// The account whose repository centrally hosts override configuration
/// files for repositories it does not own.
pub fn delegate_owner() -> (r: &'static str)
    ensures
        r@ == "luxass"@,
{
    "luxass"
}

/// Where a repository's config file is fetched from.
pub struct FetchPlan {
    /// The path of the config file within the fetched repository.
    pub path: String,
    /// The owner whose repository is fetched.
    pub owner: String,
    /// The repository that is fetched.
    pub repo: String,
    /// Whether the config is read from the delegate owner's override path.
    pub external: bool,
}

/// The override path the delegate owner's repository keeps for another
/// owner's repository.
pub open spec fn s_external_path(owner: Seq<char>, repo: Seq<char>) -> Seq<char> {
    ".github/mosaic/"@ + owner + "/"@ + repo + ".toml"@
}

/// Decides where to read the config of `(owner, repo)`: the repository's own
/// canonical path when the delegate owner owns it, the delegate's override
/// path otherwise.
pub fn config_fetch_plan(owner: &str, repo: &str) -> (r: FetchPlan)
    ensures
        owner@ == "luxass"@ ==> !r.external && r.path@ == ".github/mosaic.toml"@ && r.owner@
            == owner@ && r.repo@ == repo@,
        owner@ != "luxass"@ ==> r.external && r.path@ == s_external_path(owner@, repo@) && r.owner@
            == "luxass"@ && r.repo@ == "luxass"@,
{
    if crate::strutil::str_eq(owner, delegate_owner()) {
        FetchPlan {
            path: String::from_str(".github/mosaic.toml"),
            owner: owner.to_owned(),
            repo: repo.to_owned(),
            external: false,
        }
    } else {
        let mut path = String::from_str(".github/mosaic/");
        path.append(owner);
        path.append("/");
        path.append(repo);
        path.append(".toml");
        proof {
            assert(path@ =~= s_external_path(owner@, repo@));
        }
        FetchPlan {
            path,
            owner: String::from_str("luxass"),
            repo: String::from_str("luxass"),
            external: true,
        }
    }
}

/// What a fetch outcome resolves to.
pub open spec fn s_resolve_fetched(outcome: ContentFetch, external: bool) -> Result<
    ResolvedConfigView,
    AppErrView,
> {
    match outcome {
        ContentFetch::NotFound => Err(AppErrView::NotFound),
        ContentFetch::Failed(m) => Err(AppErrView::GitHubError(m@)),
        ContentFetch::Found(items) => if items@.len() == 0 {
            Err(AppErrView::ResolveConfigError("mosaic config not found"@))
        } else {
            match items@[0].content {
                None => Err(AppErrView::ResolveConfigError("could not decode mosaic config"@)),
                Some(c) => match decoded_of(c@) {
                    None => Err(
                        AppErrView::ResolveConfigError("could not decode mosaic config"@),
                    ),
                    Some(text) => match toml_document(text) {
                        Err(m) => Err(AppErrView::ResolveConfigError(m)),
                        Ok(tree) => match s_config_root(tree) {
                            Err(ce) => Err(
                                AppErrView::ResolveConfigError(s_err_message(ce)),
                            ),
                            Ok(content) => Ok(ResolvedConfigView { content, external }),
                        },
                    },
                },
            }
        },
    }
}

/// Resolves what the gateway handed back for a config path.
///
/// A not-found fetch is the recoverable [`AppError::NotFound`]; any other
/// gateway failure is carried as a gateway error; a fetched file that cannot
/// be decoded or parsed is a resolve error with its reason.  Success yields
/// the parsed config marked with its provenance.
pub fn resolve_fetched(outcome: ContentFetch, external: bool) -> (r: Result<
    ResolvedConfig,
    AppError,
>)
    ensures
        match r {
            Ok(c) => s_resolve_fetched(outcome, external) == Ok::<ResolvedConfigView, AppErrView>(
                c@,
            ),
            Err(e) => s_resolve_fetched(outcome, external) == Err::<
                ResolvedConfigView,
                AppErrView,
            >(e@),
        },
{
    match outcome {
        ContentFetch::NotFound => Err(AppError::NotFound),
        ContentFetch::Failed(m) => Err(AppError::GitHubError(m)),
        ContentFetch::Found(items) => {
            if items.len() == 0 {
                return Err(
                    AppError::ResolveConfigError(String::from_str("mosaic config not found")),
                );
            }
            let first = &items[0];
            match first.decoded_content() {
                None => Err(
                    AppError::ResolveConfigError(
                        String::from_str("could not decode mosaic config"),
                    ),
                ),
                Some(text) => match parse_toml_document(text.as_str()) {
                    Err(m) => Err(AppError::ResolveConfigError(m)),
                    Ok(tree) => match config_from_tree(&tree) {
                        Err(ce) => Err(AppError::ResolveConfigError(ce.message())),
                        Ok(content) => Ok(ResolvedConfig { content, external }),
                    },
                },
            }
        },
    }
}

/// Resolver not-found: a not-found fetch resolves to the recoverable
/// not-found error, whatever the provenance of the path; the job settles
/// every resolution error as "no configuration", so it is never fatal.
pub proof fn lemma_not_found_is_not_configured(external: bool)
    ensures
        s_resolve_fetched(ContentFetch::NotFound, external) == Err::<
            ResolvedConfigView,
            AppErrView,
        >(AppErrView::NotFound),
{
}

} // verus!
