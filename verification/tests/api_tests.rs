use base64::Engine;

use mosaic::api::TransformQuery;
use mosaic::api::readme_response;
use mosaic::api::resolved_projects;
use mosaic::api::transform_flag;
use mosaic::config::BaseMosaicConfig;
use mosaic::config::MosaicConfig;
use mosaic::config::MosaicProjectConfig;
use mosaic::config::MosaicWorkspaceConfig;
use mosaic::content::GitHubContentObject;
use mosaic::env::AppEnv;
use mosaic::error::AppError;

fn project_config(name: Option<&str>, ignore: bool) -> MosaicConfig {
    MosaicConfig {
        base_config: BaseMosaicConfig {
            project: MosaicProjectConfig {
                name: name.map(|s| s.to_string()),
                description: Some(String::from("a description")),
                stars: false,
                priority: 4,
                version: false,
                ignore,
                handle: Some(String::from("a-handle")),
                deprecated: None,
                alternative: None,
            },
            readme: None,
            website: None,
            package: None,
        },
        workspace: None,
    }
}

fn item(name: &str, body: Option<&str>) -> GitHubContentObject {
    GitHubContentObject {
        name: name.to_string(),
        path: name.to_string(),
        sha: String::from("abc"),
        size: 1,
        url: String::from("https://example.test/u"),
        html_url: String::from("https://example.test/h"),
        git_url: String::from("https://example.test/g"),
        download_url: String::from("https://example.test/d"),
        content_type: String::from("file"),
        content: body.map(|s| base64::prelude::BASE64_STANDARD.encode(s.as_bytes())),
        encoding: String::from("base64"),
        links: Vec::new(),
    }
}

#[test]
fn a_named_project_keeps_its_name() {
    let cfg = project_config(Some("named"), false);
    let projects = resolved_projects(&cfg, "the-repository").unwrap();
    assert_eq!(projects.len(), 1);
    assert_eq!(projects[0].name, "named");
    assert_eq!(projects[0].description.as_deref(), Some("a description"));
    assert_eq!(projects[0].priority, 4);
    assert_eq!(projects[0].handle.as_deref(), Some("a-handle"));
    assert_eq!(projects[0].stars, Some(10));
    assert_eq!(projects[0].version.as_deref(), Some("0.0.1"));
}

#[test]
fn an_unnamed_project_takes_the_repository_name() {
    let cfg = project_config(None, false);
    let projects = resolved_projects(&cfg, "the-repository").unwrap();
    assert_eq!(projects[0].name, "the-repository");
}

#[test]
fn an_ignored_project_is_refused() {
    let cfg = project_config(Some("named"), true);
    let r = resolved_projects(&cfg, "the-repository");
    assert!(matches!(r, Err(AppError::IgnoredProject)));
}

#[test]
fn a_workspace_config_is_not_expanded() {
    let mut cfg = project_config(Some("named"), false);
    cfg.workspace = Some(MosaicWorkspaceConfig { enabled: true, ignores: None, overrides: None });
    let r = resolved_projects(&cfg, "the-repository");
    assert!(matches!(r, Err(AppError::Unknown)));
}

#[test]
fn absent_and_empty_transform_values_mean_true() {
    assert_eq!(transform_flag(None).unwrap(), Some(true));
    assert_eq!(transform_flag(Some("")).unwrap(), Some(true));
    assert_eq!(transform_flag(Some("true")).unwrap(), Some(true));
    assert_eq!(transform_flag(Some("false")).unwrap(), Some(false));
}

#[test]
fn an_unreadable_transform_value_is_an_error() {
    match transform_flag(Some("junk")) {
        Err(AppError::ParseConfigError(m)) => {
            assert_eq!(m, "provided string was not `true` or `false`")
        },
        other => panic!("unexpected outcome: {:?}", other),
    }
}

#[test]
fn readme_lookup_finds_the_readme_by_name() {
    let items = vec![item("LICENSE", Some("mit")), item("README.md", Some("# The Readme\n"))];
    let q = TransformQuery { transform: None };
    assert_eq!(readme_response(&items, &q).unwrap(), "# The Readme\n");
}

#[test]
fn readme_lookup_without_a_readme_is_not_found() {
    let items = vec![item("LICENSE", Some("mit"))];
    let q = TransformQuery { transform: None };
    assert!(matches!(readme_response(&items, &q), Err(AppError::NotFound)));
}

#[test]
fn readme_transform_replaces_the_body() {
    let items = vec![item("README.md", Some("# The Readme\n"))];
    let q = TransformQuery { transform: Some(true) };
    assert_eq!(readme_response(&items, &q).unwrap(), "# Hello, world!");
    let q = TransformQuery { transform: Some(false) };
    assert_eq!(readme_response(&items, &q).unwrap(), "# The Readme\n");
}

#[test]
fn readme_without_a_body_is_an_unknown_error() {
    let items = vec![item("README.md", None)];
    let q = TransformQuery { transform: None };
    assert!(matches!(readme_response(&items, &q), Err(AppError::Unknown)));
}

#[test]
fn environment_defaults_fill_host_and_port() {
    let env = AppEnv::with_defaults(
        String::from("postgres://db"),
        None,
        None,
        String::from("a-test-token"),
    );
    assert_eq!(env.database_url, "postgres://db");
    assert_eq!(env.mosaic_listen_host, "127.0.0.1");
    assert_eq!(env.mosaic_listen_port, "3939");
    let env = AppEnv::with_defaults(
        String::from("postgres://db"),
        Some(String::from("0.0.0.0")),
        Some(String::from("8080")),
        String::from("a-test-token"),
    );
    assert_eq!(env.mosaic_listen_host, "0.0.0.0");
    assert_eq!(env.mosaic_listen_port, "8080");
}
