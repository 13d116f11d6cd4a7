use base64::Engine;

use mosaic::config::PackageType;
use mosaic::content::ContentFetch;
use mosaic::content::GitHubContentObject;
use mosaic::error::AppError;
use mosaic::resolver::config_fetch_plan;
use mosaic::resolver::delegate_owner;
use mosaic::resolver::resolve_fetched;

fn content_object(body: Option<&str>) -> GitHubContentObject {
    GitHubContentObject {
        name: String::from("mosaic.toml"),
        path: String::from(".github/mosaic.toml"),
        sha: String::from("abc"),
        size: 1,
        url: String::from("https://example.test/u"),
        html_url: String::from("https://example.test/h"),
        git_url: String::from("https://example.test/g"),
        download_url: String::from("https://example.test/d"),
        content_type: String::from("file"),
        content: body.map(|s| s.to_string()),
        encoding: String::from("base64"),
        links: Vec::new(),
    }
}

fn encoded(doc: &str) -> String {
    let raw = base64::prelude::BASE64_STANDARD.encode(doc.as_bytes());
    // The gateway wraps transport bodies in whitespace; decoding must cope.
    let mut wrapped = String::new();
    for (i, c) in raw.chars().enumerate() {
        if i > 0 && i % 8 == 0 {
            wrapped.push('\n');
        }
        wrapped.push(c);
    }
    wrapped.push('\n');
    wrapped
}

#[test]
fn delegate_owner_is_fixed() {
    assert_eq!(delegate_owner(), "luxass");
}

#[test]
fn plan_for_delegate_owner_uses_canonical_path() {
    let plan = config_fetch_plan("luxass", "mosaic");
    assert_eq!(plan.path, ".github/mosaic.toml");
    assert_eq!(plan.owner, "luxass");
    assert_eq!(plan.repo, "mosaic");
    assert!(!plan.external);
}

#[test]
fn plan_for_other_owner_uses_override_path() {
    let plan = config_fetch_plan("octocat", "hello-world");
    assert_eq!(plan.path, ".github/mosaic/octocat/hello-world.toml");
    assert_eq!(plan.owner, "luxass");
    assert_eq!(plan.repo, "luxass");
    assert!(plan.external);
}

#[test]
fn not_found_fetch_is_the_recoverable_not_found_error() {
    let r = resolve_fetched(ContentFetch::NotFound, true);
    assert!(matches!(r, Err(AppError::NotFound)));
}

#[test]
fn failed_fetch_carries_the_gateway_message() {
    let r = resolve_fetched(ContentFetch::Failed(String::from("rate limited")), false);
    match r {
        Err(AppError::GitHubError(m)) => assert_eq!(m, "rate limited"),
        other => panic!("unexpected outcome: {:?}", other),
    }
}

#[test]
fn empty_item_list_is_a_resolve_error() {
    let r = resolve_fetched(ContentFetch::Found(Vec::new()), false);
    match r {
        Err(AppError::ResolveConfigError(m)) => assert_eq!(m, "mosaic config not found"),
        other => panic!("unexpected outcome: {:?}", other),
    }
}

#[test]
fn absent_body_is_a_decode_error() {
    let r = resolve_fetched(ContentFetch::Found(vec![content_object(None)]), false);
    match r {
        Err(AppError::ResolveConfigError(m)) => assert_eq!(m, "could not decode mosaic config"),
        other => panic!("unexpected outcome: {:?}", other),
    }
}

#[test]
fn invalid_base64_is_a_decode_error() {
    let obj = content_object(Some("!!! not base64 !!!"));
    let r = resolve_fetched(ContentFetch::Found(vec![obj]), false);
    match r {
        Err(AppError::ResolveConfigError(m)) => assert_eq!(m, "could not decode mosaic config"),
        other => panic!("unexpected outcome: {:?}", other),
    }
}

#[test]
fn invalid_toml_is_a_resolve_error() {
    let obj = content_object(Some(&encoded("= this is not toml")));
    let r = resolve_fetched(ContentFetch::Found(vec![obj]), false);
    assert!(matches!(r, Err(AppError::ResolveConfigError(_))));
}

#[test]
fn missing_project_section_is_reported() {
    let obj = content_object(Some(&encoded("x = 1\n")));
    let r = resolve_fetched(ContentFetch::Found(vec![obj]), false);
    match r {
        Err(AppError::ResolveConfigError(m)) => assert_eq!(m, "missing field `project`"),
        other => panic!("unexpected outcome: {:?}", other),
    }
}

#[test]
fn minimal_config_gets_all_defaults() {
    let obj = content_object(Some(&encoded("[project]\n")));
    let r = resolve_fetched(ContentFetch::Found(vec![obj]), false).unwrap();
    assert!(!r.external);
    let p = &r.content.base_config.project;
    assert_eq!(p.name, None);
    assert_eq!(p.description, None);
    assert!(!p.stars);
    assert_eq!(p.priority, 10);
    assert!(!p.version);
    assert!(!p.ignore);
    assert_eq!(p.handle, None);
    assert!(p.deprecated.is_none());
    assert_eq!(p.alternative, None);
    assert!(r.content.base_config.readme.is_none());
    assert!(r.content.base_config.website.is_none());
    assert!(r.content.base_config.package.is_none());
    assert!(r.content.workspace.is_none());
}

#[test]
fn full_config_is_read_field_for_field() {
    let doc = "\
[project]\n\
name = \"mosaic\"\n\
description = \"an api\"\n\
stars = true\n\
priority = 3\n\
version = true\n\
ignore = false\n\
handle = \"mosaic-api\"\n\
alternative = \"other\"\n\
[project.deprecated]\n\
message = \"use other\"\n\
replacement = \"other\"\n\
[readme]\n\
enabled = true\n\
path = \"docs/README.md\"\n\
[website]\n\
enabled = true\n\
title = \"Mosaic\"\n\
keywords = [\"api\", \"projects\"]\n\
[package]\n\
enabled = true\n\
type = \"npm\"\n\
downloads = true\n\
name = \"mosaic-js\"\n\
";
    let obj = content_object(Some(&encoded(doc)));
    let r = resolve_fetched(ContentFetch::Found(vec![obj]), true).unwrap();
    assert!(r.external);
    let p = &r.content.base_config.project;
    assert_eq!(p.name.as_deref(), Some("mosaic"));
    assert_eq!(p.description.as_deref(), Some("an api"));
    assert!(p.stars);
    assert_eq!(p.priority, 3);
    assert!(p.version);
    assert!(!p.ignore);
    assert_eq!(p.handle.as_deref(), Some("mosaic-api"));
    let d = p.deprecated.as_ref().unwrap();
    assert_eq!(d.message, "use other");
    assert_eq!(d.replacement.as_deref(), Some("other"));
    assert_eq!(p.alternative.as_deref(), Some("other"));
    let readme = r.content.base_config.readme.as_ref().unwrap();
    assert!(readme.enabled);
    assert_eq!(readme.path.as_deref(), Some("docs/README.md"));
    let website = r.content.base_config.website.as_ref().unwrap();
    assert!(website.enabled);
    assert_eq!(website.title.as_deref(), Some("Mosaic"));
    let kw = website.keywords.as_ref().unwrap();
    assert_eq!(kw, &vec![String::from("api"), String::from("projects")]);
    let package = r.content.base_config.package.as_ref().unwrap();
    assert!(package.enabled);
    assert_eq!(package.package_type, Some(PackageType::NPM));
    assert!(package.downloads);
    assert_eq!(package.name.as_deref(), Some("mosaic-js"));
}

#[test]
fn package_type_spellings_are_the_documented_aliases() {
    for (spelling, expect) in [
        ("NPM", PackageType::NPM),
        ("npm", PackageType::NPM),
        ("node", PackageType::NPM),
        ("Cargo", PackageType::Cargo),
        ("cargo", PackageType::Cargo),
        ("crates", PackageType::Cargo),
        ("rust", PackageType::Cargo),
    ] {
        let doc = format!("[project]\n[package]\nenabled = false\ntype = \"{}\"\n", spelling);
        let obj = content_object(Some(&encoded(&doc)));
        let r = resolve_fetched(ContentFetch::Found(vec![obj]), false).unwrap();
        assert_eq!(r.content.base_config.package.unwrap().package_type, Some(expect));
    }
}

#[test]
fn unknown_package_type_is_reported_with_its_spelling() {
    let doc = "[project]\n[package]\nenabled = false\ntype = \"pip\"\n";
    let obj = content_object(Some(&encoded(doc)));
    let r = resolve_fetched(ContentFetch::Found(vec![obj]), false);
    match r {
        Err(AppError::ResolveConfigError(m)) => assert_eq!(m, "unknown package type `pip`"),
        other => panic!("unexpected outcome: {:?}", other),
    }
}

#[test]
fn priority_beyond_the_range_is_rejected() {
    let doc = "[project]\npriority = 300\n";
    let obj = content_object(Some(&encoded(doc)));
    let r = resolve_fetched(ContentFetch::Found(vec![obj]), false);
    match r {
        Err(AppError::ResolveConfigError(m)) => assert_eq!(m, "priority out of range"),
        other => panic!("unexpected outcome: {:?}", other),
    }
}

#[test]
fn wrongly_typed_field_is_reported_with_its_key() {
    let doc = "[project]\nname = 3\n";
    let obj = content_object(Some(&encoded(doc)));
    let r = resolve_fetched(ContentFetch::Found(vec![obj]), false);
    match r {
        Err(AppError::ResolveConfigError(m)) => assert_eq!(m, "wrong type for field `name`"),
        other => panic!("unexpected outcome: {:?}", other),
    }
}

#[test]
fn workspace_section_is_read_with_overrides() {
    let doc = "\
[project]\n\
[workspace]\n\
enabled = true\n\
ignores = [\"skip-me\"]\n\
[workspace.overrides.sub]\n\
project = { name = \"sub-project\", priority = 7 }\n\
";
    let obj = content_object(Some(&encoded(doc)));
    let r = resolve_fetched(ContentFetch::Found(vec![obj]), false).unwrap();
    let ws = r.content.workspace.unwrap();
    assert!(ws.enabled);
    assert_eq!(ws.ignores.unwrap(), vec![String::from("skip-me")]);
    let overrides = ws.overrides.unwrap();
    assert_eq!(overrides.len(), 1);
    assert_eq!(overrides[0].0, "sub");
    assert_eq!(overrides[0].1.project.name.as_deref(), Some("sub-project"));
    assert_eq!(overrides[0].1.project.priority, 7);
}
