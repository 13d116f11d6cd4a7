use mosaic::error::AppError;

#[test]
fn each_error_renders_its_message() {
    assert_eq!(AppError::NotFound.message(), "Not found");
    assert_eq!(AppError::IgnoredProject.message(), "Ignored project");
    assert_eq!(AppError::Unknown.message(), "unknown error");
    assert_eq!(
        AppError::TaskError(String::from("failed to fetch ignored projects")).message(),
        "Task error: failed to fetch ignored projects"
    );
    assert_eq!(
        AppError::GitHubError(String::from("rate limited")).message(),
        "GitHub error: rate limited"
    );
    assert_eq!(
        AppError::ParseConfigError(String::from("bad json")).message(),
        "parse config error: bad json"
    );
    assert_eq!(
        AppError::ResolveConfigError(String::from("mosaic config not found")).message(),
        "config error: mosaic config not found"
    );
    assert_eq!(AppError::SqlxError(String::from("down")).message(), "SQLx error: down");
}

#[test]
fn only_not_found_and_policy_rejections_are_client_visible() {
    assert_eq!(AppError::NotFound.status_code(), 404);
    assert_eq!(AppError::IgnoredProject.status_code(), 403);
    assert_eq!(AppError::Unknown.status_code(), 500);
    assert_eq!(AppError::TaskError(String::from("x")).status_code(), 500);
    assert_eq!(AppError::GitHubError(String::from("x")).status_code(), 500);
    assert_eq!(AppError::ParseConfigError(String::from("x")).status_code(), 500);
    assert_eq!(AppError::ResolveConfigError(String::from("x")).status_code(), 500);
    assert_eq!(AppError::SqlxError(String::from("x")).status_code(), 500);
}
