//! Interpretation of a parsed value tree as a repository configuration.
//!
//! Every reader is total: a missing optional field falls back to its
//! default, a missing mandatory field or a field of the wrong kind is a
//! [`ConfigError`].  Unknown keys are ignored.
use vstd::prelude::*;

use crate::config::BaseConfigView;
use crate::config::BaseMosaicConfig;
use crate::config::Deprecated;
use crate::config::DeprecatedView;
use crate::config::MosaicConfig;
use crate::config::MosaicConfigView;
use crate::config::MosaicPackageConfig;
use crate::config::MosaicProjectConfig;
use crate::config::MosaicReadmeConfig;
use crate::config::MosaicWebsiteConfig;
use crate::config::MosaicWorkspaceConfig;
use crate::config::PackageConfigView;
use crate::config::PackageType;
use crate::config::ProjectConfigView;
use crate::config::ReadmeConfigView;
use crate::config::WebsiteConfigView;
use crate::config::WorkspaceConfigView;
use crate::toml_tree::ConfigValue;
use crate::toml_tree::spec_table_get;
use crate::toml_tree::table_get;

verus! {

/// Why a value tree is not a valid configuration.
#[derive(Debug, Clone)]
pub enum ConfigError {
    /// A mandatory field is absent; carries the field's key.
    Missing(String),
    /// A field holds a value of the wrong kind; carries the field's key.
    WrongType(String),
    /// A package type spelling that names no known registry; carries the
    /// spelling.
    BadPackageType(String),
    /// A priority outside the range a priority can hold; carries the value.
    PriorityOutOfRange(i64),
}

/// Mathematical image of [`ConfigError`].
pub enum ConfigErrView {
    Missing(Seq<char>),
    WrongType(Seq<char>),
    BadPackageType(Seq<char>),
    PriorityOutOfRange(i64),
}

impl View for ConfigError {
    type V = ConfigErrView;

    open spec fn view(&self) -> ConfigErrView {
        match self {
            ConfigError::Missing(k) => ConfigErrView::Missing(k@),
            ConfigError::WrongType(k) => ConfigErrView::WrongType(k@),
            ConfigError::BadPackageType(s) => ConfigErrView::BadPackageType(s@),
            ConfigError::PriorityOutOfRange(i) => ConfigErrView::PriorityOutOfRange(*i),
        }
    }
}

/// The text [`ConfigError::message`] renders for each error.
pub open spec fn s_err_message(e: ConfigErrView) -> Seq<char> {
    match e {
        ConfigErrView::Missing(k) => "missing field `"@ + k + "`"@,
        ConfigErrView::WrongType(k) => "wrong type for field `"@ + k + "`"@,
        ConfigErrView::BadPackageType(s) => "unknown package type `"@ + s + "`"@,
        ConfigErrView::PriorityOutOfRange(_) => "priority out of range"@,
    }
}

impl ConfigError {
    /// A human-readable account of the error.
    pub fn message(&self) -> (r: String)
        ensures
            r@ == s_err_message(self@),
    {
        match self {
            ConfigError::Missing(k) => {
                let mut m = String::new();
                m.append("missing field `");
                m.append(k.as_str());
                m.append("`");
                proof {
                    assert(m@ =~= "missing field `"@ + k@ + "`"@);
                }
                m
            },
            ConfigError::WrongType(k) => {
                let mut m = String::new();
                m.append("wrong type for field `");
                m.append(k.as_str());
                m.append("`");
                proof {
                    assert(m@ =~= "wrong type for field `"@ + k@ + "`"@);
                }
                m
            },
            ConfigError::BadPackageType(s) => {
                let mut m = String::new();
                m.append("unknown package type `");
                m.append(s.as_str());
                m.append("`");
                proof {
                    assert(m@ =~= "unknown package type `"@ + s@ + "`"@);
                }
                m
            },
            ConfigError::PriorityOutOfRange(_) => String::from_str("priority out of range"),
        }
    }
}

/// An optional string field: absent is `None`, any non-string is an error.
pub open spec fn s_opt_string(t: Seq<(String, ConfigValue)>, key: Seq<char>) -> Result<
    Option<Seq<char>>,
    ConfigErrView,
> {
    match spec_table_get(t, key) {
        None => Ok(None),
        Some(v) => match v {
            ConfigValue::Text(s) => Ok(Some(s@)),
            _ => Err(ConfigErrView::WrongType(key)),
        },
    }
}

/// A mandatory string field.
pub open spec fn s_req_string(t: Seq<(String, ConfigValue)>, key: Seq<char>) -> Result<
    Seq<char>,
    ConfigErrView,
> {
    match spec_table_get(t, key) {
        None => Err(ConfigErrView::Missing(key)),
        Some(v) => match v {
            ConfigValue::Text(s) => Ok(s@),
            _ => Err(ConfigErrView::WrongType(key)),
        },
    }
}

/// An optional boolean field defaulting to `false`.
pub open spec fn s_flag(t: Seq<(String, ConfigValue)>, key: Seq<char>) -> Result<
    bool,
    ConfigErrView,
> {
    match spec_table_get(t, key) {
        None => Ok(false),
        Some(v) => match v {
            ConfigValue::Boolean(b) => Ok(b),
            _ => Err(ConfigErrView::WrongType(key)),
        },
    }
}

/// A mandatory boolean field.
pub open spec fn s_req_flag(t: Seq<(String, ConfigValue)>, key: Seq<char>) -> Result<
    bool,
    ConfigErrView,
> {
    match spec_table_get(t, key) {
        None => Err(ConfigErrView::Missing(key)),
        Some(v) => match v {
            ConfigValue::Boolean(b) => Ok(b),
            _ => Err(ConfigErrView::WrongType(key)),
        },
    }
}

/// The `priority` field: absent defaults to 10; an integer must fit a `u8`.
pub open spec fn s_priority(t: Seq<(String, ConfigValue)>) -> Result<u8, ConfigErrView> {
    match spec_table_get(t, "priority"@) {
        None => Ok(10u8),
        Some(v) => match v {
            ConfigValue::Integer(i) => if 0 <= i <= 255 {
                Ok(i as u8)
            } else {
                Err(ConfigErrView::PriorityOutOfRange(i))
            },
            _ => Err(ConfigErrView::WrongType("priority"@)),
        },
    }
}

/// The registry named by a package-type spelling, if any.
pub open spec fn s_package_type_of(s: Seq<char>) -> Option<PackageType> {
    if s == "NPM"@ || s == "npm"@ || s == "node"@ {
        Some(PackageType::NPM)
    } else if s == "Cargo"@ || s == "cargo"@ || s == "crates"@ || s == "rust"@ {
        Some(PackageType::Cargo)
    } else {
        None
    }
}

/// The optional `type` field of a package section.
pub open spec fn s_package_type(t: Seq<(String, ConfigValue)>) -> Result<
    Option<PackageType>,
    ConfigErrView,
> {
    match spec_table_get(t, "type"@) {
        None => Ok(None),
        Some(v) => match v {
            ConfigValue::Text(s) => match s_package_type_of(s@) {
                Some(p) => Ok(Some(p)),
                None => Err(ConfigErrView::BadPackageType(s@)),
            },
            _ => Err(ConfigErrView::WrongType("type"@)),
        },
    }
}

/// The string a value holds, or the empty string for any other kind.
pub open spec fn text_view(v: ConfigValue) -> Seq<char> {
    match v {
        ConfigValue::Text(s) => s@,
        _ => Seq::empty(),
    }
}

/// Every value in the sequence is a string.
pub open spec fn all_text(items: Seq<ConfigValue>) -> bool {
    forall|i: int| 0 <= i < items.len() ==> items[i] is Text
}

/// An optional field holding an array of strings.
pub open spec fn s_string_list(t: Seq<(String, ConfigValue)>, key: Seq<char>) -> Result<
    Option<Seq<Seq<char>>>,
    ConfigErrView,
> {
    match spec_table_get(t, key) {
        None => Ok(None),
        Some(v) => match v {
            ConfigValue::Array(items) => if all_text(items@) {
                Ok(Some(items@.map_values(|x: ConfigValue| text_view(x))))
            } else {
                Err(ConfigErrView::WrongType(key))
            },
            _ => Err(ConfigErrView::WrongType(key)),
        },
    }
}

/// An optional sub-table field.
pub open spec fn s_opt_table(t: Seq<(String, ConfigValue)>, key: Seq<char>) -> Result<
    Option<Seq<(String, ConfigValue)>>,
    ConfigErrView,
> {
    match spec_table_get(t, key) {
        None => Ok(None),
        Some(v) => match v {
            ConfigValue::Table(e) => Ok(Some(e@)),
            _ => Err(ConfigErrView::WrongType(key)),
        },
    }
}

/// A mandatory sub-table field.
pub open spec fn s_req_table(t: Seq<(String, ConfigValue)>, key: Seq<char>) -> Result<
    Seq<(String, ConfigValue)>,
    ConfigErrView,
> {
    match spec_table_get(t, key) {
        None => Err(ConfigErrView::Missing(key)),
        Some(v) => match v {
            ConfigValue::Table(e) => Ok(e@),
            _ => Err(ConfigErrView::WrongType(key)),
        },
    }
}

/// A `deprecated` sub-table: a mandatory message, an optional replacement.
pub open spec fn s_deprecated(t: Seq<(String, ConfigValue)>) -> Result<
    DeprecatedView,
    ConfigErrView,
> {
    match s_req_string(t, "message"@) {
        Err(e) => Err(e),
        Ok(message) => match s_opt_string(t, "replacement"@) {
            Err(e) => Err(e),
            Ok(replacement) => Ok(DeprecatedView { message, replacement }),
        },
    }
}

/// The optional `deprecated` field of a project section.
pub open spec fn s_opt_deprecated(t: Seq<(String, ConfigValue)>) -> Result<
    Option<DeprecatedView>,
    ConfigErrView,
> {
    match s_opt_table(t, "deprecated"@) {
        Err(e) => Err(e),
        Ok(None) => Ok(None),
        Ok(Some(sub)) => match s_deprecated(sub) {
            Err(e) => Err(e),
            Ok(d) => Ok(Some(d)),
        },
    }
}

/// A `project` section.
pub open spec fn s_project(t: Seq<(String, ConfigValue)>) -> Result<
    ProjectConfigView,
    ConfigErrView,
> {
    match s_opt_string(t, "name"@) {
        Err(e) => Err(e),
        Ok(name) => match s_opt_string(t, "description"@) {
            Err(e) => Err(e),
            Ok(description) => match s_flag(t, "stars"@) {
                Err(e) => Err(e),
                Ok(stars) => match s_priority(t) {
                    Err(e) => Err(e),
                    Ok(priority) => match s_flag(t, "version"@) {
                        Err(e) => Err(e),
                        Ok(version) => match s_flag(t, "ignore"@) {
                            Err(e) => Err(e),
                            Ok(ignore) => match s_opt_string(t, "handle"@) {
                                Err(e) => Err(e),
                                Ok(handle) => match s_opt_deprecated(t) {
                                    Err(e) => Err(e),
                                    Ok(deprecated) => match s_opt_string(t, "alternative"@) {
                                        Err(e) => Err(e),
                                        Ok(alternative) => Ok(
                                            ProjectConfigView {
                                                name,
                                                description,
                                                stars,
                                                priority,
                                                version,
                                                ignore,
                                                handle,
                                                deprecated,
                                                alternative,
                                            },
                                        ),
                                    },
                                },
                            },
                        },
                    },
                },
            },
        },
    }
}

/// A `readme` section.
pub open spec fn s_readme(t: Seq<(String, ConfigValue)>) -> Result<ReadmeConfigView, ConfigErrView> {
    match s_req_flag(t, "enabled"@) {
        Err(e) => Err(e),
        Ok(enabled) => match s_opt_string(t, "path"@) {
            Err(e) => Err(e),
            Ok(path) => Ok(ReadmeConfigView { enabled, path }),
        },
    }
}

/// A `package` section.
pub open spec fn s_package(t: Seq<(String, ConfigValue)>) -> Result<
    PackageConfigView,
    ConfigErrView,
> {
    match s_req_flag(t, "enabled"@) {
        Err(e) => Err(e),
        Ok(enabled) => match s_package_type(t) {
            Err(e) => Err(e),
            Ok(package_type) => match s_flag(t, "downloads"@) {
                Err(e) => Err(e),
                Ok(downloads) => match s_opt_string(t, "name"@) {
                    Err(e) => Err(e),
                    Ok(name) => Ok(PackageConfigView { enabled, package_type, downloads, name }),
                },
            },
        },
    }
}

/// A `website` section.
pub open spec fn s_website(t: Seq<(String, ConfigValue)>) -> Result<
    WebsiteConfigView,
    ConfigErrView,
> {
    match s_req_flag(t, "enabled"@) {
        Err(e) => Err(e),
        Ok(enabled) => match s_opt_string(t, "title"@) {
            Err(e) => Err(e),
            Ok(title) => match s_opt_string(t, "description"@) {
                Err(e) => Err(e),
                Ok(description) => match s_opt_string(t, "url"@) {
                    Err(e) => Err(e),
                    Ok(url) => match s_string_list(t, "keywords"@) {
                        Err(e) => Err(e),
                        Ok(keywords) => Ok(
                            WebsiteConfigView { enabled, title, description, url, keywords },
                        ),
                    },
                },
            },
        },
    }
}

/// The optional `readme` field of a config.
pub open spec fn s_opt_readme(t: Seq<(String, ConfigValue)>) -> Result<
    Option<ReadmeConfigView>,
    ConfigErrView,
> {
    match s_opt_table(t, "readme"@) {
        Err(e) => Err(e),
        Ok(None) => Ok(None),
        Ok(Some(sub)) => match s_readme(sub) {
            Err(e) => Err(e),
            Ok(v) => Ok(Some(v)),
        },
    }
}

/// The optional `website` field of a config.
pub open spec fn s_opt_website(t: Seq<(String, ConfigValue)>) -> Result<
    Option<WebsiteConfigView>,
    ConfigErrView,
> {
    match s_opt_table(t, "website"@) {
        Err(e) => Err(e),
        Ok(None) => Ok(None),
        Ok(Some(sub)) => match s_website(sub) {
            Err(e) => Err(e),
            Ok(v) => Ok(Some(v)),
        },
    }
}

/// The optional `package` field of a config.
pub open spec fn s_opt_package(t: Seq<(String, ConfigValue)>) -> Result<
    Option<PackageConfigView>,
    ConfigErrView,
> {
    match s_opt_table(t, "package"@) {
        Err(e) => Err(e),
        Ok(None) => Ok(None),
        Ok(Some(sub)) => match s_package(sub) {
            Err(e) => Err(e),
            Ok(v) => Ok(Some(v)),
        },
    }
}

/// The sections shared by a top-level config and a workspace override.
pub open spec fn s_base(t: Seq<(String, ConfigValue)>) -> Result<BaseConfigView, ConfigErrView> {
    match s_req_table(t, "project"@) {
        Err(e) => Err(e),
        Ok(pt) => match s_project(pt) {
            Err(e) => Err(e),
            Ok(project) => match s_opt_readme(t) {
                Err(e) => Err(e),
                Ok(readme) => match s_opt_website(t) {
                    Err(e) => Err(e),
                    Ok(website) => match s_opt_package(t) {
                        Err(e) => Err(e),
                        Ok(package) => Ok(BaseConfigView { project, readme, website, package }),
                    },
                },
            },
        },
    }
}

/// Workspace overrides: every entry is a table read as a base config, in
/// the order the entries stand; the first offending entry decides the
/// error.
pub open spec fn s_overrides(entries: Seq<(String, ConfigValue)>) -> Result<
    Seq<(Seq<char>, BaseConfigView)>,
    ConfigErrView,
>
    decreases entries.len(),
{
    if entries.len() == 0 {
        Ok(Seq::empty())
    } else {
        match entries[0].1 {
            ConfigValue::Table(sub) => match s_base(sub@) {
                Err(e) => Err(e),
                Ok(b) => match s_overrides(entries.drop_first()) {
                    Err(e) => Err(e),
                    Ok(rest) => Ok(
                        Seq::<(Seq<char>, BaseConfigView)>::empty().push((entries[0].0@, b))
                            + rest,
                    ),
                },
            },
            _ => Err(ConfigErrView::WrongType(entries[0].0@)),
        }
    }
}

/// A finished prefix of overrides joined with the outcome of the rest.
pub open spec fn combine_overrides(
    prefix: Seq<(Seq<char>, BaseConfigView)>,
    r: Result<Seq<(Seq<char>, BaseConfigView)>, ConfigErrView>,
) -> Result<Seq<(Seq<char>, BaseConfigView)>, ConfigErrView> {
    match r {
        Ok(rest) => Ok(prefix + rest),
        Err(e) => Err(e),
    }
}

/// The optional `overrides` field of a workspace section.
pub open spec fn s_opt_overrides(t: Seq<(String, ConfigValue)>) -> Result<
    Option<Seq<(Seq<char>, BaseConfigView)>>,
    ConfigErrView,
> {
    match s_opt_table(t, "overrides"@) {
        Err(e) => Err(e),
        Ok(None) => Ok(None),
        Ok(Some(sub)) => match s_overrides(sub) {
            Err(e) => Err(e),
            Ok(v) => Ok(Some(v)),
        },
    }
}

/// A `workspace` section.
pub open spec fn s_workspace(t: Seq<(String, ConfigValue)>) -> Result<
    WorkspaceConfigView,
    ConfigErrView,
> {
    match s_req_flag(t, "enabled"@) {
        Err(e) => Err(e),
        Ok(enabled) => match s_string_list(t, "ignores"@) {
            Err(e) => Err(e),
            Ok(ignores) => match s_opt_overrides(t) {
                Err(e) => Err(e),
                Ok(overrides) => Ok(WorkspaceConfigView { enabled, ignores, overrides }),
            },
        },
    }
}

/// The optional `workspace` field of a config.
pub open spec fn s_opt_workspace(t: Seq<(String, ConfigValue)>) -> Result<
    Option<WorkspaceConfigView>,
    ConfigErrView,
> {
    match s_opt_table(t, "workspace"@) {
        Err(e) => Err(e),
        Ok(None) => Ok(None),
        Ok(Some(sub)) => match s_workspace(sub) {
            Err(e) => Err(e),
            Ok(v) => Ok(Some(v)),
        },
    }
}

/// A whole configuration from a document table.
pub open spec fn s_mosaic(t: Seq<(String, ConfigValue)>) -> Result<MosaicConfigView, ConfigErrView> {
    match s_base(t) {
        Err(e) => Err(e),
        Ok(base_config) => match s_opt_workspace(t) {
            Err(e) => Err(e),
            Ok(workspace) => Ok(MosaicConfigView { base_config, workspace }),
        },
    }
}

/// A whole configuration from the root of a value tree.
pub open spec fn s_config_root(root: ConfigValue) -> Result<MosaicConfigView, ConfigErrView> {
    match root {
        ConfigValue::Table(e) => s_mosaic(e@),
        _ => Err(ConfigErrView::WrongType("config"@)),
    }
}

/// Reads an optional string field.
pub fn opt_string(t: &Vec<(String, ConfigValue)>, key: &str) -> (r: Result<
    Option<String>,
    ConfigError,
>)
    ensures
        match r {
            Ok(v) => s_opt_string(t@, key@) == Ok::<Option<Seq<char>>, ConfigErrView>(
                v.deep_view(),
            ),
            Err(e) => s_opt_string(t@, key@) == Err::<Option<Seq<char>>, ConfigErrView>(e@),
        },
{
    match table_get(t, key) {
        None => Ok(None),
        Some(v) => match v {
            ConfigValue::Text(s) => Ok(Some(s.clone())),
            _ => Err(ConfigError::WrongType(key.to_owned())),
        },
    }
}

/// Reads a mandatory string field.
pub fn req_string(t: &Vec<(String, ConfigValue)>, key: &str) -> (r: Result<String, ConfigError>)
    ensures
        match r {
            Ok(v) => s_req_string(t@, key@) == Ok::<Seq<char>, ConfigErrView>(v@),
            Err(e) => s_req_string(t@, key@) == Err::<Seq<char>, ConfigErrView>(e@),
        },
{
    match table_get(t, key) {
        None => Err(ConfigError::Missing(key.to_owned())),
        Some(v) => match v {
            ConfigValue::Text(s) => Ok(s.clone()),
            _ => Err(ConfigError::WrongType(key.to_owned())),
        },
    }
}

/// Reads an optional boolean field defaulting to `false`.
pub fn flag(t: &Vec<(String, ConfigValue)>, key: &str) -> (r: Result<bool, ConfigError>)
    ensures
        match r {
            Ok(v) => s_flag(t@, key@) == Ok::<bool, ConfigErrView>(v),
            Err(e) => s_flag(t@, key@) == Err::<bool, ConfigErrView>(e@),
        },
{
    match table_get(t, key) {
        None => Ok(false),
        Some(v) => match v {
            ConfigValue::Boolean(b) => Ok(*b),
            _ => Err(ConfigError::WrongType(key.to_owned())),
        },
    }
}

/// Reads a mandatory boolean field.
pub fn req_flag(t: &Vec<(String, ConfigValue)>, key: &str) -> (r: Result<bool, ConfigError>)
    ensures
        match r {
            Ok(v) => s_req_flag(t@, key@) == Ok::<bool, ConfigErrView>(v),
            Err(e) => s_req_flag(t@, key@) == Err::<bool, ConfigErrView>(e@),
        },
{
    match table_get(t, key) {
        None => Err(ConfigError::Missing(key.to_owned())),
        Some(v) => match v {
            ConfigValue::Boolean(b) => Ok(*b),
            _ => Err(ConfigError::WrongType(key.to_owned())),
        },
    }
}

/// Reads the `priority` field.
pub fn priority_field(t: &Vec<(String, ConfigValue)>) -> (r: Result<u8, ConfigError>)
    ensures
        match r {
            Ok(v) => s_priority(t@) == Ok::<u8, ConfigErrView>(v),
            Err(e) => s_priority(t@) == Err::<u8, ConfigErrView>(e@),
        },
{
    match table_get(t, "priority") {
        None => Ok(10),
        Some(v) => match v {
            ConfigValue::Integer(i) => if 0 <= *i && *i <= 255 {
                Ok(*i as u8)
            } else {
                Err(ConfigError::PriorityOutOfRange(*i))
            },
            _ => Err(ConfigError::WrongType("priority".to_owned())),
        },
    }
}

/// Reads the `type` field of a package section.
pub fn package_type_field(t: &Vec<(String, ConfigValue)>) -> (r: Result<
    Option<PackageType>,
    ConfigError,
>)
    ensures
        match r {
            Ok(v) => s_package_type(t@) == Ok::<Option<PackageType>, ConfigErrView>(v),
            Err(e) => s_package_type(t@) == Err::<Option<PackageType>, ConfigErrView>(e@),
        },
{
    match table_get(t, "type") {
        None => Ok(None),
        Some(v) => match v {
            ConfigValue::Text(s) => {
                let sv = s.as_str();
                if crate::strutil::str_eq(sv, "NPM") || crate::strutil::str_eq(sv, "npm")
                    || crate::strutil::str_eq(sv, "node") {
                    Ok(Some(PackageType::NPM))
                } else if crate::strutil::str_eq(sv, "Cargo") || crate::strutil::str_eq(
                    sv,
                    "cargo",
                ) || crate::strutil::str_eq(sv, "crates") || crate::strutil::str_eq(sv, "rust") {
                    Ok(Some(PackageType::Cargo))
                } else {
                    Err(ConfigError::BadPackageType(s.clone()))
                }
            },
            _ => Err(ConfigError::WrongType("type".to_owned())),
        },
    }
}

/// Reads an optional array-of-strings field.
pub fn string_list(t: &Vec<(String, ConfigValue)>, key: &str) -> (r: Result<
    Option<Vec<String>>,
    ConfigError,
>)
    ensures
        match r {
            Ok(v) => s_string_list(t@, key@) == Ok::<Option<Seq<Seq<char>>>, ConfigErrView>(
                v.deep_view(),
            ),
            Err(e) => s_string_list(t@, key@) == Err::<Option<Seq<Seq<char>>>, ConfigErrView>(e@),
        },
{
    match table_get(t, key) {
        None => Ok(None),
        Some(v) => match v {
            ConfigValue::Array(items) => {
                let n = items.len();
                let mut out: Vec<String> = Vec::new();
                let mut i: usize = 0;
                proof {
                    assert(out.deep_view() =~= items@.take(0).map_values(
                        |x: ConfigValue| text_view(x),
                    ));
                }
                while i < n
                    invariant
                        i <= n,
                        n == items@.len(),
                        spec_table_get(t@, key@) == Some(ConfigValue::Array(*items)),
                        all_text(items@.take(i as int)),
                        out.deep_view() == items@.take(i as int).map_values(
                            |x: ConfigValue| text_view(x),
                        ),
                    decreases n - i,
                {
                    match &items[i] {
                        ConfigValue::Text(s) => {
                            out.push(s.clone());
                            proof {
                                assert(items@.take(i + 1).map_values(
                                    |x: ConfigValue| text_view(x),
                                ) =~= items@.take(i as int).map_values(
                                    |x: ConfigValue| text_view(x),
                                ).push(items@[i as int]->Text_0@));
                                assert(out.deep_view() =~= items@.take(i + 1).map_values(
                                    |x: ConfigValue| text_view(x),
                                ));
                            }
                        },
                        _ => {
                            proof {
                                assert(!all_text(items@));
                            }
                            return Err(ConfigError::WrongType(key.to_owned()));
                        },
                    }
                    i = i + 1;
                }
                proof {
                    assert(items@.take(n as int) =~= items@);
                }
                Ok(Some(out))
            },
            _ => Err(ConfigError::WrongType(key.to_owned())),
        },
    }
}

/// Reads an optional sub-table field.
pub fn opt_table<'a>(t: &'a Vec<(String, ConfigValue)>, key: &str) -> (r: Result<
    Option<&'a Vec<(String, ConfigValue)>>,
    ConfigError,
>)
    ensures
        match r {
            Ok(None) => s_opt_table(t@, key@) == Ok::<
                Option<Seq<(String, ConfigValue)>>,
                ConfigErrView,
            >(None),
            Ok(Some(e)) => s_opt_table(t@, key@) == Ok::<
                Option<Seq<(String, ConfigValue)>>,
                ConfigErrView,
            >(Some(e@)),
            Err(e) => s_opt_table(t@, key@) == Err::<
                Option<Seq<(String, ConfigValue)>>,
                ConfigErrView,
            >(e@),
        },
{
    match table_get(t, key) {
        None => Ok(None),
        Some(v) => match v {
            ConfigValue::Table(e) => Ok(Some(e)),
            _ => Err(ConfigError::WrongType(key.to_owned())),
        },
    }
}

/// Reads a mandatory sub-table field.
pub fn req_table<'a>(t: &'a Vec<(String, ConfigValue)>, key: &str) -> (r: Result<
    &'a Vec<(String, ConfigValue)>,
    ConfigError,
>)
    ensures
        match r {
            Ok(e) => s_req_table(t@, key@) == Ok::<Seq<(String, ConfigValue)>, ConfigErrView>(e@),
            Err(e) => s_req_table(t@, key@) == Err::<Seq<(String, ConfigValue)>, ConfigErrView>(
                e@,
            ),
        },
{
    match table_get(t, key) {
        None => Err(ConfigError::Missing(key.to_owned())),
        Some(v) => match v {
            ConfigValue::Table(e) => Ok(e),
            _ => Err(ConfigError::WrongType(key.to_owned())),
        },
    }
}

/// Reads a `deprecated` sub-table.
pub fn deprecated_from_table(t: &Vec<(String, ConfigValue)>) -> (r: Result<Deprecated, ConfigError>)
    ensures
        match r {
            Ok(d) => s_deprecated(t@) == Ok::<DeprecatedView, ConfigErrView>(d@),
            Err(e) => s_deprecated(t@) == Err::<DeprecatedView, ConfigErrView>(e@),
        },
{
    let message = match req_string(t, "message") {
        Ok(v) => v,
        Err(e) => { return Err(e); },
    };
    let replacement = match opt_string(t, "replacement") {
        Ok(v) => v,
        Err(e) => { return Err(e); },
    };
    Ok(Deprecated { message, replacement })
}

/// Reads the optional `deprecated` field of a project section.
pub fn opt_deprecated(t: &Vec<(String, ConfigValue)>) -> (r: Result<Option<Deprecated>, ConfigError>)
    ensures
        match r {
            Ok(d) => s_opt_deprecated(t@) == Ok::<Option<DeprecatedView>, ConfigErrView>(
                d.deep_view(),
            ),
            Err(e) => s_opt_deprecated(t@) == Err::<Option<DeprecatedView>, ConfigErrView>(e@),
        },
{
    match opt_table(t, "deprecated") {
        Err(e) => Err(e),
        Ok(None) => Ok(None),
        Ok(Some(sub)) => match deprecated_from_table(sub) {
            Err(e) => Err(e),
            Ok(d) => Ok(Some(d)),
        },
    }
}

/// Reads a `project` section.
pub fn project_from_table(t: &Vec<(String, ConfigValue)>) -> (r: Result<
    MosaicProjectConfig,
    ConfigError,
>)
    ensures
        match r {
            Ok(c) => s_project(t@) == Ok::<ProjectConfigView, ConfigErrView>(c@),
            Err(e) => s_project(t@) == Err::<ProjectConfigView, ConfigErrView>(e@),
        },
{
    let name = match opt_string(t, "name") {
        Ok(v) => v,
        Err(e) => { return Err(e); },
    };
    let description = match opt_string(t, "description") {
        Ok(v) => v,
        Err(e) => { return Err(e); },
    };
    let stars = match flag(t, "stars") {
        Ok(v) => v,
        Err(e) => { return Err(e); },
    };
    let priority = match priority_field(t) {
        Ok(v) => v,
        Err(e) => { return Err(e); },
    };
    let version = match flag(t, "version") {
        Ok(v) => v,
        Err(e) => { return Err(e); },
    };
    let ignore = match flag(t, "ignore") {
        Ok(v) => v,
        Err(e) => { return Err(e); },
    };
    let handle = match opt_string(t, "handle") {
        Ok(v) => v,
        Err(e) => { return Err(e); },
    };
    let deprecated = match opt_deprecated(t) {
        Ok(v) => v,
        Err(e) => { return Err(e); },
    };
    let alternative = match opt_string(t, "alternative") {
        Ok(v) => v,
        Err(e) => { return Err(e); },
    };
    Ok(
        MosaicProjectConfig {
            name,
            description,
            stars,
            priority,
            version,
            ignore,
            handle,
            deprecated,
            alternative,
        },
    )
}

/// Reads a `readme` section.
pub fn readme_from_table(t: &Vec<(String, ConfigValue)>) -> (r: Result<
    MosaicReadmeConfig,
    ConfigError,
>)
    ensures
        match r {
            Ok(c) => s_readme(t@) == Ok::<ReadmeConfigView, ConfigErrView>(c@),
            Err(e) => s_readme(t@) == Err::<ReadmeConfigView, ConfigErrView>(e@),
        },
{
    let enabled = match req_flag(t, "enabled") {
        Ok(v) => v,
        Err(e) => { return Err(e); },
    };
    let path = match opt_string(t, "path") {
        Ok(v) => v,
        Err(e) => { return Err(e); },
    };
    Ok(MosaicReadmeConfig { enabled, path })
}

/// Reads a `package` section.
pub fn package_from_table(t: &Vec<(String, ConfigValue)>) -> (r: Result<
    MosaicPackageConfig,
    ConfigError,
>)
    ensures
        match r {
            Ok(c) => s_package(t@) == Ok::<PackageConfigView, ConfigErrView>(c@),
            Err(e) => s_package(t@) == Err::<PackageConfigView, ConfigErrView>(e@),
        },
{
    let enabled = match req_flag(t, "enabled") {
        Ok(v) => v,
        Err(e) => { return Err(e); },
    };
    let package_type = match package_type_field(t) {
        Ok(v) => v,
        Err(e) => { return Err(e); },
    };
    let downloads = match flag(t, "downloads") {
        Ok(v) => v,
        Err(e) => { return Err(e); },
    };
    let name = match opt_string(t, "name") {
        Ok(v) => v,
        Err(e) => { return Err(e); },
    };
    Ok(MosaicPackageConfig { enabled, package_type, downloads, name })
}

/// Reads a `website` section.
pub fn website_from_table(t: &Vec<(String, ConfigValue)>) -> (r: Result<
    MosaicWebsiteConfig,
    ConfigError,
>)
    ensures
        match r {
            Ok(c) => s_website(t@) == Ok::<WebsiteConfigView, ConfigErrView>(c@),
            Err(e) => s_website(t@) == Err::<WebsiteConfigView, ConfigErrView>(e@),
        },
{
    let enabled = match req_flag(t, "enabled") {
        Ok(v) => v,
        Err(e) => { return Err(e); },
    };
    let title = match opt_string(t, "title") {
        Ok(v) => v,
        Err(e) => { return Err(e); },
    };
    let description = match opt_string(t, "description") {
        Ok(v) => v,
        Err(e) => { return Err(e); },
    };
    let url = match opt_string(t, "url") {
        Ok(v) => v,
        Err(e) => { return Err(e); },
    };
    let keywords = match string_list(t, "keywords") {
        Ok(v) => v,
        Err(e) => { return Err(e); },
    };
    Ok(MosaicWebsiteConfig { enabled, title, description, url, keywords })
}

/// Reads the sections shared by a top-level config and a workspace override.
pub fn base_from_table(t: &Vec<(String, ConfigValue)>) -> (r: Result<BaseMosaicConfig, ConfigError>)
    ensures
        match r {
            Ok(c) => s_base(t@) == Ok::<BaseConfigView, ConfigErrView>(c@),
            Err(e) => s_base(t@) == Err::<BaseConfigView, ConfigErrView>(e@),
        },
{
    let pt = match req_table(t, "project") {
        Ok(v) => v,
        Err(e) => { return Err(e); },
    };
    let project = match project_from_table(pt) {
        Ok(v) => v,
        Err(e) => { return Err(e); },
    };
    let readme = match opt_table(t, "readme") {
        Ok(None) => None,
        Ok(Some(sub)) => match readme_from_table(sub) {
            Ok(v) => Some(v),
            Err(e) => { return Err(e); },
        },
        Err(e) => { return Err(e); },
    };
    let website = match opt_table(t, "website") {
        Ok(None) => None,
        Ok(Some(sub)) => match website_from_table(sub) {
            Ok(v) => Some(v),
            Err(e) => { return Err(e); },
        },
        Err(e) => { return Err(e); },
    };
    let package = match opt_table(t, "package") {
        Ok(None) => None,
        Ok(Some(sub)) => match package_from_table(sub) {
            Ok(v) => Some(v),
            Err(e) => { return Err(e); },
        },
        Err(e) => { return Err(e); },
    };
    Ok(BaseMosaicConfig { project, readme, website, package })
}

/// Reads a table of workspace overrides.
pub fn overrides_from_table(entries: &Vec<(String, ConfigValue)>) -> (r: Result<
    Vec<(String, BaseMosaicConfig)>,
    ConfigError,
>)
    ensures
        match r {
            Ok(v) => s_overrides(entries@) == Ok::<Seq<(Seq<char>, BaseConfigView)>, ConfigErrView>(
                v.deep_view(),
            ),
            Err(e) => s_overrides(entries@) == Err::<
                Seq<(Seq<char>, BaseConfigView)>,
                ConfigErrView,
            >(e@),
        },
{
    let n = entries.len();
    let mut out: Vec<(String, BaseMosaicConfig)> = Vec::new();
    let mut i: usize = 0;
    proof {
        assert(entries@.skip(0) =~= entries@);
        assert(out.deep_view() =~= Seq::<(Seq<char>, BaseConfigView)>::empty());
    }
    while i < n
        invariant
            i <= n,
            n == entries@.len(),
            s_overrides(entries@) == combine_overrides(
                out.deep_view(),
                s_overrides(entries@.skip(i as int)),
            ),
        decreases n - i,
    {
        proof {
            assert(entries@.skip(i as int)[0] == entries@[i as int]);
            assert(entries@.skip(i as int).drop_first() =~= entries@.skip(i + 1));
        }
        let k = &entries[i].0;
        match &entries[i].1 {
            ConfigValue::Table(sub) => {
                match base_from_table(sub) {
                    Ok(b) => {
                        let ghost p = out.deep_view();
                        let ghost x = (k@, b@);
                        out.push((k.clone(), b));
                        proof {
                            assert(out.deep_view() =~= p.push(x));
                            let so = s_overrides(entries@.skip(i + 1));
                            if so is Ok {
                                let rest = so->Ok_0;
                                assert(p + (Seq::<(Seq<char>, BaseConfigView)>::empty().push(x)
                                    + rest) =~= p.push(x) + rest);
                            }
                        }
                    },
                    Err(e) => { return Err(e); },
                }
            },
            _ => { return Err(ConfigError::WrongType(k.clone())); },
        }
        i = i + 1;
    }
    proof {
        assert(entries@.skip(n as int) =~= Seq::<(String, ConfigValue)>::empty());
        assert(out.deep_view() + Seq::<(Seq<char>, BaseConfigView)>::empty() =~= out.deep_view());
    }
    Ok(out)
}

/// Reads a `workspace` section.
pub fn workspace_from_table(t: &Vec<(String, ConfigValue)>) -> (r: Result<
    MosaicWorkspaceConfig,
    ConfigError,
>)
    ensures
        match r {
            Ok(c) => s_workspace(t@) == Ok::<WorkspaceConfigView, ConfigErrView>(c@),
            Err(e) => s_workspace(t@) == Err::<WorkspaceConfigView, ConfigErrView>(e@),
        },
{
    let enabled = match req_flag(t, "enabled") {
        Ok(v) => v,
        Err(e) => { return Err(e); },
    };
    let ignores = match string_list(t, "ignores") {
        Ok(v) => v,
        Err(e) => { return Err(e); },
    };
    let overrides = match opt_table(t, "overrides") {
        Ok(None) => None,
        Ok(Some(sub)) => match overrides_from_table(sub) {
            Ok(v) => Some(v),
            Err(e) => { return Err(e); },
        },
        Err(e) => { return Err(e); },
    };
    Ok(MosaicWorkspaceConfig { enabled, ignores, overrides })
}

/// Reads a whole configuration from a document table.
pub fn mosaic_from_table(t: &Vec<(String, ConfigValue)>) -> (r: Result<MosaicConfig, ConfigError>)
    ensures
        match r {
            Ok(c) => s_mosaic(t@) == Ok::<MosaicConfigView, ConfigErrView>(c@),
            Err(e) => s_mosaic(t@) == Err::<MosaicConfigView, ConfigErrView>(e@),
        },
{
    let base_config = match base_from_table(t) {
        Ok(v) => v,
        Err(e) => { return Err(e); },
    };
    let workspace = match opt_table(t, "workspace") {
        Ok(None) => None,
        Ok(Some(sub)) => match workspace_from_table(sub) {
            Ok(v) => Some(v),
            Err(e) => { return Err(e); },
        },
        Err(e) => { return Err(e); },
    };
    Ok(MosaicConfig { base_config, workspace })
}

/// Reads a whole configuration from the root of a value tree.
pub fn config_from_tree(root: &ConfigValue) -> (r: Result<MosaicConfig, ConfigError>)
    ensures
        match r {
            Ok(c) => s_config_root(*root) == Ok::<MosaicConfigView, ConfigErrView>(c@),
            Err(e) => s_config_root(*root) == Err::<MosaicConfigView, ConfigErrView>(e@),
        },
{
    match root {
        ConfigValue::Table(e) => mosaic_from_table(e),
        _ => Err(ConfigError::WrongType("config".to_owned())),
    }
}

} // verus!
