//! The static configuration: the installer window's section and the target
//! application's section, read once at startup from one JSON document and
//! immutable afterwards.

use vstd::prelude::*;
use vstd::string::StrSliceExecFns;
use crate::json::{get_nested_str_field, json_nested_str_field};
use crate::text::{contains_char, safe_path, check_safe_path};

verus! {

/// The installer's own section: the window title.
#[derive(Clone, Debug)]
pub struct InstallerConfig {
    pub title: String,
}

/// The target application's section: display name, package name (also the
/// stem of the launcher entry file), and the icon's path relative to the
/// installer's working directory.
#[derive(Clone, Debug)]
pub struct AppConfig {
    pub name: String,
    pub package_name: String,
    pub icon: String,
}

/// Both sections together.
#[derive(Clone, Debug)]
pub struct Config {
    pub installer: InstallerConfig,
    pub app: AppConfig,
}

/// A usable display name: non-empty and free of newlines, so that it fills
/// exactly one line of the launcher entry.
pub open spec fn valid_name(s: Seq<char>) -> bool {
    s.len() > 0 && !contains_char(s, '\n')
}

/// A usable package name: a safe path with no separator, so that
/// `<package_name>.desktop` names one file in one directory.
pub open spec fn valid_package_name(s: Seq<char>) -> bool {
    safe_path(s) && !contains_char(s, '/')
}

impl AppConfig {
    /// The application section is usable: every field that reaches a file
    /// name or a shell command is non-empty and safely formed.
    pub open spec fn valid(&self) -> bool {
        valid_name(self.name@) && valid_package_name(self.package_name@) && safe_path(
            self.icon@,
        )
    }
}

impl Config {
    pub open spec fn valid(&self) -> bool {
        self.app.valid()
    }
}

/// Everything that can be wrong with the configuration document, one
/// variant per required field: the field is absent (or not a string), or
/// present but unusable.
#[derive(Clone, Copy, PartialEq, Eq, Structural, Debug)]
pub enum ConfigError {
    MissingTitle,
    MissingName,
    MissingPackageName,
    MissingIcon,
    InvalidName,
    InvalidPackageName,
    InvalidIcon,
}

/// Parse and validate the configuration document. Fields are demanded in a
/// fixed order — title, name, package name, icon — and the first missing
/// one is reported; then each is validated in the same order. Success is
/// owed exactly when all four fields are present and usable.
pub fn parse_config(text: &str) -> (r: Result<Config, ConfigError>)
    ensures
        ({
            let title = json_nested_str_field(text@, "installer"@, "title"@);
            let name = json_nested_str_field(text@, "app"@, "name"@);
            let pkg = json_nested_str_field(text@, "app"@, "package_name"@);
            let icon = json_nested_str_field(text@, "app"@, "icon"@);
            match r {
                Ok(c) => {
                    &&& title == Some(c.installer.title@)
                    &&& name == Some(c.app.name@)
                    &&& pkg == Some(c.app.package_name@)
                    &&& icon == Some(c.app.icon@)
                    &&& c.valid()
                },
                Err(e) => match e {
                    ConfigError::MissingTitle => title is None,
                    ConfigError::MissingName => title is Some && name is None,
                    ConfigError::MissingPackageName => title is Some && name is Some
                        && pkg is None,
                    ConfigError::MissingIcon => title is Some && name is Some && pkg is Some
                        && icon is None,
                    ConfigError::InvalidName => title is Some && pkg is Some && icon is Some
                        && (name matches Some(n) && !valid_name(n)),
                    ConfigError::InvalidPackageName => title is Some && icon is Some && (
                    name matches Some(n) && valid_name(n)) && (pkg matches Some(p)
                        && !valid_package_name(p)),
                    ConfigError::InvalidIcon => title is Some && (name matches Some(n)
                        && valid_name(n)) && (pkg matches Some(p) && valid_package_name(p)) && (
                    icon matches Some(ic) && !safe_path(ic)),
                },
            }
        }),
{
    let title = match get_nested_str_field(text, "installer", "title") {
        Some(t) => t,
        None => {
            return Err(ConfigError::MissingTitle);
        },
    };
    let name = match get_nested_str_field(text, "app", "name") {
        Some(t) => t,
        None => {
            return Err(ConfigError::MissingName);
        },
    };
    let pkg = match get_nested_str_field(text, "app", "package_name") {
        Some(t) => t,
        None => {
            return Err(ConfigError::MissingPackageName);
        },
    };
    let icon = match get_nested_str_field(text, "app", "icon") {
        Some(t) => t,
        None => {
            return Err(ConfigError::MissingIcon);
        },
    };
    if name.as_str().unicode_len() == 0 || contains_name_newline(name.as_str()) {
        return Err(ConfigError::InvalidName);
    }
    if !check_safe_path(pkg.as_str()) || contains_slash(pkg.as_str()) {
        return Err(ConfigError::InvalidPackageName);
    }
    if !check_safe_path(icon.as_str()) {
        return Err(ConfigError::InvalidIcon);
    }
    Ok(Config { installer: InstallerConfig { title }, app: AppConfig { name, package_name: pkg, icon } })
}

/// Does the name hold a newline?
fn contains_name_newline(s: &str) -> (r: bool)
    ensures
        r == contains_char(s@, '\n'),
{
    match crate::text::find_char(s, '\n') {
        Some(_) => true,
        None => false,
    }
}

/// Does the path hold a separator?
fn contains_slash(s: &str) -> (r: bool)
    ensures
        r == contains_char(s@, '/'),
{
    match crate::text::find_char(s, '/') {
        Some(_) => true,
        None => false,
    }
}

} // verus!
