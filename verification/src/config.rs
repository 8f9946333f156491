//! Where the configuration lives, and who may operate which service.

use vstd::prelude::*;
use crate::error::{checked, AppError, AppErrorView};
use crate::git;
use crate::minecraft;
use crate::text::{chain, chain3, same_text};

verus! {

/// A service of the host and what is asked of it.
#[allow(inconsistent_fields)]
#[derive(Debug)]
pub enum Service {
    /// The Minecraft server.
    Minecraft { operation: Option<minecraft::Operation> },
    /// The git server.
    Git { operation: Option<git::Operation> },
}

impl Service {
    /// The user that the service runs as.
    pub open spec fn owner(self) -> Seq<char> {
        match self {
            Service::Minecraft { .. } => "minecraft"@,
            Service::Git { .. } => "git"@,
        }
    }
}

/// The configuration directory: below the home of the user who called sudo,
/// else below `home`; none where neither is known.
pub open spec fn config_dir(sudo_user: Option<Seq<char>>, home: Option<Seq<char>>) -> Option<
    Seq<char>,
> {
    match (sudo_user, home) {
        (Some(user), _) => Some("/home/"@ + user + "/.config/hutctl"@),
        (None, Some(home)) => Some(home + "/.config/hutctl"@),
        (None, None) => None,
    }
}

/// The characters of an optional text.
pub open spec fn str_view(text: Option<&str>) -> Option<Seq<char>> {
    match text {
        Some(t) => Some(t@),
        None => None,
    }
}

/// The characters of an optional text.
pub open spec fn string_view(text: Option<String>) -> Option<Seq<char>> {
    match text {
        Some(t) => Some(t@),
        None => None,
    }
}

/// The configuration directory, from the name of the user who called sudo
/// and the home directory, as far as the environment gives them.
pub fn build_config_path(sudo_user: Option<&str>, home: Option<&str>) -> (r: Option<String>)
    ensures
        string_view(r) == config_dir(str_view(sudo_user), str_view(home)),
{
    match (sudo_user, home) {
        (Some(user), _) => Some(chain3("/home/", user, "/.config/hutctl")),
        (None, Some(home)) => Some(chain(home, "/.config/hutctl")),
        (None, None) => None,
    }
}

/// The file that holds the task list in development: `habitica_tasks.json`
/// in the configuration directory.
pub fn get_json_path(sudo_user: Option<&str>, home: Option<&str>) -> (r: Option<String>)
    ensures
        string_view(r) == match config_dir(str_view(sudo_user), str_view(home)) {
            Some(dir) => Some(dir + "/habitica_tasks.json"@),
            None => None,
        },
{
    match build_config_path(sudo_user, home) {
        Some(dir) => Some(chain(dir.as_str(), "/habitica_tasks.json")),
        None => None,
    }
}

/// Whether `user` may operate `service`: root may, anyone may while
/// debugging, and else only the user that the service runs as.
pub fn assert_correct_permissions(is_root: bool, debug: bool, user: &str, service: &Service) -> (r:
    Result<(), AppError>)
    ensures
        checked(r) == if is_root || debug || user@ == service.owner() {
            Ok::<(), AppErrorView>(())
        } else {
            Err::<(), AppErrorView>(
                AppErrorView::AclError("Performing operation failed: Unauthorized access"@),
            )
        },
{
    if is_root || debug {
        return Ok(());
    }
    let allowed = match service {
        Service::Minecraft { .. } => same_text(user, "minecraft"),
        Service::Git { .. } => same_text(user, "git"),
    };
    if allowed {
        Ok(())
    } else {
        Err(AppError::AclError("Performing operation failed: Unauthorized access".to_owned()))
    }
}

} // verus!
