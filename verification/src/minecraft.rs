//! The rules for operating the Minecraft server: which instance is meant,
//! which requests are refused, and whether a download is the one announced.

use vstd::prelude::*;
use crate::error::{checked, found, AppError, AppErrorView};
use crate::text::{chain, chain3, same_text, split_at, split_on};

verus! {

/// What can be asked of the Minecraft server.
#[allow(inconsistent_fields)]
#[derive(Debug)]
pub enum Operation {
    Init { target: String },
    Start { target: String },
    Stop { target: Option<String> },
    Restart { target: Option<String> },
    Status { target: Option<String> },
    Backup { target: Option<String> },
    Update { target: Option<String> },
}

/// Whether `op` is an operation of the service manager that the server is
/// run with.
pub open spec fn is_systemctl_operation(op: Seq<char>) -> bool {
    op == "start"@ || op == "stop"@ || op == "restart"@ || op == "enable"@ || op == "disable"@
        || op == "status"@
}

/// The directory of the instance `target`.
pub fn target_dir(target: &str) -> (r: String)
    ensures
        r@ == "/home/minecraft/"@ + target@,
{
    chain("/home/minecraft/", target)
}

/// Refuses to go on where the service template is not installed.
/// `template_present` says whether its unit file exists.
pub fn assert_service_installed(template_present: bool) -> (r: Result<(), AppError>)
    ensures
        checked(r) == if template_present {
            Ok::<(), AppErrorView>(())
        } else {
            Err::<(), AppErrorView>(
                AppErrorView::ServiceError("Minecraft template service does not exist."@),
            )
        },
{
    if template_present {
        Ok(())
    } else {
        Err(AppError::ServiceError("Minecraft template service does not exist.".to_owned()))
    }
}

/// Refuses to go on where the instance `target` does not exist.
/// `present` says whether its directory exists.
pub fn assert_target_exists(target: &String, present: bool) -> (r: Result<(), AppError>)
    ensures
        checked(r) == if present {
            Ok::<(), AppErrorView>(())
        } else {
            Err::<(), AppErrorView>(
                AppErrorView::ServiceError(
                    "target: "@ + target@
                        + " does not exist. Did you mean to call 'homectl minecraft init "@
                        + target@ + "'?"@,
                ),
            )
        },
{
    if present {
        Ok(())
    } else {
        let mut message = chain3(
            "target: ",
            target.as_str(),
            " does not exist. Did you mean to call 'homectl minecraft init ",
        );
        message.append(target.as_str());
        message.append("'?");
        Err(AppError::ServiceError(message))
    }
}

/// Refuses to set up the instance `target` where it exists already.
pub fn assert_target_is_new(target: &String, present: bool) -> (r: Result<(), AppError>)
    ensures
        checked(r) == if !present {
            Ok::<(), AppErrorView>(())
        } else {
            Err::<(), AppErrorView>(
                AppErrorView::ServiceError(
                    "initialization failed: "@ + target@ + " already exists"@,
                ),
            )
        },
{
    if !present {
        Ok(())
    } else {
        Err(
            AppError::ServiceError(
                chain3("initialization failed: ", target.as_str(), " already exists"),
            ),
        )
    }
}

/// The unit of the service manager for `op` on the instance `target`;
/// refused where `op` is no operation of the service manager.
pub fn systemctl_unit(op: &str, target: &str) -> (r: Result<String, AppError>)
    ensures
        found(r) == if is_systemctl_operation(op@) {
            Ok::<Seq<char>, AppErrorView>("minecraft@"@ + target@)
        } else {
            Err::<Seq<char>, AppErrorView>(
                AppErrorView::CmdError("invalid systemctl operation: "@ + op@ + "."@),
            )
        },
{
    let known = same_text(op, "start") || same_text(op, "stop") || same_text(op, "restart")
        || same_text(op, "enable") || same_text(op, "disable") || same_text(op, "status");
    if known {
        Ok(chain("minecraft@", target))
    } else {
        Err(AppError::CmdError(chain3("invalid systemctl operation: ", op, ".")))
    }
}

/// The enabled instance, from what the file of the enabled instance holds;
/// refused where it holds nothing.
pub fn get_enabled_instance(enabled: &str) -> (r: Result<String, AppError>)
    ensures
        found(r) == if enabled@.len() == 0 {
            Err::<Seq<char>, AppErrorView>(AppErrorView::ServiceError("no service enabled."@))
        } else {
            Ok::<Seq<char>, AppErrorView>(enabled@)
        },
{
    if enabled.unicode_len() == 0 {
        Err(AppError::ServiceError("no service enabled.".to_owned()))
    } else {
        Ok(enabled.to_owned())
    }
}

/// The instance that an operation is about: `target` where one is given,
/// else the enabled instance.
pub fn get_target_or_enabled(target: Option<String>, enabled: &str) -> (r: Result<String, AppError>)
    ensures
        found(r) == match target {
            Some(t) => Ok::<Seq<char>, AppErrorView>(t@),
            None => if enabled@.len() == 0 {
                Err::<Seq<char>, AppErrorView>(AppErrorView::ServiceError("no service enabled."@))
            } else {
                Ok::<Seq<char>, AppErrorView>(enabled@)
            },
        },
{
    match target {
        Some(t) => Ok(t),
        None => get_enabled_instance(enabled),
    }
}

/// Refuses to disable an instance that is not the enabled one.
pub fn assert_enabled(enabled: &str, target: &str) -> (r: Result<(), AppError>)
    ensures
        checked(r) == if enabled@ == target@ {
            Ok::<(), AppErrorView>(())
        } else {
            Err::<(), AppErrorView>(
                AppErrorView::ServiceError(
                    "cannot disable target: "@ + target@ + ", target is not enabled."@,
                ),
            )
        },
{
    if same_text(enabled, target) {
        Ok(())
    } else {
        Err(
            AppError::ServiceError(
                chain3("cannot disable target: ", target, ", target is not enabled."),
            ),
        )
    }
}

/// Where backups go: below the backup directory where one is set, else in
/// the home of the user who called sudo.
pub fn get_backup_dir(sudo_user: Option<&str>, backup_dir: Option<&str>) -> (r: Result<
    String,
    AppError,
>)
    ensures
        found(r) == match (sudo_user, backup_dir) {
            (_, Some(dir)) => Ok::<Seq<char>, AppErrorView>(dir@ + "/minecraft"@),
            (Some(user), None) => Ok::<Seq<char>, AppErrorView>(
                "/home/"@ + user@ + "/minecraft"@,
            ),
            (None, None) => Err::<Seq<char>, AppErrorView>(
                AppErrorView::ServiceError("backup directory not defined."@),
            ),
        },
{
    match (sudo_user, backup_dir) {
        (_, Some(dir)) => Ok(chain(dir, "/minecraft")),
        (Some(user), None) => Ok(chain3("/home/", user, "/minecraft")),
        (None, None) => Err(AppError::ServiceError("backup directory not defined.".to_owned())),
    }
}

/// The index of the first version of kind `release`.
pub fn first_release(kinds: &Vec<String>) -> (r: Option<usize>)
    ensures
        match r {
            Some(i) => i < kinds@.len() && kinds@[i as int]@ == "release"@ && forall|k: int|
                0 <= k < i ==> kinds@[k]@ != "release"@,
            None => forall|k: int| 0 <= k < kinds@.len() ==> kinds@[k]@ != "release"@,
        },
{
    let mut i: usize = 0;
    while i < kinds.len()
        invariant
            i <= kinds@.len(),
            forall|k: int| 0 <= k < i ==> kinds@[k]@ != "release"@,
        decreases kinds@.len() - i,
    {
        if same_text(kinds[i].as_str(), "release") {
            return Some(i);
        }
        i += 1;
    }
    None
}

/// Whether the checksum tool printed the announced checksum: its output up
/// to the first blank is `sha`.
pub fn checksum_matches(output: &str, sha: &str) -> (r: bool)
    ensures
        r == (split_on(output@, ' ')[0] == sha@),
{
    let parts = split_at(output, ' ');
    same_text(parts[0].as_str(), sha)
}

} // verus!
