//! The privileged install step: the launcher-entry file name, the single
//! shell command that provisions the install directory, and the mapping of
//! the command's result onto a status message.

use vstd::prelude::*;
use vstd::string::StringExecFns;
use crate::config::AppConfig;
use crate::status::{StatusChannel, StatusMessage, StatusView};
use crate::text::{join_seq, join_path};

verus! {

/// Name of the launcher-entry file written into the working directory.
pub open spec fn desktop_file_name_spec(package_name: Seq<char>) -> Seq<char> {
    package_name + ".desktop"@
}

/// `<package_name>.desktop`.
pub fn desktop_file_name(app: &AppConfig) -> (r: String)
    ensures
        r@ == desktop_file_name_spec(app.package_name@),
{
    app.package_name.clone().concat(".desktop")
}

/// The one shell line handed to the elevation helper. In order: create the
/// install directory (`mkdir -p`, idempotent), copy the launcher entry into
/// the system applications directory, copy the icon into the install
/// location, mark it executable, and copy the working directory's contents
/// into the install location. A failure of step N leaves steps 1..N-1
/// applied; there is no rollback.
pub open spec fn install_command_spec(
    package_name: Seq<char>,
    icon: Seq<char>,
    cwd: Seq<char>,
    location: Seq<char>,
) -> Seq<char> {
    "mkdir -p "@ + location + " && cp "@ + join_seq(cwd, desktop_file_name_spec(package_name))
        + " /usr/share/applications && cp "@ + join_seq(cwd, icon) + " "@ + join_seq(
        location,
        icon,
    ) + " && chmod +x "@ + join_seq(location, icon) + " && cp "@ + join_seq(cwd, "*"@)
        + " "@ + location + "/ -r"@
}

/// Build the privileged shell command for an install into `location`, run
/// from the working directory `cwd`.
pub fn build_install_command(app: &AppConfig, cwd: &str, location: &str) -> (r: String)
    ensures
        r@ == install_command_spec(app.package_name@, app.icon@, cwd@, location@),
{
    let entry = desktop_file_name(app);
    let r = String::from_str("mkdir -p ").concat(location).concat(" && cp ").concat(
        join_path(cwd, entry.as_str()).as_str(),
    ).concat(" /usr/share/applications && cp ").concat(
        join_path(cwd, app.icon.as_str()).as_str(),
    ).concat(" ").concat(join_path(location, app.icon.as_str()).as_str()).concat(
        " && chmod +x ",
    ).concat(join_path(location, app.icon.as_str()).as_str()).concat(" && cp ").concat(
        join_path(cwd, "*").as_str(),
    ).concat(" ").concat(location).concat("/ -r");
    proof {
        assert(r@ =~= install_command_spec(app.package_name@, app.icon@, cwd@, location@));
    }
    r
}

/// Model of the directories present after the command's first sub-step:
/// `mkdir -p` makes `location` (and its parents, folded into the one set
/// element here) exist, whether or not it already did.
pub open spec fn mkdir_effect(dirs: Set<Seq<char>>, location: Seq<char>) -> Set<Seq<char>> {
    dirs.insert(location)
}

/// Directory creation is idempotent: running the sub-step a second time
/// with the same location changes nothing, so it cannot fail for already
/// existing directories.
pub proof fn lemma_mkdir_idempotent(dirs: Set<Seq<char>>, location: Seq<char>)
    ensures
        mkdir_effect(mkdir_effect(dirs, location), location) == mkdir_effect(dirs, location),
{
    assert(mkdir_effect(mkdir_effect(dirs, location), location) =~= mkdir_effect(
        dirs,
        location,
    ));
}

/// Fold the elevation helper's result into the one terminal status message:
/// success carries the captured standard output, failure the captured
/// standard error. An elevation refusal is reported the same way, as a
/// failure with its message as the error text.
pub fn install_outcome(success: bool, stdout_text: String, stderr_text: String) -> (m:
    StatusMessage)
    ensures
        success ==> m@ == StatusView::Succeeded(stdout_text@),
        !success ==> m@ == StatusView::Failed(stderr_text@),
{
    if success {
        StatusMessage::Succeeded(stdout_text)
    } else {
        StatusMessage::Failed(stderr_text)
    }
}

/// Post the terminal status of an install: exactly one message, success or
/// failure, behind whatever the channel already holds.
pub fn complete_install(
    chan: &mut StatusChannel,
    success: bool,
    stdout_text: String,
    stderr_text: String,
)
    ensures
        success ==> final(chan)@ == old(chan)@.push(StatusView::Succeeded(stdout_text@)),
        !success ==> final(chan)@ == old(chan)@.push(StatusView::Failed(stderr_text@)),
{
    let m = install_outcome(success, stdout_text, stderr_text);
    chan.send(m);
}

} // verus!
