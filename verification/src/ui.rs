//! The two scripts the rendering loop hands to the web surface: the
//! startup object describing the installer, and the status update run for
//! each message polled off the status channel.

use vstd::prelude::*;
use vstd::string::StringExecFns;
use crate::config::{AppConfig, InstallerConfig};
use crate::status::{StatusMessage, StatusView};
use crate::text::{join_seq, join_path};

verus! {

/// The status update script for one polled message: a successful install
/// reports type `ok`, a failed one type `err` with the captured error
/// text, anything else type `unknown`.
pub open spec fn status_script_spec(m: StatusView) -> Seq<char> {
    match m {
        StatusView::Succeeded(_) => "window.setStatus({type: 'ok', data: ''});"@,
        StatusView::Failed(t) => "window.setStatus({type: 'err', data: `"@ + t + "`});"@,
        StatusView::Progress => "window.setStatus({type: 'unknown', data: ''});"@,
        StatusView::Unknown => "window.setStatus({type: 'unknown', data: ''});"@,
    }
}

/// Render the status update script for a message.
pub fn status_script(m: &StatusMessage) -> (r: String)
    ensures
        r@ == status_script_spec(m@),
{
    match m {
        StatusMessage::Succeeded(_) => String::from_str(
            "window.setStatus({type: 'ok', data: ''});",
        ),
        StatusMessage::Failed(t) => {
            let r = String::from_str("window.setStatus({type: 'err', data: `").concat(
                t.as_str(),
            ).concat("`});");
            proof {
                assert(r@ =~= status_script_spec(m@));
            }
            r
        },
        StatusMessage::Progress => String::from_str(
            "window.setStatus({type: 'unknown', data: ''});",
        ),
        StatusMessage::Unknown => String::from_str(
            "window.setStatus({type: 'unknown', data: ''});",
        ),
    }
}

/// The startup object injected into the UI before the first document
/// loads: the window title, the suggested install location (the package's
/// directory under `/usr/local`), and the icon's path inside the working
/// directory.
pub open spec fn init_script_spec(
    title: Seq<char>,
    package_name: Seq<char>,
    icon: Seq<char>,
    cwd: Seq<char>,
) -> Seq<char> {
    "\nwindow.nai = {\n  title: `"@ + title + "`,\n  default_location: `"@ + join_seq(
        "/usr/local"@,
        package_name,
    ) + "`,\n  icon: `"@ + join_seq(cwd, icon) + "`\n}"@
}

/// Render the startup object script.
pub fn init_script(installer: &InstallerConfig, app: &AppConfig, cwd: &str) -> (r: String)
    ensures
        r@ == init_script_spec(installer.title@, app.package_name@, app.icon@, cwd@),
{
    let default_location = join_path("/usr/local", app.package_name.as_str());
    let icon_path = join_path(cwd, app.icon.as_str());
    let r = String::from_str("\nwindow.nai = {\n  title: `").concat(
        installer.title.as_str(),
    ).concat("`,\n  default_location: `").concat(default_location.as_str()).concat(
        "`,\n  icon: `",
    ).concat(icon_path.as_str()).concat("`\n}");
    proof {
        assert(r@ =~= init_script_spec(installer.title@, app.package_name@, app.icon@, cwd@));
    }
    r
}

} // verus!
