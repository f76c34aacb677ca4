//! The command router: parse an inbound UI message `"<action>;<json>"`
//! into a typed action, and turn the action into a directive for the
//! process shell, posting status messages along the way.

use vstd::prelude::*;
use vstd::string::StrSliceExecFns;
use vstd::string::StringExecFns;
use crate::config::AppConfig;
use crate::desktop::{cd_target, desktop_text, generate_desktop_file, lemma_desktop_exec_line};
use crate::install::{build_install_command, desktop_file_name, desktop_file_name_spec,
    install_command_spec};
use crate::json::{get_str_field, json_str_field};
use crate::status::{StatusChannel, StatusMessage, StatusView};
use crate::text::{contains_char, find_in, find_char, join_seq, join_path, safe_path,
    safe_path_char, check_safe_path, lemma_contains_char_concat, lemma_safe_path_free_of,
    split_on, starts_with, str_eq};

verus! {

/// The payload of an install or launch action: where the application is
/// (to be) installed. The location is used verbatim in file paths and in
/// the privileged shell command, so only safe paths are ever accepted.
#[derive(Debug)]
pub struct InstallRequest {
    pub location: String,
}

impl InstallRequest {
    pub open spec fn valid(&self) -> bool {
        safe_path(self.location@)
    }
}

/// A typed inbound action: install into a location, hand off to the
/// installed application at a location, close the installer, or nothing
/// (an unrecognized action token is deliberately a no-op).
#[derive(Debug)]
pub enum CommandAction {
    Install(InstallRequest),
    Launch(InstallRequest),
    Close,
    NoOp,
}

/// Everything that can be wrong with an inbound message. Each parse
/// failure is reported over the status channel; none may abort the
/// process.
#[derive(Clone, Copy, PartialEq, Eq, Structural, Debug)]
pub enum RouterError {
    /// No `;` separator between action and payload.
    MalformedMessage,
    /// The payload is not a JSON object with a string `location`.
    InvalidPayload,
    /// The location is empty.
    EmptyLocation,
    /// The location carries a character unsafe for paths and shell use.
    UnsafeLocation,
}

/// Mathematical model of what a message routes to.
pub enum RouteSpec {
    Install(Seq<char>),
    Launch(Seq<char>),
    Close,
    NoOp,
    Reject(RouterError),
}

/// Routing of one action token with its payload: install and launch need a
/// non-empty, safe `location` in the payload; `close` needs nothing; any
/// other token is a no-op.
pub open spec fn action_route(action: Seq<char>, payload: Seq<char>) -> RouteSpec {
    if action == "install"@ || action == "launch"@ {
        match json_str_field(payload, "location"@) {
            Some(loc) => if loc.len() == 0 {
                RouteSpec::Reject(RouterError::EmptyLocation)
            } else if !safe_path(loc) {
                RouteSpec::Reject(RouterError::UnsafeLocation)
            } else if action == "install"@ {
                RouteSpec::Install(loc)
            } else {
                RouteSpec::Launch(loc)
            },
            None => RouteSpec::Reject(RouterError::InvalidPayload),
        }
    } else if action == "close"@ {
        RouteSpec::Close
    } else {
        RouteSpec::NoOp
    }
}

/// Routing of a whole message: everything before the first `;` is the
/// action token, everything after it the payload; a message without `;` is
/// malformed.
pub open spec fn route_of(m: Seq<char>) -> RouteSpec {
    if !contains_char(m, ';') {
        RouteSpec::Reject(RouterError::MalformedMessage)
    } else {
        action_route(m.take(find_in(m, ';')), m.skip(find_in(m, ';') + 1))
    }
}

/// The parse result delivers exactly what the message routes to.
pub open spec fn parse_matches_route(
    r: Result<CommandAction, RouterError>,
    s: RouteSpec,
) -> bool {
    match s {
        RouteSpec::Install(loc) => r matches Ok(CommandAction::Install(req))
            && req.location@ == loc,
        RouteSpec::Launch(loc) => r matches Ok(CommandAction::Launch(req))
            && req.location@ == loc,
        RouteSpec::Close => r matches Ok(CommandAction::Close),
        RouteSpec::NoOp => r matches Ok(CommandAction::NoOp),
        RouteSpec::Reject(e) => r matches Err(e2) && e2 == e,
    }
}

/// Parse an inbound message into a typed action. Success is owed exactly
/// on messages with a `;` separator whose action token either needs no
/// payload or comes with a usable `location`; each failure names its
/// reason, and an accepted install or launch request is always valid.
pub fn parse_message(msg: &str) -> (r: Result<CommandAction, RouterError>)
    ensures
        parse_matches_route(r, route_of(msg@)),
        r matches Ok(CommandAction::Install(req)) ==> req.valid(),
        r matches Ok(CommandAction::Launch(req)) ==> req.valid(),
{
    let n: usize = msg.unicode_len();
    let sep: usize = match find_char(msg, ';') {
        Some(i) => i,
        None => {
            return Err(RouterError::MalformedMessage);
        },
    };
    let action: &str = msg.substring_char(0, sep);
    let payload: &str = msg.substring_char(sep + 1, n);
    proof {
        assert(action@ =~= msg@.take(find_in(msg@, ';')));
        assert(payload@ =~= msg@.skip(find_in(msg@, ';') + 1));
    }
    let is_install = str_eq(action, "install");
    let is_launch = str_eq(action, "launch");
    if is_install || is_launch {
        let loc = match get_str_field(payload, "location") {
            Some(l) => l,
            None => {
                return Err(RouterError::InvalidPayload);
            },
        };
        if loc.as_str().unicode_len() == 0 {
            return Err(RouterError::EmptyLocation);
        }
        if !check_safe_path(loc.as_str()) {
            return Err(RouterError::UnsafeLocation);
        }
        if is_install {
            Ok(CommandAction::Install(InstallRequest { location: loc }))
        } else {
            Ok(CommandAction::Launch(InstallRequest { location: loc }))
        }
    } else if str_eq(action, "close") {
        Ok(CommandAction::Close)
    } else {
        Ok(CommandAction::NoOp)
    }
}

/// A short reason for each parse failure, sent as the text of the `Failed`
/// status that reports it.
pub open spec fn error_text(e: RouterError) -> Seq<char> {
    match e {
        RouterError::MalformedMessage => "malformed message: no ';' separator"@,
        RouterError::InvalidPayload => "invalid payload: no string 'location'"@,
        RouterError::EmptyLocation => "invalid payload: empty location"@,
        RouterError::UnsafeLocation => "invalid payload: unsafe location"@,
    }
}

/// The reason text for a parse failure.
pub fn router_error_message(e: &RouterError) -> (r: String)
    ensures
        r@ == error_text(*e),
{
    match e {
        RouterError::MalformedMessage => String::from_str("malformed message: no ';' separator"),
        RouterError::InvalidPayload => String::from_str("invalid payload: no string 'location'"),
        RouterError::EmptyLocation => String::from_str("invalid payload: empty location"),
        RouterError::UnsafeLocation => String::from_str("invalid payload: unsafe location"),
    }
}

/// Everything the process shell must do for one install: write the
/// launcher entry beside the running installer, then run the privileged
/// command, then post the outcome with `complete_install`.
pub struct InstallPlan {
    pub location: String,
    pub desktop_file_name: String,
    pub desktop_file_contents: String,
    pub command: String,
}

/// Everything the process shell must do for one launch handoff: start the
/// runner binary detached, in the install location, under the fixed
/// environment contract, and then shut down.
pub struct LaunchPlan {
    pub working_dir: String,
    pub runner: String,
    pub root_var: String,
    pub root_value: String,
    pub runtime_var: String,
    pub runtime_value: String,
    pub entry_var: String,
    pub entry_value: String,
}

/// What the process shell is to do next, decided by the router. `Shutdown`
/// is the explicit lifecycle transition that replaces terminating out of
/// message handling.
pub enum Directive {
    RunInstall(InstallPlan),
    RunLaunch(LaunchPlan),
    Shutdown,
    NoAction,
}

/// The install plan for `location` under configuration `app`, run from the
/// working directory `cwd`: the entry file is named after the package, its
/// text names the icon inside the install location, and the privileged
/// command provisions everything in one shell line.
pub open spec fn install_plan_ok(
    plan: InstallPlan,
    app: AppConfig,
    cwd: Seq<char>,
    loc: Seq<char>,
) -> bool {
    &&& plan.location@ == loc
    &&& plan.desktop_file_name@ == desktop_file_name_spec(app.package_name@)
    &&& plan.desktop_file_contents@ == desktop_text(app.name@, join_seq(loc, app.icon@), loc)
    &&& plan.command@ == install_command_spec(app.package_name@, app.icon@, cwd, loc)
}

/// The launch plan for `loc`: run the bundled runner binary from inside
/// the install location, with the three fixed environment variables of the
/// launch contract.
pub open spec fn launch_plan_ok(plan: LaunchPlan, loc: Seq<char>) -> bool {
    &&& plan.working_dir@ == loc
    &&& plan.runner@ == "./newtonium_binaries/runner"@
    &&& plan.root_var@ == "NEWTONIUM_ROOT"@ && plan.root_value@ == loc
    &&& plan.runtime_var@ == "NEWTONIUM_BUN"@ && plan.runtime_value@
        == "newtonium_binaries/bun"@
    &&& plan.entry_var@ == "NEWTONIUM_ENTRYPOINT"@ && plan.entry_value@ == "index.js"@
}

/// Route one inbound message. An install posts exactly one `Progress`
/// status and yields the install plan (its terminal status follows from
/// `complete_install` once the privileged command has run); a launch
/// yields the launch plan; `close` yields `Shutdown`; an unrecognized
/// action does nothing at all; and every parse failure posts exactly one
/// `Failed` status naming the reason, never aborting.
pub fn route_message(app: &AppConfig, cwd: &str, msg: &str, chan: &mut StatusChannel) -> (d:
    Directive)
    ensures
        match route_of(msg@) {
            RouteSpec::Install(loc) => final(chan)@ == old(chan)@.push(StatusView::Progress)
                && (d matches Directive::RunInstall(plan) && install_plan_ok(
                plan,
                *app,
                cwd@,
                loc,
            )),
            RouteSpec::Launch(loc) => final(chan)@ == old(chan)@ && (
            d matches Directive::RunLaunch(plan) && launch_plan_ok(plan, loc)),
            RouteSpec::Close => final(chan)@ == old(chan)@ && d matches Directive::Shutdown,
            RouteSpec::NoOp => final(chan)@ == old(chan)@ && d matches Directive::NoAction,
            RouteSpec::Reject(e) => final(chan)@ == old(chan)@.push(
                StatusView::Failed(error_text(e)),
            ) && d matches Directive::NoAction,
        },
{
    match parse_message(msg) {
        Ok(CommandAction::Install(req)) => {
            chan.send(StatusMessage::Progress);
            let icon_path = join_path(req.location.as_str(), app.icon.as_str());
            let contents = generate_desktop_file(
                app.name.as_str(),
                icon_path,
                req.location.clone(),
            );
            let command = build_install_command(app, cwd, req.location.as_str());
            Directive::RunInstall(
                InstallPlan {
                    desktop_file_name: desktop_file_name(app),
                    desktop_file_contents: contents,
                    command,
                    location: req.location,
                },
            )
        },
        Ok(CommandAction::Launch(req)) => {
            Directive::RunLaunch(
                LaunchPlan {
                    working_dir: req.location.clone(),
                    runner: String::from_str("./newtonium_binaries/runner"),
                    root_var: String::from_str("NEWTONIUM_ROOT"),
                    root_value: req.location,
                    runtime_var: String::from_str("NEWTONIUM_BUN"),
                    runtime_value: String::from_str("newtonium_binaries/bun"),
                    entry_var: String::from_str("NEWTONIUM_ENTRYPOINT"),
                    entry_value: String::from_str("index.js"),
                },
            )
        },
        Ok(CommandAction::Close) => Directive::Shutdown,
        Ok(CommandAction::NoOp) => Directive::NoAction,
        Err(e) => {
            chan.send(StatusMessage::Failed(router_error_message(&e)));
            Directive::NoAction
        },
    }
}

/// The install status protocol: an install contributes exactly two status
/// messages, `Progress` first (posted when the action is accepted) and one
/// terminal outcome second (posted when the privileged command has run) —
/// in that order, with nothing between contributed by the install itself.
pub proof fn lemma_install_status_protocol(pre: Seq<StatusView>, outcome: StatusView)
    requires
        outcome is Succeeded || outcome is Failed,
    ensures
        ({
            let after = pre.push(StatusView::Progress).push(outcome);
            &&& after.len() == pre.len() + 2
            &&& after.take(pre.len() as int) == pre
            &&& after[pre.len() as int] == StatusView::Progress
            &&& after[pre.len() as int + 1] == outcome
        }),
{
    let after = pre.push(StatusView::Progress).push(outcome);
    assert(after.take(pre.len() as int) =~= pre);
}

/// For any valid configuration and any location an install request can
/// carry, the launcher entry planned for the install has exactly one
/// `Exec=` line, and that line's `cd` target is the location, verbatim.
pub proof fn lemma_install_plan_exec_line(app: AppConfig, loc: Seq<char>)
    requires
        app.valid(),
        safe_path(loc),
    ensures
        ({
            let lines = split_on(desktop_text(app.name@, join_seq(loc, app.icon@), loc), '\n');
            &&& lines.len() == 6
            &&& starts_with(lines[2], "Exec="@)
            &&& forall|k: int|
                0 <= k < 6 && k != 2 ==> !starts_with(#[trigger] lines[k], "Exec="@)
            &&& cd_target(lines[2]) == loc
        }),
{
    assert(!safe_path_char(';'));
    assert(!safe_path_char('\n'));
    lemma_safe_path_free_of(loc, ';');
    lemma_safe_path_free_of(loc, '\n');
    lemma_safe_path_free_of(app.icon@, '\n');
    let icon_path = join_seq(loc, app.icon@);
    assert(!contains_char(icon_path, '\n')) by {
        lemma_contains_char_concat(loc, app.icon@, '\n');
        lemma_contains_char_concat(loc + seq!['/'], app.icon@, '\n');
        lemma_contains_char_concat(loc, seq!['/'], '\n');
    }
    lemma_desktop_exec_line(app.name@, icon_path, loc);
}

} // verus!
