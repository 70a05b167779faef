use vstd::prelude::*;

use crate::config::{InitSystem, StaticConfig, StaticConfigV};

verus! {

// Host mutation is described here as data: an ordered sequence of file
// writes, file deletions and external commands. The caller that owns the
// process-wide host lock executes a whole sequence under it, stopping at
// the first failing step; the order of the steps below is part of the
// contract, because the tunnel must be up before the routing daemon
// reloads, and a service must stop before its files go away.

/// One step of a host-mutation sequence.
pub enum HostAction {
    WriteFile { path: String, content: String },
    DeleteFile { path: String },
    RunCommand { program: String, args: Vec<String> },
}

/// The view of one step.
#[verifier::ext_equal]
pub ghost enum HostActionV {
    WriteFile { path: Seq<char>, content: Seq<char> },
    DeleteFile { path: Seq<char> },
    RunCommand { program: Seq<char>, args: Seq<Seq<char>> },
}

impl View for HostAction {
    type V = HostActionV;

    open spec fn view(&self) -> HostActionV {
        match self {
            HostAction::WriteFile { path, content } => HostActionV::WriteFile {
                path: path@,
                content: content@,
            },
            HostAction::DeleteFile { path } => HostActionV::DeleteFile { path: path@ },
            HostAction::RunCommand { program, args } => HostActionV::RunCommand {
                program: program@,
                args: Seq::new(args@.len(), |i: int| args@[i]@),
            },
        }
    }
}

/// The views of a whole sequence of steps.
pub open spec fn views_of(s: Seq<HostAction>) -> Seq<HostActionV> {
    Seq::new(s.len(), |i: int| s[i]@)
}

/// The service unit a tunnel interface runs under on systemd.
pub open spec fn spec_systemd_unit(iface: Seq<char>) -> Seq<char> {
    "wg-quick@"@ + iface
}

/// The service name a tunnel interface runs under on OpenRC.
pub open spec fn spec_openrc_service(iface: Seq<char>) -> Seq<char> {
    "wg-quick."@ + iface
}

/// The init-script path of an OpenRC service.
pub open spec fn spec_openrc_link_path(iface: Seq<char>) -> Seq<char> {
    "/etc/init.d/"@ + spec_openrc_service(iface)
}

/// Saving a peer's configuration: write the tunnel file, then the routing
/// file. A failed write aborts what follows and rolls nothing back.
pub open spec fn spec_save_actions(
    wg_path: Seq<char>,
    wg_text: Seq<char>,
    bird_path: Seq<char>,
    bird_text: Seq<char>,
) -> Seq<HostActionV> {
    seq![
        HostActionV::WriteFile { path: wg_path, content: wg_text },
        HostActionV::WriteFile { path: bird_path, content: bird_text },
    ]
}

/// Applying a peer's configuration: bring the tunnel up, register it for
/// boot, then have the routing daemon reload — in that order, so that the
/// peer's link-local neighbor is reachable at reload time. OpenRC needs
/// one extra step first, creating the service's init-script link.
pub open spec fn spec_apply_actions(cfg: StaticConfigV, iface: Seq<char>) -> Seq<HostActionV> {
    match cfg.init_system {
        InitSystem::Systemd => seq![
            HostActionV::RunCommand {
                program: cfg.systemctl_path,
                args: seq!["start"@, spec_systemd_unit(iface)],
            },
            HostActionV::RunCommand {
                program: cfg.systemctl_path,
                args: seq!["enable"@, spec_systemd_unit(iface)],
            },
            HostActionV::RunCommand { program: cfg.birdc_path, args: seq!["configure"@] },
        ],
        InitSystem::OpenRc => seq![
            HostActionV::RunCommand {
                program: "ln"@,
                args: seq!["-s"@, "/etc/init.d/wg-quick"@, spec_openrc_link_path(iface)],
            },
            HostActionV::RunCommand {
                program: cfg.rc_service_path,
                args: seq![spec_openrc_service(iface), "start"@],
            },
            HostActionV::RunCommand {
                program: cfg.rc_update_path,
                args: seq!["add"@, spec_openrc_service(iface), "default"@],
            },
            HostActionV::RunCommand { program: cfg.birdc_path, args: seq!["configure"@] },
        ],
    }
}

/// Tearing a peer down: stop and deregister the tunnel, then delete its
/// files, then have the routing daemon reload — stopping before deleting
/// avoids a restart rereading a vanishing file, and deleting before the
/// reload keeps the reload from rereading a stale peer file.
pub open spec fn spec_remove_actions(
    cfg: StaticConfigV,
    iface: Seq<char>,
    wg_path: Seq<char>,
    bird_path: Seq<char>,
) -> Seq<HostActionV> {
    match cfg.init_system {
        InitSystem::Systemd => seq![
            HostActionV::RunCommand {
                program: cfg.systemctl_path,
                args: seq!["disable"@, spec_systemd_unit(iface)],
            },
            HostActionV::RunCommand {
                program: cfg.systemctl_path,
                args: seq!["stop"@, spec_systemd_unit(iface)],
            },
            HostActionV::DeleteFile { path: wg_path },
            HostActionV::DeleteFile { path: bird_path },
            HostActionV::RunCommand { program: cfg.birdc_path, args: seq!["configure"@] },
        ],
        InitSystem::OpenRc => seq![
            HostActionV::RunCommand {
                program: cfg.rc_service_path,
                args: seq![spec_openrc_service(iface), "stop"@],
            },
            HostActionV::RunCommand {
                program: cfg.rc_update_path,
                args: seq!["del"@, spec_openrc_service(iface), "default"@],
            },
            HostActionV::DeleteFile { path: spec_openrc_link_path(iface) },
            HostActionV::DeleteFile { path: wg_path },
            HostActionV::DeleteFile { path: bird_path },
            HostActionV::RunCommand { program: cfg.birdc_path, args: seq!["configure"@] },
        ],
    }
}

fn systemd_unit(iface: &str) -> (r: String)
    ensures
        r@ == spec_systemd_unit(iface@),
{
    let mut s = String::from_str("wg-quick@");
    s.append(iface);
    s
}

fn openrc_service(iface: &str) -> (r: String)
    ensures
        r@ == spec_openrc_service(iface@),
{
    let mut s = String::from_str("wg-quick.");
    s.append(iface);
    s
}

fn openrc_link_path(iface: &str) -> (r: String)
    ensures
        r@ == spec_openrc_link_path(iface@),
{
    let mut s = String::from_str("/etc/init.d/");
    let svc = openrc_service(iface);
    s.append(svc.as_str());
    proof {
        assert(s@ =~= spec_openrc_link_path(iface@));
    }
    s
}

fn run1(program: &str, a0: String) -> (r: HostAction)
    ensures
        r@ == (HostActionV::RunCommand { program: program@, args: seq![a0@] }),
{
    let mut args: Vec<String> = Vec::new();
    let ghost a0v = a0@;
    args.push(a0);
    proof {
        assert(Seq::new(args@.len(), |i: int| args@[i]@) =~= seq![a0v]);
    }
    HostAction::RunCommand { program: String::from_str(program), args }
}

fn run2(program: &str, a0: String, a1: String) -> (r: HostAction)
    ensures
        r@ == (HostActionV::RunCommand { program: program@, args: seq![a0@, a1@] }),
{
    let mut args: Vec<String> = Vec::new();
    let ghost a0v = a0@;
    let ghost a1v = a1@;
    args.push(a0);
    args.push(a1);
    proof {
        assert(Seq::new(args@.len(), |i: int| args@[i]@) =~= seq![a0v, a1v]);
    }
    HostAction::RunCommand { program: String::from_str(program), args }
}

fn run3(program: &str, a0: String, a1: String, a2: String) -> (r: HostAction)
    ensures
        r@ == (HostActionV::RunCommand { program: program@, args: seq![a0@, a1@, a2@] }),
{
    let mut args: Vec<String> = Vec::new();
    let ghost a0v = a0@;
    let ghost a1v = a1@;
    let ghost a2v = a2@;
    args.push(a0);
    args.push(a1);
    args.push(a2);
    proof {
        assert(Seq::new(args@.len(), |i: int| args@[i]@) =~= seq![a0v, a1v, a2v]);
    }
    HostAction::RunCommand { program: String::from_str(program), args }
}

/// The ordered file writes that persist a peer's two rendered documents.
pub fn save_config(
    wg_config_path: &str,
    wg_config: &str,
    bird_config_path: &str,
    bird_config: &str,
) -> (r: Vec<HostAction>)
    ensures
        views_of(r@) == spec_save_actions(
            wg_config_path@,
            wg_config@,
            bird_config_path@,
            bird_config@,
        ),
{
    let mut v: Vec<HostAction> = Vec::new();
    v.push(
        HostAction::WriteFile {
            path: String::from_str(wg_config_path),
            content: String::from_str(wg_config),
        },
    );
    v.push(
        HostAction::WriteFile {
            path: String::from_str(bird_config_path),
            content: String::from_str(bird_config),
        },
    );
    proof {
        assert(views_of(v@) =~= spec_save_actions(
            wg_config_path@,
            wg_config@,
            bird_config_path@,
            bird_config@,
        ));
    }
    v
}

/// The ordered commands that activate a peer's tunnel and reload routing.
pub fn apply_config(cfg: &StaticConfig, interface_name: &str) -> (r: Vec<HostAction>)
    ensures
        views_of(r@) == spec_apply_actions(cfg@, interface_name@),
{
    let mut v: Vec<HostAction> = Vec::new();
    match cfg.init_system {
        InitSystem::Systemd => {
            v.push(run2(cfg.systemctl_path.as_str(), String::from_str("start"), systemd_unit(interface_name)));
            v.push(run2(cfg.systemctl_path.as_str(), String::from_str("enable"), systemd_unit(interface_name)));
            v.push(run1(cfg.birdc_path.as_str(), String::from_str("configure")));
        },
        InitSystem::OpenRc => {
            v.push(run3(
                "ln",
                String::from_str("-s"),
                String::from_str("/etc/init.d/wg-quick"),
                openrc_link_path(interface_name),
            ));
            v.push(run2(cfg.rc_service_path.as_str(), openrc_service(interface_name), String::from_str("start")));
            v.push(run3(
                cfg.rc_update_path.as_str(),
                String::from_str("add"),
                openrc_service(interface_name),
                String::from_str("default"),
            ));
            v.push(run1(cfg.birdc_path.as_str(), String::from_str("configure")));
        },
    }
    proof {
        assert(views_of(v@) =~~= spec_apply_actions(cfg@, interface_name@));
    }
    v
}

/// The ordered steps that tear a peer's tunnel down and remove its files.
pub fn remove_config(
    cfg: &StaticConfig,
    interface_name: &str,
    wg_config_path: &str,
    bird_config_path: &str,
) -> (r: Vec<HostAction>)
    ensures
        views_of(r@) == spec_remove_actions(
            cfg@,
            interface_name@,
            wg_config_path@,
            bird_config_path@,
        ),
{
    let mut v: Vec<HostAction> = Vec::new();
    match cfg.init_system {
        InitSystem::Systemd => {
            v.push(run2(cfg.systemctl_path.as_str(), String::from_str("disable"), systemd_unit(interface_name)));
            v.push(run2(cfg.systemctl_path.as_str(), String::from_str("stop"), systemd_unit(interface_name)));
            v.push(HostAction::DeleteFile { path: String::from_str(wg_config_path) });
            v.push(HostAction::DeleteFile { path: String::from_str(bird_config_path) });
            v.push(run1(cfg.birdc_path.as_str(), String::from_str("configure")));
        },
        InitSystem::OpenRc => {
            v.push(run2(cfg.rc_service_path.as_str(), openrc_service(interface_name), String::from_str("stop")));
            v.push(run3(
                cfg.rc_update_path.as_str(),
                String::from_str("del"),
                openrc_service(interface_name),
                String::from_str("default"),
            ));
            v.push(HostAction::DeleteFile { path: openrc_link_path(interface_name) });
            v.push(HostAction::DeleteFile { path: String::from_str(wg_config_path) });
            v.push(HostAction::DeleteFile { path: String::from_str(bird_config_path) });
            v.push(run1(cfg.birdc_path.as_str(), String::from_str("configure")));
        },
    }
    proof {
        assert(views_of(v@) =~~= spec_remove_actions(
            cfg@,
            interface_name@,
            wg_config_path@,
            bird_config_path@,
        ));
    }
    v
}

} // verus!
