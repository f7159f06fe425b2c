//! The commands of the tool, as parsed from its arguments.
use vstd::prelude::*;
use crate::model_sys::{supported_opts, SystemModel};

verus! {

/// The parsed command line.
#[derive(Clone, Debug)]
pub struct Cli {
    pub command: Option<Commands>,
}

#[derive(Clone, Debug)]
pub enum Commands {
    /// Defines a new profile, or replaces the one with the same id.
    Setup {
        id: String,
        host: String,
        port: i32,
        user: String,
        mount_opt: String,
        mount_point: String,
        auth_method: String,
        ssh_key: String,
        cmd_before_mount: String,
    },
    /// Removes a profile.
    Rm,
    /// Checks that the tools needed to mount are present.
    PreflightCheck,
    /// Lists the profiles with their state.
    Ls,
    /// Mounts a profile unless it is mounted.
    Mount,
    /// Unmounts a profile.
    Umount,
    /// Mounts every stored profile.
    MountAll,
    /// Unmounts every stored profile.
    UmountAll,
}

/// The mount options given by the `mount_opt` argument: none when it is
/// empty, else that one option.
pub open spec fn opts_of_arg(mount_opt: String) -> Seq<String> {
    if mount_opt@.len() == 0 {
        seq![]
    } else {
        seq![mount_opt]
    }
}

impl Commands {
    /// The profile that a `Setup` command describes; `None` for the other
    /// commands.
    pub fn setup_profile(&self) -> (r: Option<SystemModel>)
        ensures
            match self {
                Commands::Setup {
                    id,
                    host,
                    port,
                    user,
                    mount_opt,
                    mount_point,
                    auth_method,
                    ssh_key,
                    cmd_before_mount,
                } => r is Some && r->Some_0.id == id && r->Some_0.host == host && r->Some_0.port
                    == port && r->Some_0.user == user && r->Some_0.mount_opts@ == supported_opts(
                    opts_of_arg(*mount_opt),
                ) && r->Some_0.mount_point == mount_point && r->Some_0.auth_method == auth_method
                    && r->Some_0.ssh_key is Some && r->Some_0.ssh_key->Some_0@ == ssh_key@
                    && r->Some_0.cmd_before_mount is Some && r->Some_0.cmd_before_mount->Some_0@
                    == cmd_before_mount@,
                _ => r is None,
            },
    {
        match self {
            Commands::Setup {
                id,
                host,
                port,
                user,
                mount_opt,
                mount_point,
                auth_method,
                ssh_key,
                cmd_before_mount,
            } => {
                let mut opts: Vec<String> = Vec::new();
                if mount_opt.unicode_len() > 0 {
                    opts.push(mount_opt.clone());
                }
                assert(opts@ =~= opts_of_arg(*mount_opt));
                Some(
                    SystemModel::new(
                        id.clone(),
                        host.clone(),
                        *port,
                        user.clone(),
                        opts,
                        mount_point.clone(),
                        auth_method.clone(),
                        Some(ssh_key.clone()),
                        Some(cmd_before_mount.clone()),
                    ),
                )
            },
            _ => None,
        }
    }
}

} // verus!
