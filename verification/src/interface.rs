use vstd::prelude::*;
use crate::cmd::{
    clone_opt_string, move_device_cmd, set_address_cmd, set_mtu_cmd, set_up_cmd, host_cmd,
    move_device_argv, scoped_cmd, set_address_argv, set_mtu_argv, set_up_argv, Cmd, CmdView,
};
use crate::errors::Error;
use crate::namespace::Namespace;
use crate::registry::{has_interface_name, Config};

verus! {

/// A single network device: its name, the name of the namespace it was
/// placed in (if any), its assigned address in CIDR notation (if any),
/// and its MTU (if any). A device is always brought administratively up.
pub struct Interface {
    pub name: String,
    pub ip: Option<String>,
    pub namespace: Option<String>,
    pub mtu: Option<u32>,
}

#[verifier::ext_equal]
pub struct InterfaceView {
    pub name: Seq<char>,
    pub ip: Option<Seq<char>>,
    pub namespace: Option<Seq<char>>,
    pub mtu: Option<u32>,
}

impl View for Interface {
    type V = InterfaceView;

    open spec fn view(&self) -> InterfaceView {
        InterfaceView {
            name: self.name.deep_view(),
            ip: self.ip.deep_view(),
            namespace: self.namespace.deep_view(),
            mtu: self.mtu,
        }
    }
}

impl DeepView for Interface {
    type V = InterfaceView;

    open spec fn deep_view(&self) -> InterfaceView {
        self.view()
    }
}

/// The ordered provisioning commands of an interface. Only the steps whose
/// optional input is present are issued, in fixed order: move the device
/// into its namespace, assign the address, set the MTU, and — always —
/// bring the device up. Every step but the move runs host-direct or
/// namespace-scoped with an identical argument vector.
pub open spec fn provision_cmds(i: InterfaceView) -> Seq<CmdView> {
    (match i.namespace {
        Some(ns) => seq![host_cmd(move_device_argv(i.name, ns))],
        None => Seq::<CmdView>::empty(),
    }) + (match i.ip {
        Some(cidr) => seq![scoped_cmd(i.namespace, set_address_argv(i.name, cidr))],
        None => Seq::<CmdView>::empty(),
    }) + (match i.mtu {
        Some(m) => seq![scoped_cmd(i.namespace, set_mtu_argv(i.name, m))],
        None => Seq::<CmdView>::empty(),
    }) + seq![scoped_cmd(i.namespace, set_up_argv(i.name))]
}

/// Law: dual-mode provisioning. Two interfaces that differ only in
/// namespace placement are provisioned by the same argument vectors: the
/// scoped plan adds one leading device move and then runs each remaining
/// step inside the namespace, while the host plan runs the identical
/// vectors directly — only the namespace-entry wrapper differs.
pub proof fn lemma_dual_mode_provisioning(
    host: InterfaceView,
    scoped: InterfaceView,
    ns: Seq<char>,
)
    requires
        host.name == scoped.name,
        host.ip == scoped.ip,
        host.mtu == scoped.mtu,
        host.namespace is None,
        scoped.namespace == Some(ns),
    ensures
        provision_cmds(scoped).len() == provision_cmds(host).len() + 1,
        provision_cmds(scoped)[0] == host_cmd(move_device_argv(scoped.name, ns)),
        forall|i: int|
            0 <= i < provision_cmds(host).len() ==> {
                &&& (#[trigger] provision_cmds(host)[i]).argv == provision_cmds(scoped)[i
                    + 1].argv
                &&& provision_cmds(host)[i].netns is None
                &&& provision_cmds(scoped)[i + 1].netns == Some(ns)
            },
{
    let h = provision_cmds(host);
    let s = provision_cmds(scoped);
    let name = host.name;
    let mv = host_cmd(move_device_argv(name, ns));
    match (host.ip, host.mtu) {
        (Some(cidr), Some(m)) => {
            assert(h =~= seq![
                scoped_cmd(None, set_address_argv(name, cidr)),
                scoped_cmd(None, set_mtu_argv(name, m)),
                scoped_cmd(None, set_up_argv(name)),
            ]);
            assert(s =~= seq![
                mv,
                scoped_cmd(Some(ns), set_address_argv(name, cidr)),
                scoped_cmd(Some(ns), set_mtu_argv(name, m)),
                scoped_cmd(Some(ns), set_up_argv(name)),
            ]);
        },
        (Some(cidr), None) => {
            assert(h =~= seq![
                scoped_cmd(None, set_address_argv(name, cidr)),
                scoped_cmd(None, set_up_argv(name)),
            ]);
            assert(s =~= seq![
                mv,
                scoped_cmd(Some(ns), set_address_argv(name, cidr)),
                scoped_cmd(Some(ns), set_up_argv(name)),
            ]);
        },
        (None, Some(m)) => {
            assert(h =~= seq![
                scoped_cmd(None, set_mtu_argv(name, m)),
                scoped_cmd(None, set_up_argv(name)),
            ]);
            assert(s =~= seq![
                mv,
                scoped_cmd(Some(ns), set_mtu_argv(name, m)),
                scoped_cmd(Some(ns), set_up_argv(name)),
            ]);
        },
        (None, None) => {
            assert(h =~= seq![scoped_cmd(None, set_up_argv(name))]);
            assert(s =~= seq![mv, scoped_cmd(Some(ns), set_up_argv(name))]);
        },
    }
}

/// An interface whose name proved free, together with the exact external
/// commands that provision it, in order. The caller runs the commands; only
/// when all of them succeed is the interface to be registered through
/// `Config::commit_interface`. If any command fails, nothing is registered.
pub struct InterfacePlan {
    pub iface: Interface,
    pub cmds: Vec<Cmd>,
}

impl Interface {
    /// An exact copy, handed out as a shared handle.
    pub fn dup(&self) -> (r: Interface)
        ensures
            r@ == self@,
    {
        Interface {
            name: self.name.clone(),
            ip: clone_opt_string(&self.ip),
            namespace: clone_opt_string(&self.namespace),
            mtu: self.mtu,
        }
    }

    /// Plans one interface. The name is checked against the registry before
    /// anything else: a duplicate yields `NameConflict` and no command.
    /// Otherwise the plan carries exactly the provisioning commands of the
    /// interface, in their fixed order.
    pub fn new(
        name: String,
        namespace: Option<&Namespace>,
        ip: Option<String>,
        mtu: Option<u32>,
        config: &Config,
    ) -> (r: Result<InterfacePlan, Error>)
        ensures
            match r {
                Ok(plan) => {
                    &&& !has_interface_name(config@.interfaces, name@)
                    &&& plan.iface@ == (InterfaceView {
                        name: name@,
                        ip: ip.deep_view(),
                        namespace: match namespace {
                            Some(ns) => Some(ns@.name),
                            None => None,
                        },
                        mtu,
                    })
                    &&& plan.cmds.deep_view() == provision_cmds(plan.iface@)
                },
                Err(e) => {
                    &&& has_interface_name(config@.interfaces, name@)
                    &&& match e {
                        Error::NameConflict { name: n } => n@ == name@,
                        _ => false,
                    }
                },
            },
    {
        if config.contains_interface(&name) {
            return Err(Error::NameConflict { name });
        }
        let netns: Option<String> = match namespace {
            Some(ns) => Some(ns.name.clone()),
            None => None,
        };
        let mut cmds: Vec<Cmd> = Vec::new();
        match &netns {
            Some(ns) => {
                cmds.push(move_device_cmd(&name, ns));
            },
            None => {},
        }
        match &ip {
            Some(cidr) => {
                cmds.push(set_address_cmd(&netns, &name, cidr));
            },
            None => {},
        }
        match mtu {
            Some(m) => {
                cmds.push(set_mtu_cmd(&netns, &name, m));
            },
            None => {},
        }
        cmds.push(set_up_cmd(&netns, &name));
        let iface = Interface { name, ip, namespace: netns, mtu };
        proof {
            assert(cmds.deep_view() =~= provision_cmds(iface@));
        }
        Ok(InterfacePlan { iface, cmds })
    }
}

} // verus!
