use vstd::prelude::*;
use vstd::string::StringExecFns;
use crate::addr::{cidr_seq, endpoint_cidrs, ipv4_net_of, parse_ipv4_net, wrap_inc};
use crate::cmd::{create_veth_cmd, create_veth_argv, host_cmd, Cmd};
use crate::errors::Error;
use crate::interface::{Interface, InterfacePlan, InterfaceView};
use crate::namespace::Namespace;
use crate::registry::{has_interface_name, has_link_name, Config};

verus! {

/// The MTU given to both endpoint interfaces of an attached link.
pub const LINK_MTU: u32 = 3000;

/// A reserved point-to-point subnet, held under a unique name. The subnet
/// string is not validated at construction; it is parsed when the link is
/// attached. A link is meant to be attached exactly once: a second attach
/// regenerates the same device names and collides.
pub struct Link {
    pub name: String,
    pub subnet: String,
}

#[verifier::ext_equal]
pub struct LinkView {
    pub name: Seq<char>,
    pub subnet: Seq<char>,
}

impl View for Link {
    type V = LinkView;

    open spec fn view(&self) -> LinkView {
        LinkView { name: self.name.deep_view(), subnet: self.subnet.deep_view() }
    }
}

impl DeepView for Link {
    type V = LinkView;

    open spec fn deep_view(&self) -> LinkView {
        self.view()
    }
}

/// A transient pair of device names for one kernel cross-connect. It only
/// drives a single creation command and is not retained.
pub struct Veth {
    pub name: String,
    pub peer: String,
}

impl Veth {
    /// The one atomic command that creates the linked device pair. The OS
    /// refuses it when either name is already in use by any device; that
    /// name space is the OS's own, not the registry's.
    pub fn create_cmd(&self) -> (c: Cmd)
        ensures
            c@ == host_cmd(create_veth_argv(self.name@, self.peer@)),
    {
        create_veth_cmd(&self.name, &self.peer)
    }
}

/// The device name a link derives for one side: the namespace's name, an
/// underscore, and the link's name.
pub open spec fn device_name(ns: Seq<char>, link: Seq<char>) -> Seq<char> {
    ns + seq!['_'] + link
}

fn device_name_str(ns: &String, link: &String) -> (r: String)
    ensures
        r@ == device_name(ns@, link@),
{
    let mut out = ns.clone();
    proof {
        reveal_strlit("_");
        assert("_"@ =~= seq!['_']);
    }
    out.append("_");
    out.append(link.as_str());
    proof {
        assert(out@ =~= device_name(ns@, link@));
    }
    out
}

/// Everything needed to realise one attached link, in the order the steps
/// must run: first the veth creation command, then the first endpoint's
/// provisioning commands followed by its registration, then the second
/// endpoint's commands and registration. A failed command aborts the
/// remaining steps; completed steps are not undone.
pub struct AttachPlan {
    pub veth: Veth,
    pub iface1: InterfacePlan,
    pub iface2: InterfacePlan,
}

impl Link {
    /// An exact copy, handed out as a shared handle.
    pub fn dup(&self) -> (r: Link)
        ensures
            r@ == self@,
    {
        Link { name: self.name.clone(), subnet: self.subnet.clone() }
    }

    /// Reserves a named subnet. Only the name is checked here — a duplicate
    /// yields `NameConflict` — and on success the link is registered at
    /// once, since creating it issues no command. The subnet's syntax is
    /// checked at attach time, not here.
    pub fn new(name: String, subnet: String, config: &mut Config) -> (r: Result<Link, Error>)
        requires
            old(config).wf(),
        ensures
            final(config).wf(),
            match r {
                Ok(handle) => {
                    &&& !has_link_name(old(config)@.links, name@)
                    &&& handle@ == (LinkView { name: name@, subnet: subnet@ })
                    &&& final(config)@.links == old(config)@.links.push(handle@)
                    &&& final(config)@.namespaces == old(config)@.namespaces
                    &&& final(config)@.interfaces == old(config)@.interfaces
                },
                Err(e) => {
                    &&& has_link_name(old(config)@.links, name@)
                    &&& match e {
                        Error::NameConflict { name: n } => n@ == name@,
                        _ => false,
                    }
                    &&& final(config)@ == old(config)@
                },
            },
    {
        config.register_link(Link { name, subnet })
    }

    /// The two device names an attach derives, one per side, in input
    /// order. Derivation is deterministic; device-name length limits of
    /// the OS are not checked.
    pub fn device_names(&self, ns1: &Namespace, ns2: &Namespace) -> (r: (String, String))
        ensures
            r.0@ == device_name(ns1@.name, self@.name),
            r.1@ == device_name(ns2@.name, self@.name),
    {
        (device_name_str(&ns1.name, &self.name), device_name_str(&ns2.name, &self.name))
    }

    /// The two endpoint addresses of this link's subnet, in CIDR notation:
    /// base plus one and base plus two, with the subnet's prefix length. A
    /// subnet that is not well-formed IPv4 CIDR yields
    /// `AddressParseFailure`. Whether the prefix leaves room for two host
    /// addresses is not checked.
    pub fn endpoint_addrs(&self) -> (r: Result<(String, String), Error>)
        ensures
            match r {
                Ok(pair) => {
                    &&& ipv4_net_of(self@.subnet) is Some
                    &&& pair.0@ == cidr_seq(
                        wrap_inc(ipv4_net_of(self@.subnet).unwrap().0, 1),
                        ipv4_net_of(self@.subnet).unwrap().1,
                    )
                    &&& pair.1@ == cidr_seq(
                        wrap_inc(ipv4_net_of(self@.subnet).unwrap().0, 2),
                        ipv4_net_of(self@.subnet).unwrap().1,
                    )
                },
                Err(e) => {
                    &&& ipv4_net_of(self@.subnet) is None
                    &&& match e {
                        Error::AddressParseFailure { subnet } => subnet@ == self@.subnet,
                        _ => false,
                    }
                },
            },
    {
        match parse_ipv4_net(&self.subnet) {
            Some((base, prefix)) => Ok(endpoint_cidrs(base, prefix)),
            None => Err(Error::AddressParseFailure { subnet: self.subnet.clone() }),
        }
    }

    /// Plans the attachment of this link between two namespaces. The plan
    /// derives the two device names, carries the veth creation command, and
    /// plans the two endpoint interfaces — each placed in its namespace,
    /// addressed at subnet base plus one and base plus two in `(ns1, ns2)`
    /// order, and sized to the link MTU. A malformed subnet yields
    /// `AddressParseFailure`; a device name already registered yields
    /// `NameConflict`, the first side checked first. No command is handed
    /// out on an error.
    pub fn attach(&self, ns1: &Namespace, ns2: &Namespace, config: &Config) -> (r: Result<
        AttachPlan,
        Error,
    >)
        ensures
            ({
                let n1 = device_name(ns1@.name, self@.name);
                let n2 = device_name(ns2@.name, self@.name);
                let net = ipv4_net_of(self@.subnet);
                match r {
                    Ok(plan) => {
                        &&& net is Some
                        &&& !has_interface_name(config@.interfaces, n1)
                        &&& !has_interface_name(config@.interfaces, n2)
                        &&& n2 != n1
                        &&& plan.veth.name@ == n1
                        &&& plan.veth.peer@ == n2
                        &&& plan.iface1.iface@ == (InterfaceView {
                            name: n1,
                            ip: Some(cidr_seq(wrap_inc(net.unwrap().0, 1), net.unwrap().1)),
                            namespace: Some(ns1@.name),
                            mtu: Some(LINK_MTU),
                        })
                        &&& plan.iface2.iface@ == (InterfaceView {
                            name: n2,
                            ip: Some(cidr_seq(wrap_inc(net.unwrap().0, 2), net.unwrap().1)),
                            namespace: Some(ns2@.name),
                            mtu: Some(LINK_MTU),
                        })
                        &&& plan.iface1.cmds.deep_view() == crate::interface::provision_cmds(
                            plan.iface1.iface@,
                        )
                        &&& plan.iface2.cmds.deep_view() == crate::interface::provision_cmds(
                            plan.iface2.iface@,
                        )
                    },
                    Err(e) => match e {
                        Error::AddressParseFailure { subnet } => {
                            &&& net is None
                            &&& subnet@ == self@.subnet
                        },
                        Error::NameConflict { name } => {
                            &&& net is Some
                            &&& (name@ == n1 && has_interface_name(config@.interfaces, n1)) || (
                            name@ == n2 && !has_interface_name(config@.interfaces, n1) && (
                            has_interface_name(config@.interfaces, n2) || n2 == n1))
                        },
                        _ => false,
                    },
                }
            }),
    {
        let name1 = device_name_str(&ns1.name, &self.name);
        let name2 = device_name_str(&ns2.name, &self.name);
        let (cidr1, cidr2) = match self.endpoint_addrs() {
            Ok(pair) => pair,
            Err(e) => {
                return Err(e);
            },
        };
        let plan1 = match Interface::new(
            name1.clone(),
            Some(ns1),
            Some(cidr1),
            Some(LINK_MTU),
            config,
        ) {
            Ok(p) => p,
            Err(e) => {
                return Err(e);
            },
        };
        if config.contains_interface(&name2) || name2 == name1 {
            return Err(Error::NameConflict { name: name2 });
        }
        let plan2 = match Interface::new(
            name2.clone(),
            Some(ns2),
            Some(cidr2),
            Some(LINK_MTU),
            config,
        ) {
            Ok(p) => p,
            Err(e) => {
                return Err(e);
            },
        };
        Ok(AttachPlan { veth: Veth { name: name1, peer: name2 }, iface1: plan1, iface2: plan2 })
    }
}

} // verus!
