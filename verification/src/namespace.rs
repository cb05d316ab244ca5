use vstd::prelude::*;
use vstd::string::StringExecFns;
use crate::cmd::{
    add_namespace_cmd, add_namespace_argv, add_route_argv, host_cmd, nexthop_args,
    nexthop_clause, scoped_cmd, set_forwarding_cmd, set_forwarding_argv, set_multipath_hash_cmd,
    set_multipath_hash_argv, Cmd, CmdView,
};
use crate::errors::Error;
use crate::interface::{Interface, InterfaceView};
use crate::registry::{has_namespace_name, Config};
use crate::text::{host_part, host_part_str};

verus! {

/// An isolated network stack: its name, whether IP forwarding was enabled
/// in it (it always is on creation), and whether multipath hashing was.
pub struct Namespace {
    pub name: String,
    pub forwarding: bool,
    pub ecmp: bool,
}

#[verifier::ext_equal]
pub struct NamespaceView {
    pub name: Seq<char>,
    pub forwarding: bool,
    pub ecmp: bool,
}

impl View for Namespace {
    type V = NamespaceView;

    open spec fn view(&self) -> NamespaceView {
        NamespaceView { name: self.name.deep_view(), forwarding: self.forwarding, ecmp: self.ecmp }
    }
}

impl DeepView for Namespace {
    type V = NamespaceView;

    open spec fn deep_view(&self) -> NamespaceView {
        self.view()
    }
}

/// The ordered creation commands of a namespace: create the OS namespace,
/// enable IP forwarding inside it, and, when multipath routing is asked
/// for, set the multipath hash policy inside it.
pub open spec fn creation_cmds(n: NamespaceView) -> Seq<CmdView> {
    seq![
        host_cmd(add_namespace_argv(n.name)),
        scoped_cmd(Some(n.name), set_forwarding_argv()),
    ] + if n.ecmp {
        seq![scoped_cmd(Some(n.name), set_multipath_hash_argv())]
    } else {
        Seq::<CmdView>::empty()
    }
}

/// A namespace whose name proved free, together with the exact external
/// commands that create it, in order. The caller runs the commands; only
/// when all of them succeed is the namespace to be registered through
/// `Config::commit_namespace`. If any command fails, the remaining steps
/// are aborted, nothing is registered, and completed steps are not undone.
pub struct NamespacePlan {
    pub namespace: Namespace,
    pub cmds: Vec<Cmd>,
}

/// A destination prefix with its ordered gateway interfaces. Transient: a
/// route is applied through one command and not retained.
pub struct Route {
    pub dst: String,
    pub gateway: Vec<Interface>,
}

/// Every gateway carries an assigned address.
pub open spec fn all_addressed(gws: Seq<InterfaceView>) -> bool {
    forall|i: int| 0 <= i < gws.len() ==> gws[i].ip is Some
}

/// The assigned addresses of the gateways, in input order, as stored
/// (CIDR notation).
pub open spec fn gateway_ips(gws: Seq<InterfaceView>) -> Seq<Seq<char>> {
    Seq::new(gws.len(), |i: int| gws[i].ip.unwrap())
}

impl Namespace {
    /// An exact copy, handed out as a shared handle.
    pub fn dup(&self) -> (r: Namespace)
        ensures
            r@ == self@,
    {
        Namespace { name: self.name.clone(), forwarding: self.forwarding, ecmp: self.ecmp }
    }

    /// Plans one namespace. The name is checked against the registry before
    /// anything else: a duplicate yields `NameConflict` and no command.
    /// Otherwise the plan carries exactly the creation commands, in order.
    pub fn new(name: String, ecmp: bool, config: &Config) -> (r: Result<NamespacePlan, Error>)
        ensures
            match r {
                Ok(plan) => {
                    &&& !has_namespace_name(config@.namespaces, name@)
                    &&& plan.namespace@ == (NamespaceView { name: name@, forwarding: true, ecmp })
                    &&& plan.cmds.deep_view() == creation_cmds(plan.namespace@)
                },
                Err(e) => {
                    &&& has_namespace_name(config@.namespaces, name@)
                    &&& match e {
                        Error::NameConflict { name: n } => n@ == name@,
                        _ => false,
                    }
                },
            },
    {
        if config.contains_namespace(&name) {
            return Err(Error::NameConflict { name });
        }
        let mut cmds: Vec<Cmd> = Vec::new();
        cmds.push(add_namespace_cmd(&name));
        cmds.push(set_forwarding_cmd(&name));
        if ecmp {
            cmds.push(set_multipath_hash_cmd(&name));
        }
        let namespace = Namespace { name, forwarding: true, ecmp };
        proof {
            assert(cmds.deep_view() =~= creation_cmds(namespace@));
        }
        Ok(NamespacePlan { namespace, cmds })
    }

    /// Builds the one route-add command for this namespace: the destination
    /// prefix, then one `nexthop via <address>` clause per gateway in input
    /// order, each carrying `weight 1` exactly when there is more than one
    /// gateway. A gateway without an assigned address yields
    /// `MissingAddress` and no command. The engine does not inspect the
    /// outcome of the returned command; callers that run it decide whether
    /// to surface its failure.
    pub fn add_route(&self, route: &Route) -> (r: Result<Cmd, Error>)
        ensures
            match r {
                Ok(c) => {
                    &&& all_addressed(route.gateway.deep_view())
                    &&& c@ == scoped_cmd(
                        Some(self@.name),
                        add_route_argv(route.dst@, gateway_ips(route.gateway.deep_view())),
                    )
                },
                Err(e) => {
                    &&& !all_addressed(route.gateway.deep_view())
                    &&& match e {
                        Error::MissingAddress { interface } => exists|i: int|
                            {
                                &&& 0 <= i < route.gateway.deep_view().len()
                                &&& route.gateway.deep_view()[i].ip is None
                                &&& interface@ == route.gateway.deep_view()[i].name
                                &&& forall|j: int|
                                    0 <= j < i ==> route.gateway.deep_view()[j].ip is Some
                            },
                        _ => false,
                    }
                },
            },
    {
        let ghost gws = route.gateway.deep_view();
        let n = route.gateway.len();
        let weighted = n > 1;
        let mut argv: Vec<String> = Vec::new();
        argv.push(String::from_str("ip"));
        argv.push(String::from_str("route"));
        argv.push(String::from_str("add"));
        argv.push(route.dst.clone());
        let ghost head = seq!["ip"@, "route"@, "add"@, route.dst@];
        let ghost ips = gateway_ips(gws);
        proof {
            assert(argv.deep_view() =~= head + nexthop_args(ips.subrange(0, 0), weighted));
        }
        let mut k: usize = 0;
        while k < n
            invariant
                n == route.gateway.len(),
                k <= n,
                gws == route.gateway.deep_view(),
                ips == gateway_ips(gws),
                head == seq!["ip"@, "route"@, "add"@, route.dst@],
                weighted == (n > 1),
                forall|j: int| 0 <= j < k ==> gws[j].ip is Some,
                argv.deep_view() == head + nexthop_args(ips.subrange(0, k as int), weighted),
            decreases n - k,
        {
            match &route.gateway[k].ip {
                Some(cidr) => {
                    let ghost argv0 = argv.deep_view();
                    argv.push(String::from_str("nexthop"));
                    argv.push(String::from_str("via"));
                    argv.push(host_part_str(cidr));
                    if weighted {
                        argv.push(String::from_str("weight"));
                        argv.push(String::from_str("1"));
                        proof {
                            assert(argv.deep_view() =~= argv0 + seq![
                                "nexthop"@,
                                "via"@,
                                host_part(cidr@),
                                "weight"@,
                                "1"@,
                            ]);
                        }
                    } else {
                        proof {
                            assert(argv.deep_view() =~= argv0 + seq![
                                "nexthop"@,
                                "via"@,
                                host_part(cidr@),
                            ]);
                        }
                    }
                    proof {
                        let pre = ips.subrange(0, k as int);
                        let post = ips.subrange(0, k as int + 1);
                        assert(argv.deep_view() == argv0 + nexthop_clause(cidr@, weighted));
                        assert(post.drop_last() =~= pre);
                        assert(post.last() == ips[k as int]);
                        assert(ips[k as int] == cidr@);
                        assert(nexthop_args(post, weighted) == nexthop_args(pre, weighted)
                            + nexthop_clause(cidr@, weighted));
                        assert(argv.deep_view() =~= head + nexthop_args(post, weighted));
                    }
                },
                None => {
                    proof {
                        assert({
                            &&& (k as int) < gws.len()
                            &&& gws[k as int].ip is None
                            &&& route.gateway[k as int].deep_view().name == gws[k as int].name
                            &&& forall|j: int| 0 <= j < k as int ==> gws[j].ip is Some
                        });
                        assert(!all_addressed(gws));
                    }
                    return Err(Error::MissingAddress { interface: route.gateway[k].name.clone() });
                },
            }
            k = k + 1;
        }
        let c = Cmd { netns: Some(self.name.clone()), argv };
        proof {
            assert(ips.subrange(0, n as int) =~= ips);
            assert(c@ =~= scoped_cmd(Some(self@.name), add_route_argv(route.dst@, ips)));
        }
        Ok(c)
    }
}

} // verus!
