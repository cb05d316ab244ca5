use vstd::prelude::*;
use vstd::string::StringExecFns;
use crate::text::{dec_seq, host_part};

verus! {

/// One external network-configuration command: an ordered argument vector,
/// optionally to be run inside a namespace. A scoped command and its host
/// counterpart carry the same argument vector; only the namespace-entry
/// wrapper that a runner must add differs.
pub struct Cmd {
    pub netns: Option<String>,
    pub argv: Vec<String>,
}

#[verifier::ext_equal]
pub struct CmdView {
    pub netns: Option<Seq<char>>,
    pub argv: Seq<Seq<char>>,
}

impl View for Cmd {
    type V = CmdView;

    open spec fn view(&self) -> CmdView {
        CmdView { netns: self.netns.deep_view(), argv: self.argv.deep_view() }
    }
}

impl DeepView for Cmd {
    type V = CmdView;

    open spec fn deep_view(&self) -> CmdView {
        self.view()
    }
}

/// A command run directly on the host.
pub open spec fn host_cmd(argv: Seq<Seq<char>>) -> CmdView {
    CmdView { netns: None, argv }
}

/// A command run inside the given namespace, when one is given.
pub open spec fn scoped_cmd(netns: Option<Seq<char>>, argv: Seq<Seq<char>>) -> CmdView {
    CmdView { netns, argv }
}

pub open spec fn add_namespace_argv(name: Seq<char>) -> Seq<Seq<char>> {
    seq!["ip"@, "netns"@, "add"@, name]
}

pub open spec fn set_forwarding_argv() -> Seq<Seq<char>> {
    seq!["sysctl"@, "-w"@, "net.ipv4.ip_forward=1"@]
}

pub open spec fn set_multipath_hash_argv() -> Seq<Seq<char>> {
    seq!["sysctl"@, "-w"@, "net.ipv4.fib_multipath_hash_policy=1"@]
}

pub open spec fn create_veth_argv(name: Seq<char>, peer: Seq<char>) -> Seq<Seq<char>> {
    seq!["ip"@, "link"@, "add"@, name, "type"@, "veth"@, "peer"@, "name"@, peer]
}

pub open spec fn move_device_argv(dev: Seq<char>, ns: Seq<char>) -> Seq<Seq<char>> {
    seq!["ip"@, "link"@, "set"@, dev, "netns"@, ns]
}

pub open spec fn set_address_argv(dev: Seq<char>, cidr: Seq<char>) -> Seq<Seq<char>> {
    seq!["ip"@, "addr"@, "add"@, cidr, "dev"@, dev]
}

pub open spec fn set_mtu_argv(dev: Seq<char>, mtu: u32) -> Seq<Seq<char>> {
    seq!["ip"@, "link"@, "set"@, "dev"@, dev, "mtu"@, dec_seq(mtu as nat)]
}

pub open spec fn set_up_argv(dev: Seq<char>) -> Seq<Seq<char>> {
    seq!["ip"@, "link"@, "set"@, "dev"@, dev, "up"@]
}

/// The nexthop clause for one gateway address as stored on an interface
/// (CIDR notation): the bare host part, with an equal weight appended
/// exactly when the route is multipath.
pub open spec fn nexthop_clause(gw_ip: Seq<char>, weighted: bool) -> Seq<Seq<char>> {
    if weighted {
        seq!["nexthop"@, "via"@, host_part(gw_ip), "weight"@, "1"@]
    } else {
        seq!["nexthop"@, "via"@, host_part(gw_ip)]
    }
}

/// The nexthop clauses for the gateway addresses, in input order.
pub open spec fn nexthop_args(gw_ips: Seq<Seq<char>>, weighted: bool) -> Seq<Seq<char>>
    decreases gw_ips.len(),
{
    if gw_ips.len() == 0 {
        Seq::empty()
    } else {
        nexthop_args(gw_ips.drop_last(), weighted) + nexthop_clause(gw_ips.last(), weighted)
    }
}

/// The whole route-add argument vector: destination prefix, then one
/// nexthop clause per gateway, weighted exactly when there is more than
/// one gateway.
pub open spec fn add_route_argv(dst: Seq<char>, gw_ips: Seq<Seq<char>>) -> Seq<Seq<char>> {
    seq!["ip"@, "route"@, "add"@, dst] + nexthop_args(gw_ips, gw_ips.len() > 1)
}

fn lit(s: &str) -> (r: String)
    ensures
        r@ == s@,
{
    String::from_str(s)
}

pub(crate) fn clone_opt_string(o: &Option<String>) -> (r: Option<String>)
    ensures
        r == *o,
{
    match o {
        Some(s) => Some(s.clone()),
        None => None,
    }
}

pub fn add_namespace_cmd(name: &String) -> (c: Cmd)
    ensures
        c@ == host_cmd(add_namespace_argv(name@)),
{
    let mut argv: Vec<String> = Vec::new();
    argv.push(lit("ip"));
    argv.push(lit("netns"));
    argv.push(lit("add"));
    argv.push(name.clone());
    let c = Cmd { netns: None, argv };
    proof {
        assert(c@ =~= host_cmd(add_namespace_argv(name@)));
    }
    c
}

pub fn set_forwarding_cmd(ns: &String) -> (c: Cmd)
    ensures
        c@ == scoped_cmd(Some(ns@), set_forwarding_argv()),
{
    let mut argv: Vec<String> = Vec::new();
    argv.push(lit("sysctl"));
    argv.push(lit("-w"));
    argv.push(lit("net.ipv4.ip_forward=1"));
    let c = Cmd { netns: Some(ns.clone()), argv };
    proof {
        assert(c@ =~= scoped_cmd(Some(ns@), set_forwarding_argv()));
    }
    c
}

pub fn set_multipath_hash_cmd(ns: &String) -> (c: Cmd)
    ensures
        c@ == scoped_cmd(Some(ns@), set_multipath_hash_argv()),
{
    let mut argv: Vec<String> = Vec::new();
    argv.push(lit("sysctl"));
    argv.push(lit("-w"));
    argv.push(lit("net.ipv4.fib_multipath_hash_policy=1"));
    let c = Cmd { netns: Some(ns.clone()), argv };
    proof {
        assert(c@ =~= scoped_cmd(Some(ns@), set_multipath_hash_argv()));
    }
    c
}

pub fn create_veth_cmd(name: &String, peer: &String) -> (c: Cmd)
    ensures
        c@ == host_cmd(create_veth_argv(name@, peer@)),
{
    let mut argv: Vec<String> = Vec::new();
    argv.push(lit("ip"));
    argv.push(lit("link"));
    argv.push(lit("add"));
    argv.push(name.clone());
    argv.push(lit("type"));
    argv.push(lit("veth"));
    argv.push(lit("peer"));
    argv.push(lit("name"));
    argv.push(peer.clone());
    let c = Cmd { netns: None, argv };
    proof {
        assert(c@ =~= host_cmd(create_veth_argv(name@, peer@)));
    }
    c
}

pub fn move_device_cmd(dev: &String, ns: &String) -> (c: Cmd)
    ensures
        c@ == host_cmd(move_device_argv(dev@, ns@)),
{
    let mut argv: Vec<String> = Vec::new();
    argv.push(lit("ip"));
    argv.push(lit("link"));
    argv.push(lit("set"));
    argv.push(dev.clone());
    argv.push(lit("netns"));
    argv.push(ns.clone());
    let c = Cmd { netns: None, argv };
    proof {
        assert(c@ =~= host_cmd(move_device_argv(dev@, ns@)));
    }
    c
}

pub fn set_address_cmd(netns: &Option<String>, dev: &String, cidr: &String) -> (c: Cmd)
    ensures
        c@ == scoped_cmd(netns.deep_view(), set_address_argv(dev@, cidr@)),
{
    let mut argv: Vec<String> = Vec::new();
    argv.push(lit("ip"));
    argv.push(lit("addr"));
    argv.push(lit("add"));
    argv.push(cidr.clone());
    argv.push(lit("dev"));
    argv.push(dev.clone());
    let c = Cmd { netns: clone_opt_string(netns), argv };
    proof {
        assert(c@ =~= scoped_cmd(netns.deep_view(), set_address_argv(dev@, cidr@)));
    }
    c
}

pub fn set_mtu_cmd(netns: &Option<String>, dev: &String, mtu: u32) -> (c: Cmd)
    ensures
        c@ == scoped_cmd(netns.deep_view(), set_mtu_argv(dev@, mtu)),
{
    let mut argv: Vec<String> = Vec::new();
    argv.push(lit("ip"));
    argv.push(lit("link"));
    argv.push(lit("set"));
    argv.push(lit("dev"));
    argv.push(dev.clone());
    argv.push(lit("mtu"));
    argv.push(crate::text::dec_string(mtu));
    let c = Cmd { netns: clone_opt_string(netns), argv };
    proof {
        assert(c@ =~= scoped_cmd(netns.deep_view(), set_mtu_argv(dev@, mtu)));
    }
    c
}

pub fn set_up_cmd(netns: &Option<String>, dev: &String) -> (c: Cmd)
    ensures
        c@ == scoped_cmd(netns.deep_view(), set_up_argv(dev@)),
{
    let mut argv: Vec<String> = Vec::new();
    argv.push(lit("ip"));
    argv.push(lit("link"));
    argv.push(lit("set"));
    argv.push(lit("dev"));
    argv.push(dev.clone());
    argv.push(lit("up"));
    let c = Cmd { netns: clone_opt_string(netns), argv };
    proof {
        assert(c@ =~= scoped_cmd(netns.deep_view(), set_up_argv(dev@)));
    }
    c
}

/// The width of one nexthop clause: `nexthop via <address>`, plus
/// `weight 1` when the route is multipath.
pub open spec fn clause_len(weighted: bool) -> int {
    if weighted {
        5
    } else {
        3
    }
}

/// The arguments standing in the `i`-th nexthop slot of a route command.
pub open spec fn nexthop_at(gw_ips: Seq<Seq<char>>, weighted: bool, i: int) -> Seq<Seq<char>> {
    nexthop_args(gw_ips, weighted).subrange(i * clause_len(weighted), (i + 1) * clause_len(
        weighted,
    ))
}

/// Law: the nexthop clauses of a route stand in input order, one per
/// gateway. The `i`-th slot holds exactly `nexthop via <address_i>`, with
/// `weight 1` appended to every clause exactly when the route is
/// multipath.
pub proof fn lemma_nexthop_args_shape(gw_ips: Seq<Seq<char>>, weighted: bool)
    ensures
        nexthop_args(gw_ips, weighted).len() == gw_ips.len() * clause_len(weighted),
        forall|i: int|
            0 <= i < gw_ips.len() ==> #[trigger] nexthop_at(gw_ips, weighted, i)
                == nexthop_clause(gw_ips[i], weighted),
    decreases gw_ips.len(),
{
    let w = clause_len(weighted);
    if gw_ips.len() == 0 {
    } else {
        let dl = gw_ips.drop_last();
        lemma_nexthop_args_shape(dl, weighted);
        let a = nexthop_args(dl, weighted);
        let c = nexthop_clause(gw_ips.last(), weighted);
        let n = gw_ips.len() as int;
        assert(c.len() == w);
        assert(a.len() == (n - 1) * w);
        assert((n - 1) * w + w == n * w) by (nonlinear_arith);
        assert forall|i: int| 0 <= i < n implies #[trigger] nexthop_at(gw_ips, weighted, i)
            == nexthop_clause(gw_ips[i], weighted) by {
            assert(0 <= i * w && i * w + w <= n * w) by (nonlinear_arith)
                requires
                    0 <= i < n,
                    w == 3 || w == 5,
            ;
            assert((i + 1) * w == i * w + w) by (nonlinear_arith);
            if i < n - 1 {
                assert(i * w + w <= (n - 1) * w) by (nonlinear_arith)
                    requires
                        i <= n - 2,
                        w == 3 || w == 5,
                ;
                assert(nexthop_at(gw_ips, weighted, i) =~= a.subrange(i * w, i * w + w));
                assert(a.subrange(i * w, i * w + w) == nexthop_at(dl, weighted, i));
                assert(dl[i] == gw_ips[i]);
            } else {
                assert(nexthop_at(gw_ips, weighted, i) =~= c);
            }
        }
    }
}

/// Law: a route with exactly one gateway is a plain single-path route —
/// its whole argument vector is the destination and one unweighted
/// `nexthop via <address>` clause; no weight argument appears.
pub proof fn lemma_single_gateway_route(dst: Seq<char>, gw_ip: Seq<char>)
    ensures
        add_route_argv(dst, seq![gw_ip]) == seq![
            "ip"@,
            "route"@,
            "add"@,
            dst,
            "nexthop"@,
            "via"@,
            host_part(gw_ip),
        ],
{
    let ips = seq![gw_ip];
    assert(ips.drop_last() =~= Seq::<Seq<char>>::empty());
    assert(nexthop_args(ips, false) == nexthop_args(ips.drop_last(), false) + nexthop_clause(
        gw_ip,
        false,
    ));
    assert(add_route_argv(dst, ips) =~= seq![
        "ip"@,
        "route"@,
        "add"@,
        dst,
        "nexthop"@,
        "via"@,
        host_part(gw_ip),
    ]);
}

} // verus!
