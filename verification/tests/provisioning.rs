use netfabric::cmd::Cmd;
use netfabric::errors::Error;
use netfabric::interface::Interface;
use netfabric::link::Link;
use netfabric::namespace::{Namespace, Route};
use netfabric::registry::Config;

fn s(x: &str) -> String {
    x.to_string()
}

fn argv_of(c: &Cmd) -> Vec<String> {
    c.argv.clone()
}

/// Drives one namespace build as a runner whose commands all succeed.
fn build_namespace(name: &str, ecmp: bool, config: &mut Config, log: &mut Vec<Cmd>) -> Namespace {
    let plan = Namespace::new(s(name), ecmp, config).unwrap();
    for c in plan.cmds.iter() {
        log.push(Cmd { netns: c.netns.clone(), argv: c.argv.clone() });
    }
    config.commit_namespace(plan).unwrap()
}

/// Drives one attach as a runner whose commands all succeed.
fn build_attach(
    link: &Link,
    ns1: &Namespace,
    ns2: &Namespace,
    config: &mut Config,
    log: &mut Vec<Cmd>,
) -> (Interface, Interface) {
    let plan = link.attach(ns1, ns2, config).unwrap();
    log.push(plan.veth.create_cmd());
    for c in plan.iface1.cmds.iter() {
        log.push(Cmd { netns: c.netns.clone(), argv: c.argv.clone() });
    }
    let i1 = config.commit_interface(plan.iface1).unwrap();
    for c in plan.iface2.cmds.iter() {
        log.push(Cmd { netns: c.netns.clone(), argv: c.argv.clone() });
    }
    let i2 = config.commit_interface(plan.iface2).unwrap();
    (i1, i2)
}

#[test]
fn namespace_name_conflict_on_second_attempt() {
    let mut config = Config::new();
    let mut log: Vec<Cmd> = Vec::new();
    build_namespace("r1", false, &mut config, &mut log);
    let second = Namespace::new(s("r1"), false, &config);
    match second {
        Err(Error::NameConflict { name }) => assert_eq!(name, s("r1")),
        _ => panic!("expected a name conflict"),
    }
}

#[test]
fn link_name_conflict_on_second_attempt() {
    let mut config = Config::new();
    Link::new(s("link1"), s("10.0.0.0/24"), &mut config).unwrap();
    let second = Link::new(s("link1"), s("10.0.9.0/24"), &mut config);
    match second {
        Err(Error::NameConflict { name }) => assert_eq!(name, s("link1")),
        _ => panic!("expected a name conflict"),
    }
}

#[test]
fn interface_name_conflict_plans_no_command() {
    let mut config = Config::new();
    let plan = Interface::new(s("en0"), None, None, None, &config).unwrap();
    config.commit_interface(plan).unwrap();
    let second = Interface::new(s("en0"), None, Some(s("10.0.0.9/24")), Some(1500), &config);
    match second {
        Err(Error::NameConflict { name }) => assert_eq!(name, s("en0")),
        _ => panic!("expected a name conflict"),
    }
}

#[test]
fn namespace_plan_commands_with_and_without_ecmp() {
    let config = Config::new();
    let plan = Namespace::new(s("r1"), true, &config).unwrap();
    assert_eq!(plan.cmds.len(), 3);
    assert_eq!(plan.cmds[0].netns, None);
    assert_eq!(argv_of(&plan.cmds[0]), vec![s("ip"), s("netns"), s("add"), s("r1")]);
    assert_eq!(plan.cmds[1].netns, Some(s("r1")));
    assert_eq!(argv_of(&plan.cmds[1]), vec![s("sysctl"), s("-w"), s("net.ipv4.ip_forward=1")]);
    assert_eq!(plan.cmds[2].netns, Some(s("r1")));
    assert_eq!(
        argv_of(&plan.cmds[2]),
        vec![s("sysctl"), s("-w"), s("net.ipv4.fib_multipath_hash_policy=1")]
    );

    let plain = Namespace::new(s("p1"), false, &config).unwrap();
    assert_eq!(plain.cmds.len(), 2);
    assert!(plain.namespace.forwarding);
    assert!(!plain.namespace.ecmp);
}

#[test]
fn endpoint_addresses_follow_the_subnet_base() {
    let mut config = Config::new();
    let link = Link::new(s("link1"), s("10.0.0.0/24"), &mut config).unwrap();
    let (a, b) = link.endpoint_addrs().unwrap();
    assert_eq!(a, s("10.0.0.1/24"));
    assert_eq!(b, s("10.0.0.2/24"));
}

#[test]
fn endpoint_addresses_wrap_at_the_top_of_the_address_space() {
    let mut config = Config::new();
    let link = Link::new(s("top"), s("255.255.255.255/32"), &mut config).unwrap();
    let (a, b) = link.endpoint_addrs().unwrap();
    assert_eq!(a, s("0.0.0.0/32"));
    assert_eq!(b, s("0.0.0.1/32"));
}

#[test]
fn malformed_subnets_fail_to_parse_at_attach_time() {
    let mut config = Config::new();
    // A missing prefix, plain junk, and an IPv6 subnet are all rejected;
    // none of them was rejected at link creation.
    for subnet in ["10.0.0.0", "banana", "2001:db8::/64", "10.0.0.0/33"] {
        let link = Link::new(s(subnet), s(subnet), &mut config).unwrap();
        match link.endpoint_addrs() {
            Err(Error::AddressParseFailure { subnet: reported }) => {
                assert_eq!(reported, s(subnet))
            },
            _ => panic!("expected an address parse failure for {subnet}"),
        }
    }
}

#[test]
fn attach_places_addresses_in_namespace_order() {
    let mut config = Config::new();
    let mut log: Vec<Cmd> = Vec::new();
    let r1 = build_namespace("r1", false, &mut config, &mut log);
    let r2 = build_namespace("r2", false, &mut config, &mut log);
    let link = Link::new(s("link1"), s("10.0.0.0/24"), &mut config).unwrap();
    let (i1, i2) = build_attach(&link, &r1, &r2, &mut config, &mut log);
    assert_eq!(i1.name, s("r1_link1"));
    assert_eq!(i1.ip, Some(s("10.0.0.1/24")));
    assert_eq!(i1.namespace, Some(s("r1")));
    assert_eq!(i1.mtu, Some(3000));
    assert_eq!(i2.name, s("r2_link1"));
    assert_eq!(i2.ip, Some(s("10.0.0.2/24")));
    assert_eq!(i2.namespace, Some(s("r2")));
    assert_eq!(i2.mtu, Some(3000));
}

#[test]
fn attach_twice_fails_with_a_name_conflict() {
    let mut config = Config::new();
    let mut log: Vec<Cmd> = Vec::new();
    let r1 = build_namespace("r1", false, &mut config, &mut log);
    let r2 = build_namespace("r2", false, &mut config, &mut log);
    let link = Link::new(s("link1"), s("10.0.0.0/24"), &mut config).unwrap();
    build_attach(&link, &r1, &r2, &mut config, &mut log);
    match link.attach(&r1, &r2, &config) {
        Err(Error::NameConflict { name }) => assert_eq!(name, s("r1_link1")),
        _ => panic!("expected the repeated attach to collide"),
    }
}

#[test]
fn ecmp_route_carries_one_weighted_nexthop_per_gateway_in_order() {
    let r1 = Namespace { name: s("r1"), forwarding: true, ecmp: true };
    let addrs = ["10.0.0.2", "10.0.1.2", "10.0.2.2", "10.0.3.2", "10.0.4.2", "10.0.5.2"];
    let gateway: Vec<Interface> = addrs
        .iter()
        .enumerate()
        .map(|(k, a)| Interface {
            name: format!("r2_link{}", k + 1),
            ip: Some(format!("{a}/24")),
            namespace: Some(s("r2")),
            mtu: Some(3000),
        })
        .collect();
    let route = Route { dst: s("192.168.1.0/24"), gateway };
    let cmd = r1.add_route(&route).unwrap();
    assert_eq!(cmd.netns, Some(s("r1")));
    let mut expected = vec![s("ip"), s("route"), s("add"), s("192.168.1.0/24")];
    for a in addrs {
        expected.push(s("nexthop"));
        expected.push(s("via"));
        expected.push(s(a));
        expected.push(s("weight"));
        expected.push(s("1"));
    }
    assert_eq!(cmd.argv, expected);
}

#[test]
fn single_gateway_route_has_no_weight_clause() {
    let r1 = Namespace { name: s("r1"), forwarding: true, ecmp: false };
    let gw = Interface {
        name: s("r1_plink1"),
        ip: Some(s("10.1.2.1/24")),
        namespace: Some(s("r1")),
        mtu: Some(3000),
    };
    let route = Route { dst: s("192.168.0.0/24"), gateway: vec![gw] };
    let cmd = r1.add_route(&route).unwrap();
    assert_eq!(
        cmd.argv,
        vec![
            s("ip"),
            s("route"),
            s("add"),
            s("192.168.0.0/24"),
            s("nexthop"),
            s("via"),
            s("10.1.2.1")
        ]
    );
    assert!(!cmd.argv.contains(&s("weight")));
}

#[test]
fn route_with_an_addressless_gateway_fails_before_any_command() {
    let r1 = Namespace { name: s("r1"), forwarding: true, ecmp: false };
    let good = Interface {
        name: s("a"),
        ip: Some(s("10.0.0.1/24")),
        namespace: Some(s("r1")),
        mtu: None,
    };
    let bare = Interface { name: s("b"), ip: None, namespace: Some(s("r1")), mtu: None };
    let route = Route { dst: s("192.168.1.0/24"), gateway: vec![good, bare] };
    match r1.add_route(&route) {
        Err(Error::MissingAddress { interface }) => assert_eq!(interface, s("b")),
        _ => panic!("expected a missing address"),
    }
}

#[test]
fn a_gateway_address_without_a_prefix_is_used_as_given() {
    let r1 = Namespace { name: s("r1"), forwarding: true, ecmp: false };
    let gw = Interface { name: s("a"), ip: Some(s("10.0.0.7")), namespace: None, mtu: None };
    let route = Route { dst: s("192.168.5.0/24"), gateway: vec![gw] };
    let cmd = r1.add_route(&route).unwrap();
    assert_eq!(cmd.argv[6], s("10.0.0.7"));
}

#[test]
fn commit_refuses_a_name_taken_since_planning() {
    let mut config = Config::new();
    let first = Namespace::new(s("r1"), false, &config).unwrap();
    let second = Namespace::new(s("r1"), false, &config).unwrap();
    config.commit_namespace(first).unwrap();
    match config.commit_namespace(second) {
        Err(Error::NameConflict { name }) => assert_eq!(name, s("r1")),
        _ => panic!("expected a name conflict at commit"),
    }
}

#[test]
fn error_kinds_are_distinct() {
    assert_eq!(Error::NameConflict { name: s("x") }.kind(), s("name conflict"));
    assert_eq!(Error::CommandFailure { detail: s("boom") }.kind(), s("command failure"));
    assert_eq!(
        Error::AddressParseFailure { subnet: s("z") }.kind(),
        s("address parse failure")
    );
    assert_eq!(Error::MissingAddress { interface: s("i") }.kind(), s("missing address"));
}
