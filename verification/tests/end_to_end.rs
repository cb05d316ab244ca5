use netfabric::cmd::Cmd;
use netfabric::interface::Interface;
use netfabric::link::Link;
use netfabric::namespace::{Namespace, Route};
use netfabric::registry::Config;

fn s(x: &str) -> String {
    x.to_string()
}

fn clone_cmd(c: &Cmd) -> Cmd {
    Cmd { netns: c.netns.clone(), argv: c.argv.clone() }
}

#[test]
fn dual_mode_commands_differ_only_in_the_namespace_wrapper() {
    let r1 = Namespace { name: s("r1"), forwarding: true, ecmp: false };
    let config = Config::new();

    let host = Interface::new(s("en0"), None, Some(s("192.168.0.1/24")), Some(3000), &config)
        .unwrap();
    let scoped = Interface::new(s("en0"), Some(&r1), Some(s("192.168.0.1/24")), Some(3000), &config)
        .unwrap();

    // The host-context plan has no device move; the scoped plan moves the
    // device first and then issues the same three steps inside r1.
    assert_eq!(host.cmds.len(), 3);
    assert_eq!(scoped.cmds.len(), 4);
    assert_eq!(
        scoped.cmds[0].argv,
        vec![s("ip"), s("link"), s("set"), s("en0"), s("netns"), s("r1")]
    );
    assert_eq!(scoped.cmds[0].netns, None);
    for (h, sc) in host.cmds.iter().zip(scoped.cmds.iter().skip(1)) {
        assert_eq!(h.argv, sc.argv);
        assert_eq!(h.netns, None);
        assert_eq!(sc.netns, Some(s("r1")));
    }
    assert_eq!(
        host.cmds[0].argv,
        vec![s("ip"), s("addr"), s("add"), s("192.168.0.1/24"), s("dev"), s("en0")]
    );
    assert_eq!(
        host.cmds[1].argv,
        vec![s("ip"), s("link"), s("set"), s("dev"), s("en0"), s("mtu"), s("3000")]
    );
    assert_eq!(host.cmds[2].argv, vec![s("ip"), s("link"), s("set"), s("dev"), s("en0"), s("up")]);
}

#[test]
fn an_interface_with_no_options_is_only_brought_up() {
    let config = Config::new();
    let plan = Interface::new(s("lo1"), None, None, None, &config).unwrap();
    assert_eq!(plan.cmds.len(), 1);
    assert_eq!(plan.cmds[0].netns, None);
    assert_eq!(plan.cmds[0].argv, vec![s("ip"), s("link"), s("set"), s("dev"), s("lo1"), s("up")]);
}

#[test]
fn two_routers_one_link_one_route_issue_exactly_these_commands() {
    let mut config = Config::new();
    let mut log: Vec<Cmd> = Vec::new();

    let r1_plan = Namespace::new(s("r1"), false, &config).unwrap();
    for c in r1_plan.cmds.iter() {
        log.push(clone_cmd(c));
    }
    let r1 = config.commit_namespace(r1_plan).unwrap();

    let r2_plan = Namespace::new(s("r2"), false, &config).unwrap();
    for c in r2_plan.cmds.iter() {
        log.push(clone_cmd(c));
    }
    let r2 = config.commit_namespace(r2_plan).unwrap();

    let link = Link::new(s("link1"), s("10.0.0.0/24"), &mut config).unwrap();
    let attach = link.attach(&r1, &r2, &config).unwrap();
    log.push(attach.veth.create_cmd());
    for c in attach.iface1.cmds.iter() {
        log.push(clone_cmd(c));
    }
    let i1 = config.commit_interface(attach.iface1).unwrap();
    for c in attach.iface2.cmds.iter() {
        log.push(clone_cmd(c));
    }
    config.commit_interface(attach.iface2).unwrap();

    let route = Route { dst: s("192.168.1.0/24"), gateway: vec![i1] };
    log.push(r1.add_route(&route).unwrap());

    let expected: Vec<(Option<&str>, Vec<&str>)> = vec![
        (None, vec!["ip", "netns", "add", "r1"]),
        (Some("r1"), vec!["sysctl", "-w", "net.ipv4.ip_forward=1"]),
        (None, vec!["ip", "netns", "add", "r2"]),
        (Some("r2"), vec!["sysctl", "-w", "net.ipv4.ip_forward=1"]),
        (
            None,
            vec!["ip", "link", "add", "r1_link1", "type", "veth", "peer", "name", "r2_link1"],
        ),
        (None, vec!["ip", "link", "set", "r1_link1", "netns", "r1"]),
        (Some("r1"), vec!["ip", "addr", "add", "10.0.0.1/24", "dev", "r1_link1"]),
        (Some("r1"), vec!["ip", "link", "set", "dev", "r1_link1", "mtu", "3000"]),
        (Some("r1"), vec!["ip", "link", "set", "dev", "r1_link1", "up"]),
        (None, vec!["ip", "link", "set", "r2_link1", "netns", "r2"]),
        (Some("r2"), vec!["ip", "addr", "add", "10.0.0.2/24", "dev", "r2_link1"]),
        (Some("r2"), vec!["ip", "link", "set", "dev", "r2_link1", "mtu", "3000"]),
        (Some("r2"), vec!["ip", "link", "set", "dev", "r2_link1", "up"]),
        (
            Some("r1"),
            vec!["ip", "route", "add", "192.168.1.0/24", "nexthop", "via", "10.0.0.1"],
        ),
    ];
    assert_eq!(log.len(), expected.len());
    for (got, (ns, argv)) in log.iter().zip(expected.iter()) {
        assert_eq!(got.netns, ns.map(s));
        let want: Vec<String> = argv.iter().map(|a| s(a)).collect();
        assert_eq!(got.argv, want);
    }
}
