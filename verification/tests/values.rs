use docker_command::text::decimal_string;
use docker_command::{NameOrId, PortRange, PublishPorts, UserAndGroup, Volume};

#[test]
fn decimal_of_small_and_large_numbers() {
    assert_eq!(decimal_string(0), "0");
    assert_eq!(decimal_string(7), "7");
    assert_eq!(decimal_string(10), "10");
    assert_eq!(decimal_string(1000), "1000");
    assert_eq!(decimal_string(90210), "90210");
    assert_eq!(decimal_string(4294967295), "4294967295");
}

#[test]
fn decimal_agrees_with_the_standard_formatting() {
    let mut n: u32 = 0;
    for _ in 0..2000 {
        assert_eq!(decimal_string(n), n.to_string());
        assert_eq!(decimal_string(u32::MAX - n), (u32::MAX - n).to_string());
        n = n.wrapping_mul(31).wrapping_add(17) % 1_000_003;
    }
}

#[test]
fn port_range_of_one_port_is_the_port() {
    assert_eq!(PortRange::from(80).to_string(), "80");
    assert_eq!(PortRange { start: 5678, end: 5678 }.to_string(), "5678");
}

#[test]
fn port_range_of_two_ports_has_a_hyphen() {
    assert_eq!(PortRange { start: 8000, end: 8010 }.to_string(), "8000-8010");
    assert_eq!(PortRange { start: 0, end: 65535 }.to_string(), "0-65535");
}

#[test]
fn port_range_from_one_integer_round_trips() {
    for port in [0u16, 1, 9, 10, 443, 8080, 65535] {
        let range = PortRange::from(port);
        assert_eq!(range, PortRange { start: port, end: port });
        let text = range.to_string();
        assert_eq!(text.parse::<u16>().unwrap(), port);
    }
    let converted: PortRange = 123.into();
    assert_eq!(converted, PortRange { start: 123, end: 123 });
}

#[test]
fn port_range_default_is_port_zero() {
    assert_eq!(PortRange::default(), PortRange { start: 0, end: 0 });
    assert_eq!(PortRange::default().to_string(), "0");
}

#[test]
fn port_range_is_formatted_as_given_even_when_reversed() {
    assert_eq!(PortRange { start: 5, end: 3 }.to_string(), "5-3");
}

#[test]
fn publish_ports_with_ip_and_host() {
    let ports = PublishPorts {
        container: 5678.into(),
        host: Some(987.into()),
        ip: Some("1.2.3.4".into()),
    };
    assert_eq!(ports.arg(), "1.2.3.4:987:5678");
}

#[test]
fn publish_ports_with_ip_only() {
    let ports = PublishPorts {
        container: 5678.into(),
        host: None,
        ip: Some("1.2.3.4".into()),
    };
    assert_eq!(ports.arg(), "1.2.3.4::5678");
}

#[test]
fn publish_ports_with_host_only() {
    let ports = PublishPorts {
        container: 5678.into(),
        host: Some(987.into()),
        ip: None,
    };
    assert_eq!(ports.arg(), "987:5678");
}

#[test]
fn publish_ports_with_container_only() {
    let ports = PublishPorts {
        container: 5678.into(),
        host: None,
        ip: None,
    };
    assert_eq!(ports.arg(), "5678");
}

#[test]
fn publish_ports_with_ranges() {
    let ports = PublishPorts {
        container: PortRange { start: 80, end: 90 },
        host: Some(PortRange { start: 8080, end: 8090 }),
        ip: Some("127.0.0.1".into()),
    };
    assert_eq!(ports.arg(), "127.0.0.1:8080-8090:80-90");
}

#[test]
fn publish_ports_default_publishes_port_zero() {
    let ports = PublishPorts::default();
    assert_eq!(ports.container, PortRange { start: 0, end: 0 });
    assert_eq!(ports.host, None);
    assert_eq!(ports.ip, None);
    assert_eq!(ports.arg(), "0");
}

#[test]
fn name_or_id_text() {
    assert_eq!(NameOrId::Name("daemon".into()).to_string(), "daemon");
    assert_eq!(NameOrId::Id(0).to_string(), "0");
    assert_eq!(NameOrId::Id(1000).to_string(), "1000");
    assert_eq!(NameOrId::Id(u32::MAX).to_string(), "4294967295");
}

#[test]
fn name_or_id_from_name_and_from_number() {
    assert_eq!(NameOrId::from(String::from("ann")), NameOrId::Name("ann".into()));
    assert_eq!(NameOrId::from(42u32), NameOrId::Id(42));
}

#[test]
fn user_without_group_is_the_bare_user() {
    let user = UserAndGroup { user: NameOrId::Id(501), group: None };
    assert_eq!(user.arg(), "501");
}

#[test]
fn user_with_group_is_joined_by_a_colon() {
    let user = UserAndGroup {
        user: NameOrId::Name("ann".into()),
        group: Some(NameOrId::Id(20)),
    };
    assert_eq!(user.arg(), "ann:20");
}

#[test]
fn root_is_zero_and_zero() {
    let root = UserAndGroup::root();
    assert_eq!(root.user, NameOrId::Id(0));
    assert_eq!(root.group, Some(NameOrId::Id(0)));
    assert_eq!(root.arg(), "0:0");
}

#[test]
fn with_ids_keeps_both_ids() {
    let user = UserAndGroup::with_ids(1000, 100);
    assert_eq!(user.user, NameOrId::Id(1000));
    assert_eq!(user.group, Some(NameOrId::Id(100)));
    assert_eq!(user.arg(), "1000:100");
}

#[test]
fn current_is_the_process_user_and_group() {
    let current = UserAndGroup::current();
    assert_eq!(current.user, NameOrId::Id(users::get_current_uid()));
    assert_eq!(current.group, Some(NameOrId::Id(users::get_current_gid())));
}

#[test]
fn volume_is_read_only_by_default() {
    let volume = Volume {
        src: "/mySrc".into(),
        dst: "/myDst".into(),
        ..Default::default()
    };
    assert!(!volume.read_write);
    assert_eq!(volume.arg(), "/mySrc:/myDst:ro");
}

#[test]
fn volume_read_write() {
    let volume = Volume {
        src: "data".into(),
        dst: "/var/lib/data".into(),
        read_write: true,
        options: Vec::new(),
    };
    assert_eq!(volume.arg(), "data:/var/lib/data:rw");
}

#[test]
fn volume_options_are_joined_by_commas_in_order() {
    let volume = Volume {
        src: "/mySrc".into(),
        dst: "/myDst".into(),
        read_write: false,
        options: vec!["z".into(), "cached".into(), "z".into()],
    };
    assert_eq!(volume.arg(), "/mySrc:/myDst:ro,z,cached,z");
}

#[test]
fn volume_default_is_empty() {
    let volume = Volume::default();
    assert_eq!(volume.src, "");
    assert_eq!(volume.dst, "");
    assert!(!volume.read_write);
    assert!(volume.options.is_empty());
    assert_eq!(volume.arg(), "::ro");
}

#[test]
fn volume_keeps_text_outside_ascii() {
    let volume = Volume {
        src: "/données/été".into(),
        dst: "/mnt/データ".into(),
        read_write: true,
        options: vec!["ö".into()],
    };
    assert_eq!(volume.arg(), "/données/été:/mnt/データ:rw,ö");
}
