use connection_models::connection_builder_a as builder_a;
use connection_models::connection_builder_b as builder_b;

#[test]
fn consuming_builder_full_chain() {
    let conn = builder_a::ConnectionBuilder::default()
        .address("10.0.0.1".to_string())
        .protocol(builder_a::Protocol::Tcp)
        .port(8080)
        .build()
        .unwrap();
    assert_eq!(conn.address, "10.0.0.1");
    assert_eq!(conn.port, 8080);
    assert_eq!(conn.protocol, builder_a::Protocol::Tcp);
    assert!(!conn.encryption);
}

#[test]
fn consuming_builder_defaults() {
    let conn = builder_a::ConnectionBuilder::default().port(443).build().unwrap();
    assert_eq!(conn.address, "127.0.0.1");
    assert_eq!(conn.protocol, builder_a::Protocol::Udp);
    assert!(!conn.encryption);
}

#[test]
fn consuming_builder_encryption() {
    let conn = builder_a::ConnectionBuilder::default()
        .address("10.0.0.1".to_string())
        .port(443)
        .encryption(true)
        .build()
        .unwrap();
    assert!(conn.encryption);
}

#[test]
fn consuming_builder_missing_port() {
    let err = builder_a::ConnectionBuilder::default()
        .address("10.0.0.1".to_string())
        .build()
        .unwrap_err();
    assert_eq!(err, "port is required");
}

#[test]
fn consuming_builder_boundary_ports() {
    assert_eq!(builder_a::ConnectionBuilder::default().port(1).build().unwrap().port, 1);
    assert_eq!(builder_a::ConnectionBuilder::default().port(65535).build().unwrap().port, 65535);
    assert_eq!(builder_a::ConnectionBuilder::default().port(0).build().unwrap().port, 0);
}

#[test]
fn immutable_builder_leaves_base_untouched() {
    let base = builder_b::ConnectionBuilder::default()
        .address("10.0.0.1".to_string())
        .protocol(builder_b::Protocol::Tcp);
    let with_port = base.port(8080);
    assert!(base.port.is_none());
    assert_eq!(with_port.port, Some(8080));
    let built = with_port.build().unwrap();
    assert_eq!(built.address, "10.0.0.1");
    assert_eq!(built.port, 8080);
}

#[test]
fn immutable_builder_missing_port() {
    let err = builder_b::ConnectionBuilder::default().build().unwrap_err();
    assert_eq!(err, "port is required");
}

#[test]
fn immutable_builder_varies_only_port() {
    let base = builder_b::ConnectionBuilder::default()
        .address("10.0.0.1".to_string())
        .protocol(builder_b::Protocol::Tcp);
    let connections: Vec<builder_b::Connection> =
        (8080..8090).map(|p| base.port(p).build().unwrap()).collect();
    assert_eq!(connections.len(), 10);
    assert_eq!(connections.first().unwrap().port, 8080);
    assert_eq!(connections.last().unwrap().port, 8089);
    for c in &connections {
        assert_eq!(c.address, "10.0.0.1");
    }
}

#[test]
fn immutable_builder_grouped_by_address() {
    let groups = vec![
        ("10.0.0.1", 8080..8090),
        ("10.0.0.2", 8090..8100),
        ("127.0.0.1", 8100..8110),
    ];
    let base = builder_b::ConnectionBuilder::default().protocol(builder_b::Protocol::Tcp);
    let mut connections = Vec::new();
    let mut addr_builders = Vec::new();
    for (addr, ports) in groups {
        let addr_builder = base.address(addr.to_string());
        addr_builders.push(addr_builder.clone());
        for port in ports {
            connections.push(addr_builder.port(port).build().unwrap());
        }
    }
    for b in &addr_builders {
        connections.push(b.port(11000).build().unwrap());
    }
    assert_eq!(connections.len(), 33);
    assert_eq!(builder_b::use_connection(&connections[0]), "10.0.0.1:8080");
    assert_eq!(builder_b::use_connection(connections.last().unwrap()), "127.0.0.1:11000");
}

#[test]
fn summary_format() {
    let c = builder_b::ConnectionBuilder::default()
        .address("10.0.0.7".to_string())
        .port(65535)
        .build()
        .unwrap();
    assert_eq!(builder_b::use_connection(&c), "10.0.0.7:65535");
}
