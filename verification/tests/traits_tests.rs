use connection_models::connection_traits::{
    Connectable, LocalHostConnection, TcpConnection, UdpConnection, use_connection_dyn,
    use_connection_generic,
};

#[test]
fn static_dispatch_lines() {
    let tcp = TcpConnection { address: "10.0.0.1".to_string(), port: 443, encryption: true };
    let udp = UdpConnection { address: "10.0.0.2".to_string(), port: 8080 };
    let local = LocalHostConnection { port: 9000 };
    assert_eq!(
        use_connection_generic(&tcp),
        vec![
            "tcp://10.0.0.1:443 (encryption: true)".to_string(),
            "[TCP] Connecting to 10.0.0.1:443 (encryption: true)".to_string(),
        ]
    );
    assert_eq!(
        use_connection_generic(&udp),
        vec![
            "udp://10.0.0.2:8080".to_string(),
            "[UDP] Connecting to 10.0.0.2:8080".to_string(),
        ]
    );
    assert_eq!(
        use_connection_generic(&local),
        vec![
            "local://9000".to_string(),
            "[Local] Connecting to local port 9000".to_string(),
        ]
    );
}

#[test]
fn dynamic_dispatch_matches_static_dispatch() {
    let tcp = TcpConnection { address: "10.0.0.1".to_string(), port: 443, encryption: true };
    let udp = UdpConnection { address: "10.0.0.2".to_string(), port: 8080 };
    let local = LocalHostConnection { port: 9000 };
    assert_eq!(use_connection_dyn(&tcp), use_connection_generic(&tcp));
    assert_eq!(use_connection_dyn(&udp), use_connection_generic(&udp));
    assert_eq!(use_connection_dyn(&local), use_connection_generic(&local));
}

#[test]
fn heterogeneous_trait_objects_keep_order() {
    let connections: Vec<Box<dyn Connectable>> = vec![
        Box::new(TcpConnection { address: "10.0.0.1".to_string(), port: 443, encryption: true }),
        Box::new(UdpConnection { address: "10.0.0.2".to_string(), port: 8080 }),
        Box::new(LocalHostConnection { port: 9000 }),
    ];
    let mut lines = Vec::new();
    for conn in connections.iter() {
        lines.extend(use_connection_dyn(conn.as_ref()));
    }
    assert_eq!(
        lines,
        vec![
            "tcp://10.0.0.1:443 (encryption: true)".to_string(),
            "[TCP] Connecting to 10.0.0.1:443 (encryption: true)".to_string(),
            "udp://10.0.0.2:8080".to_string(),
            "[UDP] Connecting to 10.0.0.2:8080".to_string(),
            "local://9000".to_string(),
            "[Local] Connecting to local port 9000".to_string(),
        ]
    );
}
