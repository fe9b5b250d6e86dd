use lnp_locator::node_addr;
use lnp_locator::zmqsocket;
use lnp_locator::{
    InetAddr, InetSocketAddr, IpAddr, NodeAddr, NodeId, NodeLocator, ParseError, RemoteAddr,
    SocketAddr,
};

#[test]
fn test_native() {
    let pubkey1 = NodeId::from_str(
        "022e58afe51f9ed8ad3cc7897f634d881fdbe49a81564629ded8156bebd2ffd1af",
    )
    .unwrap();
    let pubkey2 = NodeId::from_str(
        "032e58afe51f9ed8ad3cc7897f634d881fdbe49a81564629ded8156bebd2ffd1af",
    )
    .unwrap();
    let inet1 = InetAddr::from_str("127.0.0.1").unwrap();
    let inet2 = InetAddr::from_str("127.0.0.2").unwrap();
    let locator1 = NodeLocator::Native(pubkey1, inet1, None);
    let locator2 = NodeLocator::Native(pubkey2, inet2, None);

    assert_ne!(locator1, locator2);
    assert_eq!(locator1, locator1.clone());
    assert_eq!(locator2, locator2.clone());

    assert_eq!(locator1.url_scheme(), "lnp");
    assert_eq!(locator1.node_id(), Some(pubkey1));
    assert_eq!(locator1.port(), None);
    assert_eq!(locator1.api_type(), None);
    assert_eq!(locator1.inet_addr(), Some(inet1));
    assert_eq!(locator1.socket_name(), None);
    let locator_with_port = locator1.with_port(24);
    assert_eq!(locator_with_port.port(), Some(24));

    let socket_addr = InetSocketAddr {
        address: inet1,
        port: 24,
    };
    let node_addr = NodeAddr {
        node_id: pubkey1,
        remote_addr: RemoteAddr::Ftcp(socket_addr),
    };
    let l = NodeLocator::from(node_addr.clone());
    assert_eq!(l, locator_with_port);
    assert_ne!(l, locator1);
    assert_eq!(
        NodeAddr::try_from(locator1.clone()),
        Err(node_addr::Error::NoPort)
    );
    assert_eq!(
        NodeAddr::try_from(locator_with_port.clone()),
        Ok(node_addr)
    );

    assert_eq!(
        locator1.to_url_string(),
        "lnp://022e58afe51f9ed8ad3cc7897f634d881fdbe49a81564629ded8156bebd2ffd1af@127.0.0.1"
    );
    assert_eq!(
        locator_with_port.to_url_string(),
        "lnp://022e58afe51f9ed8ad3cc7897f634d881fdbe49a81564629ded8156bebd2ffd1af@127.0.0.1:24"
    );
    assert_eq!(
        l.to_url_string(),
        "lnp://022e58afe51f9ed8ad3cc7897f634d881fdbe49a81564629ded8156bebd2ffd1af@127.0.0.1:24"
    );

    assert_eq!(
        NodeLocator::from_str(
            "lnp://022e58afe51f9ed8ad3cc7897f634d881fdbe49a81564629ded8156bebd2ffd1af@127.0.0.1"
        )
        .unwrap(),
        locator1
    );
    assert_eq!(
        NodeLocator::from_str(
            "022e58afe51f9ed8ad3cc7897f634d881fdbe49a81564629ded8156bebd2ffd1af@127.0.0.1:24"
        )
        .unwrap(),
        locator_with_port
    );
}

#[test]
fn test_udp() {
    let pubkey1 = NodeId::from_str(
        "022e58afe51f9ed8ad3cc7897f634d881fdbe49a81564629ded8156bebd2ffd1af",
    )
    .unwrap();
    let pubkey2 = NodeId::from_str(
        "032e58afe51f9ed8ad3cc7897f634d881fdbe49a81564629ded8156bebd2ffd1af",
    )
    .unwrap();
    let inet1 = IpAddr::from_str("127.0.0.1").unwrap();
    let inet2 = IpAddr::from_str("127.0.0.2").unwrap();
    let locator1 = NodeLocator::Udp(pubkey1, inet1, None);
    let locator2 = NodeLocator::Udp(pubkey2, inet2, None);

    assert_ne!(locator1, locator2);
    assert_eq!(locator1, locator1.clone());
    assert_eq!(locator2, locator2.clone());

    assert_eq!(locator1.url_scheme(), "lnpu");
    assert_eq!(locator1.node_id(), Some(pubkey1));
    assert_eq!(locator1.port(), None);
    assert_eq!(locator1.api_type(), None);
    assert_eq!(locator1.inet_addr(), Some(inet1.to_inet()));
    assert_eq!(locator1.socket_name(), None);
    let locator_with_port = locator1.with_port(24);
    assert_eq!(locator_with_port.port(), Some(24));

    assert_eq!(
        NodeAddr::try_from(locator1.clone()),
        Err(node_addr::Error::UnsupportedType)
    );
    assert_eq!(
        NodeAddr::try_from(locator_with_port.clone()),
        Err(node_addr::Error::UnsupportedType)
    );

    assert_eq!(
        locator1.to_url_string(),
        "lnpu://022e58afe51f9ed8ad3cc7897f634d881fdbe49a81564629ded8156bebd2ffd1af@127.0.0.1"
    );
    assert_eq!(
        locator_with_port.to_url_string(),
        "lnpu://022e58afe51f9ed8ad3cc7897f634d881fdbe49a81564629ded8156bebd2ffd1af@127.0.0.1:24"
    );

    assert_eq!(
        NodeLocator::from_str(
            "lnpu://022e58afe51f9ed8ad3cc7897f634d881fdbe49a81564629ded8156bebd2ffd1af@127.0.0.1"
        )
        .unwrap(),
        locator1
    );
    assert_eq!(
        NodeLocator::from_str(
            "lnpu://022e58afe51f9ed8ad3cc7897f634d881fdbe49a81564629ded8156bebd2ffd1af@127.0.0.1:24"
        )
        .unwrap(),
        locator_with_port
    );
}

#[test]
fn test_websocket() {
    let pubkey1 = NodeId::from_str(
        "022e58afe51f9ed8ad3cc7897f634d881fdbe49a81564629ded8156bebd2ffd1af",
    )
    .unwrap();
    let pubkey2 = NodeId::from_str(
        "032e58afe51f9ed8ad3cc7897f634d881fdbe49a81564629ded8156bebd2ffd1af",
    )
    .unwrap();
    let inet1 = InetAddr::from_str("127.0.0.1").unwrap();
    let inet2 = InetAddr::from_str("127.0.0.2").unwrap();
    let locator1 = NodeLocator::Websocket(pubkey1, inet1, None);
    let locator2 = NodeLocator::Websocket(pubkey2, inet2, None);

    assert_ne!(locator1, locator2);
    assert_eq!(locator1, locator1.clone());
    assert_eq!(locator2, locator2.clone());

    assert_eq!(locator1.url_scheme(), "lnpws");
    assert_eq!(locator1.node_id(), Some(pubkey1));
    assert_eq!(locator1.port(), None);
    assert_eq!(locator1.api_type(), None);
    assert_eq!(locator1.inet_addr(), Some(inet1));
    assert_eq!(locator1.socket_name(), None);
    let locator_with_port = locator1.with_port(24);
    assert_eq!(locator_with_port.port(), Some(24));

    assert_eq!(
        NodeAddr::try_from(locator1.clone()),
        Err(node_addr::Error::UnsupportedType)
    );
    assert_eq!(
        NodeAddr::try_from(locator_with_port.clone()),
        Err(node_addr::Error::UnsupportedType)
    );

    assert_eq!(
        locator1.to_url_string(),
        "lnpws://022e58afe51f9ed8ad3cc7897f634d881fdbe49a81564629ded8156bebd2ffd1af@127.0.0.1"
    );
    assert_eq!(
        locator_with_port.to_url_string(),
        "lnpws://022e58afe51f9ed8ad3cc7897f634d881fdbe49a81564629ded8156bebd2ffd1af@127.0.0.1:24"
    );

    assert_eq!(
        NodeLocator::from_str(
            "lnpws://022e58afe51f9ed8ad3cc7897f634d881fdbe49a81564629ded8156bebd2ffd1af@127.0.0.1"
        )
        .unwrap(),
        locator1
    );
    assert_eq!(
        NodeLocator::from_str(
            "lnpws://022e58afe51f9ed8ad3cc7897f634d881fdbe49a81564629ded8156bebd2ffd1af@127.0.0.1:24"
        )
        .unwrap(),
        locator_with_port
    );
}

#[test]
fn test_zmq_encrypted() {
    let pubkey1 = NodeId::from_str(
        "022e58afe51f9ed8ad3cc7897f634d881fdbe49a81564629ded8156bebd2ffd1af",
    )
    .unwrap();
    let pubkey2 = NodeId::from_str(
        "032e58afe51f9ed8ad3cc7897f634d881fdbe49a81564629ded8156bebd2ffd1af",
    )
    .unwrap();
    let inet1 = IpAddr::from_str("127.0.0.1").unwrap();
    let inet2 = IpAddr::from_str("127.0.0.2").unwrap();
    let locator1 = NodeLocator::ZmqTcpEncrypted(
        pubkey1,
        zmqsocket::ApiType::PeerListening,
        inet1,
        None,
    );
    let locator2 = NodeLocator::ZmqTcpEncrypted(
        pubkey2,
        zmqsocket::ApiType::Client,
        inet2,
        None,
    );
    let locator3 = NodeLocator::ZmqTcpEncrypted(
        pubkey1,
        zmqsocket::ApiType::PeerConnecting,
        inet1,
        None,
    );
    let locator4 = NodeLocator::ZmqTcpEncrypted(
        pubkey2,
        zmqsocket::ApiType::Server,
        inet2,
        None,
    );

    assert_ne!(locator1, locator2);
    assert_ne!(locator2, locator4);
    assert_eq!(locator1, locator3);
    assert_eq!(locator1, locator1.clone());
    assert_eq!(locator2, locator2.clone());

    assert_eq!(locator1.url_scheme(), "lnpz");
    assert_eq!(locator1.node_id(), Some(pubkey1));
    assert_eq!(locator1.port(), None);
    assert_eq!(
        locator1.api_type(),
        Some(zmqsocket::ApiType::PeerListening)
    );
    assert_eq!(locator1.inet_addr(), Some(inet1.to_inet()));
    assert_eq!(locator1.socket_name(), None);
    let locator_with_port = locator1.with_port(24);
    assert_eq!(locator_with_port.port(), Some(24));

    assert_eq!(
        NodeAddr::try_from(locator1.clone()),
        Err(node_addr::Error::NoPort)
    );
    assert_eq!(
        NodeAddr::try_from(locator_with_port.clone()),
        Ok(NodeAddr {
            node_id: pubkey1,
            remote_addr: RemoteAddr::Zmq(SocketAddr::new(inet1, 24))
        })
    );

    assert_eq!(
        locator1.to_url_string(),
        "lnpz://022e58afe51f9ed8ad3cc7897f634d881fdbe49a81564629ded8156bebd2ffd1af@127.0.0.1/?api=p2p"
    );
    assert_eq!(
        locator2.to_url_string(),
        "lnpz://032e58afe51f9ed8ad3cc7897f634d881fdbe49a81564629ded8156bebd2ffd1af@127.0.0.2/?api=rpc"
    );
    assert_eq!(
        locator_with_port.to_url_string(),
        "lnpz://022e58afe51f9ed8ad3cc7897f634d881fdbe49a81564629ded8156bebd2ffd1af@127.0.0.1:24/?api=p2p"
    );

    assert_eq!(
        NodeLocator::from_str(
            "lnpz://022e58afe51f9ed8ad3cc7897f634d881fdbe49a81564629ded8156bebd2ffd1af@127.0.0.1/?api=p2p"
        )
        .unwrap(),
        locator1
    );
    assert_eq!(
        NodeLocator::from_str(
            "lnpz://022e58afe51f9ed8ad3cc7897f634d881fdbe49a81564629ded8156bebd2ffd1af@127.0.0.1:24/?api=p2p"
        )
        .unwrap(),
        locator_with_port
    );
}

#[test]
fn test_zmq_unencrypted() {
    let inet1 = IpAddr::from_str("127.0.0.1").unwrap();
    let inet2 = IpAddr::from_str("127.0.0.2").unwrap();
    let locator1 = NodeLocator::ZmqTcpUnencrypted(
        zmqsocket::ApiType::PeerListening,
        inet1,
        None,
    );
    let locator2 = NodeLocator::ZmqTcpUnencrypted(
        zmqsocket::ApiType::Client,
        inet2,
        None,
    );
    let locator3 = NodeLocator::ZmqTcpUnencrypted(
        zmqsocket::ApiType::PeerConnecting,
        inet1,
        None,
    );
    let locator4 = NodeLocator::ZmqTcpUnencrypted(
        zmqsocket::ApiType::Server,
        inet2,
        None,
    );

    assert_ne!(locator1, locator2);
    assert_ne!(locator2, locator4);
    assert_eq!(locator1, locator3);
    assert_eq!(locator1, locator1.clone());
    assert_eq!(locator2, locator2.clone());

    assert_eq!(locator1.url_scheme(), "lnpz");
    assert_eq!(locator1.node_id(), None);
    assert_eq!(locator1.port(), None);
    assert_eq!(
        locator1.api_type(),
        Some(zmqsocket::ApiType::PeerListening)
    );
    assert_eq!(locator1.inet_addr(), Some(inet1.to_inet()));
    let locator_with_port = locator1.with_port(24);
    assert_eq!(locator_with_port.port(), Some(24));

    assert_eq!(
        NodeAddr::try_from(locator1.clone()),
        Err(node_addr::Error::UnsupportedType)
    );
    assert_eq!(
        NodeAddr::try_from(locator_with_port.clone()),
        Err(node_addr::Error::UnsupportedType)
    );

    assert_eq!(locator1.to_url_string(), "lnpz://127.0.0.1/?api=p2p");
    assert_eq!(locator2.to_url_string(), "lnpz://127.0.0.2/?api=rpc");
    assert_eq!(
        locator_with_port.to_url_string(),
        "lnpz://127.0.0.1:24/?api=p2p"
    );

    assert_eq!(
        NodeLocator::from_str("lnpz://127.0.0.1/?api=p2p").unwrap(),
        locator1
    );
}

#[test]
fn test_zmq_inproc() {
    let locator1 = NodeLocator::ZmqInproc(
        String::from("socket1"),
        zmqsocket::ApiType::PeerListening,
    );
    let locator1_1 = NodeLocator::ZmqInproc(
        String::from("socket1"),
        zmqsocket::ApiType::PeerListening,
    );
    let locator2 = NodeLocator::ZmqInproc(String::from("socket2"), zmqsocket::ApiType::Client);
    let locator3 = NodeLocator::ZmqInproc(
        String::from("socket1"),
        zmqsocket::ApiType::PeerConnecting,
    );
    let locator4 = NodeLocator::ZmqInproc(String::from("socket2"), zmqsocket::ApiType::Server);

    assert_eq!(locator1, locator1_1);
    assert_ne!(locator1, locator2);
    assert_ne!(locator2, locator4);
    assert_eq!(locator1, locator3);
    assert_eq!(locator1, locator1.clone());
    assert_eq!(locator2, locator2.clone());

    assert_eq!(locator1.url_scheme(), "lnpz");
    assert_eq!(locator1.node_id(), None);
    assert_eq!(locator1.port(), None);
    assert_eq!(
        locator1.api_type(),
        Some(zmqsocket::ApiType::PeerListening)
    );
    assert_eq!(locator1.inet_addr(), None);
    assert_eq!(locator1.socket_name(), Some(String::from("socket1")));
    let locator_with_port = locator1.with_port(24);
    assert_eq!(locator_with_port.port(), None);

    assert_eq!(
        NodeAddr::try_from(locator1.clone()),
        Err(node_addr::Error::UnsupportedType)
    );
    assert_eq!(
        NodeAddr::try_from(locator_with_port.clone()),
        Err(node_addr::Error::UnsupportedType)
    );

    assert_eq!(locator1.to_url_string(), "lnpz:?api=p2p#socket1");
    assert_eq!(locator2.to_url_string(), "lnpz:?api=rpc#socket2");
    assert_eq!(locator_with_port.to_url_string(), "lnpz:?api=p2p#socket1");

    assert_eq!(
        NodeLocator::from_str("lnpz:?api=p2p#socket1").unwrap_err(),
        ParseError::InprocRequireZmqContext
    );
}

#[test]
fn test_zmq_ipc() {
    let locator1 = NodeLocator::ZmqIpc(
        String::from("./socket1"),
        zmqsocket::ApiType::PeerListening,
    );
    let locator2 = NodeLocator::ZmqIpc(String::from("./socket2"), zmqsocket::ApiType::Client);
    let locator3 = NodeLocator::ZmqIpc(
        String::from("./socket1"),
        zmqsocket::ApiType::PeerConnecting,
    );
    let locator4 = NodeLocator::ZmqIpc(String::from("./socket2"), zmqsocket::ApiType::Server);

    assert_ne!(locator1, locator2);
    assert_ne!(locator2, locator4);
    assert_eq!(locator1, locator3);
    assert_eq!(locator1, locator1.clone());
    assert_eq!(locator2, locator2.clone());

    assert_eq!(locator1.url_scheme(), "lnpz");
    assert_eq!(locator1.node_id(), None);
    assert_eq!(locator1.port(), None);
    assert_eq!(
        locator1.api_type(),
        Some(zmqsocket::ApiType::PeerListening)
    );
    assert_eq!(locator1.inet_addr(), None);
    assert_eq!(locator1.socket_name(), Some(String::from("./socket1")));
    let locator_with_port = locator1.with_port(24);
    assert_eq!(locator_with_port.port(), None);

    assert_eq!(
        NodeAddr::try_from(locator1.clone()),
        Err(node_addr::Error::UnsupportedType)
    );
    assert_eq!(
        NodeAddr::try_from(locator_with_port.clone()),
        Err(node_addr::Error::UnsupportedType)
    );

    assert_eq!(locator1.to_url_string(), "lnpz:./socket1?api=p2p");
    assert_eq!(locator2.to_url_string(), "lnpz:./socket2?api=rpc");
    assert_eq!(locator_with_port.to_url_string(), "lnpz:./socket1?api=p2p");

    assert_eq!(
        NodeLocator::from_str("lnpz:./socket1?api=p2p").unwrap(),
        locator1
    );
}

#[test]
fn test_text() {
    let pubkey1 = NodeId::from_str(
        "022e58afe51f9ed8ad3cc7897f634d881fdbe49a81564629ded8156bebd2ffd1af",
    )
    .unwrap();
    let pubkey2 = NodeId::from_str(
        "032e58afe51f9ed8ad3cc7897f634d881fdbe49a81564629ded8156bebd2ffd1af",
    )
    .unwrap();
    let locator1 = NodeLocator::Text(pubkey1);
    let locator2 = NodeLocator::Text(pubkey2);

    assert_ne!(locator1, locator2);
    assert_eq!(locator1, locator1.clone());
    assert_eq!(locator2, locator2.clone());

    assert_eq!(locator1.url_scheme(), "lnpt");
    assert_eq!(locator1.node_id(), Some(pubkey1));
    assert_eq!(locator1.port(), None);
    assert_eq!(locator1.api_type(), None);
    assert_eq!(locator1.inet_addr(), None);
    assert_eq!(locator1.socket_name(), None);
    let locator_with_port = locator1.with_port(24);
    assert_eq!(locator_with_port.port(), None);

    assert_eq!(
        NodeAddr::try_from(locator1.clone()),
        Err(node_addr::Error::UnsupportedType)
    );
    assert_eq!(
        NodeAddr::try_from(locator_with_port.clone()),
        Err(node_addr::Error::UnsupportedType)
    );

    assert_eq!(
        locator1.to_url_string(),
        "lnpt://022e58afe51f9ed8ad3cc7897f634d881fdbe49a81564629ded8156bebd2ffd1af"
    );
    assert_eq!(
        locator_with_port.to_url_string(),
        "lnpt://022e58afe51f9ed8ad3cc7897f634d881fdbe49a81564629ded8156bebd2ffd1af"
    );

    assert_eq!(
        NodeLocator::from_str(
            "lnpt://022e58afe51f9ed8ad3cc7897f634d881fdbe49a81564629ded8156bebd2ffd1af"
        )
        .unwrap(),
        locator1
    );
    assert_eq!(
        NodeLocator::from_str(
            "lnpt://022e58afe51f9ed8ad3cc7897f634d881fdbe49a81564629ded8156bebd2ffd1af@127.0.01"
        )
        .unwrap_err(),
        ParseError::HostPresent
    );
    assert_eq!(
        NodeLocator::from_str(
            "lnpt://022e58afe51f9ed8ad3cc7897f634d881fdbe49a81564629ded8156bebd2ffd1af:1323"
        )
        .unwrap_err(),
        ParseError::PortPresent
    );
}
