use hera::address::{NetworkAddress, SocketAddress};
use hera::builder::{BuildError, NetworkDriverBuilder};
use hera::bytes::Address;
use hera::driver::NetworkDriver;
use libp2p::gossipsub::IdentTopic;

fn signer() -> Address {
    Address([0x42; 20])
}

fn socket() -> SocketAddress {
    SocketAddress::V4 { ip: [127, 0, 0, 1], port: 9099 }
}

#[test]
fn test_build_missing_unsafe_block_signer() {
    let mut builder = NetworkDriverBuilder::new();
    let Err(err) = builder.build() else {
        panic!("expected error when building NetworkDriver without unsafe block signer");
    };
    assert_eq!(err.message(), "unsafe block signer not set");
}

#[test]
fn test_build_missing_chain_id() {
    let mut builder = NetworkDriverBuilder::new();
    let Err(err) = builder.with_unsafe_block_signer(signer()).build() else {
        panic!("expected error when building NetworkDriver without chain id");
    };
    assert_eq!(err.message(), "chain ID not set");
}

#[test]
fn test_build_missing_socket() {
    let mut builder = NetworkDriverBuilder::new();
    let Err(err) = builder.with_unsafe_block_signer(signer()).with_chain_id(1).build() else {
        panic!("expected error when building NetworkDriver without socket");
    };
    assert_eq!(err.message(), "socket address not set");
}

fn check_driver(driver: &NetworkDriver, id: u64) {
    let net_addr = NetworkAddress::try_from_socket(socket()).expect("network address");

    // Driver assertions
    assert_eq!(driver.gossip.addr.ip, net_addr.ip);
    assert_eq!(driver.gossip.addr.port, net_addr.port);
    assert_eq!(driver.discovery.chain_id, id);
    let expected: libp2p::Multiaddr = "/ip4/127.0.0.1/tcp/9099".parse().unwrap();
    let actual: libp2p::Multiaddr = driver.gossip.addr.multiaddr().parse().unwrap();
    assert_eq!(actual, expected);

    // Block handler assertions
    assert_eq!(driver.gossip.handler.chain_id, id);
    let v1 = IdentTopic::new(format!("/optimism/{}/0/blocks", id));
    assert_eq!(driver.gossip.handler.blocks_v1_topic, v1.hash().into_string());
    let v2 = IdentTopic::new(format!("/optimism/{}/1/blocks", id));
    assert_eq!(driver.gossip.handler.blocks_v2_topic, v2.hash().into_string());
    let v3 = IdentTopic::new(format!("/optimism/{}/2/blocks", id));
    assert_eq!(driver.gossip.handler.blocks_v3_topic, v3.hash().into_string());
}

#[test]
fn test_build_custom_gossip_config() {
    let id = 10;
    let cfg = libp2p::gossipsub::ConfigBuilder::default().flood_publish(true).build().unwrap();
    let driver = NetworkDriverBuilder::new()
        .with_unsafe_block_signer(signer())
        .with_chain_id(id)
        .with_socket(socket())
        .with_gossip_config(cfg)
        .build()
        .unwrap();
    check_driver(&driver, id);
    assert!(driver.gossip.config.is_some());
}

#[test]
fn test_build_default_network_driver() {
    let id = 10;
    let driver = NetworkDriverBuilder::new()
        .with_unsafe_block_signer(signer())
        .with_chain_id(id)
        .with_socket(socket())
        .build()
        .unwrap();
    check_driver(&driver, id);
    assert!(driver.gossip.config.is_none());
    assert_eq!(driver.gossip.handler.unsafe_block_signer.0, [0x42; 20]);
}

#[test]
fn build_rejects_ipv6_socket() {
    let err = NetworkDriver::builder()
        .with_unsafe_block_signer(signer())
        .with_chain_id(10)
        .with_socket(SocketAddress::V6 { ip6: [0; 16], port6: 9099 })
        .build()
        .unwrap_err();
    assert!(matches!(err, BuildError::InvalidSocket(_)));
}

#[test]
fn missing_field_messages_are_distinct() {
    let a = BuildError::MissingUnsafeBlockSigner.message();
    let b = BuildError::MissingChainId.message();
    let c = BuildError::MissingSocket.message();
    assert_ne!(a, b);
    assert_ne!(a, c);
    assert_ne!(b, c);
}

#[test]
fn missing_chain_id_alone_fails_even_with_socket() {
    let mut builder = NetworkDriverBuilder::new();
    let err = builder.with_unsafe_block_signer(signer()).with_socket(socket()).build().unwrap_err();
    assert_eq!(err, BuildError::MissingChainId);
}

#[test]
fn missing_signer_alone_fails_even_with_others() {
    let mut builder = NetworkDriverBuilder::new();
    let err = builder.with_chain_id(10).with_socket(socket()).build().unwrap_err();
    assert_eq!(err, BuildError::MissingUnsafeBlockSigner);
}

#[test]
fn multiaddr_text_round_trips() {
    for (ip, port) in [([0u8, 0, 0, 0], 0u16), ([255, 255, 255, 255], 65535), ([10, 1, 20, 200], 30303)] {
        let addr = NetworkAddress { ip, port };
        let text = addr.multiaddr();
        let parsed: libp2p::Multiaddr = text.parse().unwrap();
        assert_eq!(parsed.to_string(), text);
        assert_eq!(text, format!("/ip4/{}.{}.{}.{}/tcp/{}", ip[0], ip[1], ip[2], ip[3], port));
    }
}
