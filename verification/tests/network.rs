use io_bridge::network::ChainHash;
use io_bridge::network::Magic;
use io_bridge::network::Network;
use io_bridge::network::NetworkKind;

#[test]
fn serialize_test() {
    assert_eq!(Network::Bitcoin.magic().to_bytes(), [0xf9, 0xbe, 0xb4, 0xd9]);
    assert_eq!(Network::Testnet.magic().to_bytes(), [0x0b, 0x11, 0x09, 0x07]);
    assert_eq!(Network::Testnet4.magic().to_bytes(), [0x1c, 0x16, 0x3f, 0x28]);
    assert_eq!(Network::Signet.magic().to_bytes(), [0x0a, 0x03, 0xcf, 0x40]);
    assert_eq!(Network::Regtest.magic().to_bytes(), [0xfa, 0xbf, 0xb5, 0xda]);

    assert_eq!(
        Network::from_magic(Magic::from_bytes([0xf9, 0xbe, 0xb4, 0xd9])),
        Some(Network::Bitcoin)
    );
    assert_eq!(
        Network::from_magic(Magic::from_bytes([0x0b, 0x11, 0x09, 0x07])),
        Some(Network::Testnet)
    );
    assert_eq!(
        Network::from_magic(Magic::from_bytes([0x1c, 0x16, 0x3f, 0x28])),
        Some(Network::Testnet4)
    );
    assert_eq!(
        Network::from_magic(Magic::from_bytes([0x0a, 0x03, 0xcf, 0x40])),
        Some(Network::Signet)
    );
    assert_eq!(
        Network::from_magic(Magic::from_bytes([0xfa, 0xbf, 0xb5, 0xda])),
        Some(Network::Regtest)
    );
    assert_eq!(
        Network::from_magic(Magic::from_bytes([0x63, 0x70, 0x75, 0x6e])),
        Some(Network::CPUNet)
    );
}

#[test]
fn string_test() {
    assert_eq!(Network::Bitcoin.as_display_str(), "bitcoin");
    assert_eq!(Network::Testnet.as_display_str(), "testnet");
    assert_eq!(Network::Testnet4.as_display_str(), "testnet4");
    assert_eq!(Network::Regtest.as_display_str(), "regtest");
    assert_eq!(Network::Signet.as_display_str(), "signet");
    assert_eq!(Network::CPUNet.as_display_str(), "cpunet");

    assert_eq!("bitcoin".parse::<Network>().unwrap(), Network::Bitcoin);
    assert_eq!("testnet".parse::<Network>().unwrap(), Network::Testnet);
    assert_eq!("testnet4".parse::<Network>().unwrap(), Network::Testnet4);
    assert_eq!("regtest".parse::<Network>().unwrap(), Network::Regtest);
    assert_eq!("signet".parse::<Network>().unwrap(), Network::Signet);
    assert_eq!("cpunet".parse::<Network>().unwrap(), Network::CPUNet);
    assert!("fakenet".parse::<Network>().is_err());
}

#[test]
fn from_to_core_arg() {
    let expected_pairs = [
        (Network::Bitcoin, "main"),
        (Network::Testnet, "test"),
        (Network::Testnet4, "testnet4"),
        (Network::Regtest, "regtest"),
        (Network::Signet, "signet"),
        (Network::CPUNet, "cpunet"),
    ];

    for (net, core_arg) in &expected_pairs {
        assert_eq!(Network::from_core_arg(core_arg), Ok(*net));
        assert_eq!(net.to_core_arg(), *core_arg);
    }
}

#[test]
fn unknown_identifiers_are_errors() {
    let err = Network::from_core_arg("fakenet").unwrap_err();
    assert_eq!(err.input().as_str(), "fakenet");

    let err = "fakenet".parse::<Network>().unwrap_err();
    assert_eq!(err.input().as_str(), "fakenet");

    assert_eq!(Network::from_magic(Magic::from_bytes([0xff, 0xff, 0xff, 0xff])), None);

    let unknown = ChainHash::from_bytes([0xff; 32]);
    assert_eq!(Network::from_chain_hash(unknown), None);
    let err = Network::try_from(unknown).unwrap_err();
    assert_eq!(err.hash, unknown);
}

#[test]
fn chain_hash_round_trip() {
    let nets = [
        Network::Bitcoin,
        Network::Testnet,
        Network::Testnet4,
        Network::Signet,
        Network::Regtest,
        Network::CPUNet,
    ];
    for net in nets {
        assert_eq!(Network::from_chain_hash(net.chain_hash()), Some(net));
        assert_eq!(Network::try_from(net.chain_hash()).unwrap(), net);
        assert_eq!(Network::from_magic(net.magic()), Some(net));
    }
    assert_eq!(
        Network::Bitcoin.chain_hash().to_bytes(),
        [
            0x6f, 0xe2, 0x8c, 0x0a, 0xb6, 0xf1, 0xb3, 0x72, 0xc1, 0xa6, 0xa2, 0x46, 0xae, 0x63,
            0xf7, 0x4f, 0x93, 0x1e, 0x83, 0x65, 0xe1, 0x5a, 0x08, 0x9c, 0x68, 0xd6, 0x19, 0x00,
            0x00, 0x00, 0x00, 0x00
        ]
    );
}

#[test]
fn network_kind() {
    assert!(NetworkKind::Main.is_mainnet());
    assert!(!NetworkKind::Test.is_mainnet());

    assert_eq!(NetworkKind::from(Network::Bitcoin), NetworkKind::Main);
    assert_eq!(NetworkKind::from(Network::Testnet), NetworkKind::Test);
    assert_eq!(NetworkKind::from(Network::Testnet4), NetworkKind::Test);
    assert_eq!(NetworkKind::from(Network::Signet), NetworkKind::Test);
    assert_eq!(NetworkKind::from(Network::Regtest), NetworkKind::Test);
    assert_eq!(NetworkKind::from(Network::CPUNet), NetworkKind::Test);
}

#[test]
fn params_carry_their_network() {
    assert_eq!(Network::Bitcoin.params().network, Network::Bitcoin);
    assert_eq!(Network::Signet.params().network, Network::Signet);
}
