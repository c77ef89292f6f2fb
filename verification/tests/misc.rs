use rust_vpn::device::{DeviceError, TunConfig, TunnelDevice};
use rust_vpn::errors::ServerError;
use rust_vpn::messages::{KeepAliveMessage, KeepAliveType, PeerState, NOISE_PATTERN};
use rust_vpn::net::Endpoint;
use rust_vpn::packet::{parse_packet, try_parse_packet, PacketError};
use rust_vpn::supervisor::{supervise, SupervisorAction, TaskEvent};

#[test]
fn server_error_messages() {
    assert_eq!(ServerError::NoAddressLeft.message(), "no addresses left to assign");
    assert_eq!(ServerError::NoSuchClient.message(), "no such client found on server");
}

#[test]
fn endpoint_construction_and_key() {
    let e = Endpoint::new(10, 0, 0, 2, 9001);
    assert_eq!(e.ip, 0x0A00_0002);
    assert_eq!(e.port, 9001);
    assert_eq!(e.key(), 0x0A00_0002u64 * 65536 + 9001);
    assert_ne!(Endpoint::new(10, 0, 0, 2, 1).key(), Endpoint::new(10, 0, 0, 3, 1).key());
    assert_eq!(Endpoint::new(255, 255, 255, 255, 0).ip, u32::MAX);
    assert_eq!(Endpoint::new(192, 168, 0, 1, 0).ip, 0xC0A8_0001);
}

#[test]
fn messages_and_states() {
    let m = KeepAliveMessage { msg_type: KeepAliveType::Request };
    assert_eq!(m.msg_type, KeepAliveType::Request);
    assert_ne!(KeepAliveType::Request, KeepAliveType::Reply);
    assert_ne!(PeerState::Handshaking, PeerState::Connected);
    assert_eq!(NOISE_PATTERN, "Noise_IK_22519_ChaChaPoly_BLAKE2s");
}

#[test]
fn empty_packet_is_refused() {
    assert!(matches!(try_parse_packet(&[]), Err(PacketError::Internet(_))));
}

#[test]
fn garbage_is_refused() {
    assert!(try_parse_packet(&[0xFF, 0x00, 0x01]).is_err());
}

fn ipv4_header_checksum(h: &[u8]) -> u16 {
    let mut sum: u32 = 0;
    for i in (0..h.len()).step_by(2) {
        sum += u32::from(u16::from_be_bytes([h[i], h[i + 1]]));
    }
    while sum > 0xFFFF {
        sum = (sum & 0xFFFF) + (sum >> 16);
    }
    !(sum as u16)
}

#[test]
fn ipv4_packet_is_parsed() {
    // An ICMP echo request from 10.0.0.9 to 10.0.0.10.
    let mut p = vec![
        0x45, 0x00, 0x00, 0x1c, 0x00, 0x01, 0x00, 0x00, 0x40, 0x01, 0x00, 0x00, 10, 0, 0, 9, 10, 0,
        0, 10, 0x08, 0x00, 0xf7, 0xfe, 0x00, 0x01, 0x00, 0x00,
    ];
    let c = ipv4_header_checksum(&p[..20]);
    p[10] = (c >> 8) as u8;
    p[11] = (c & 0xFF) as u8;
    let internet = try_parse_packet(&p).expect("a valid IPv4 packet");
    assert_eq!(internet.protocol_name, "IPv4");
    let internet = parse_packet(&p);
    assert_eq!(internet.protocol_name, "IPv4");
    assert_eq!(internet.source.unwrap().to_string(), "10.0.0.9");
    assert_eq!(internet.destination.unwrap().to_string(), "10.0.0.10");
}

#[test]
fn failed_device_creation_is_reported() {
    let settings = config_named("tun3", None);
    match TunnelDevice::from_creation(Err(tun::Error::InvalidConfig), settings) {
        Err(DeviceError::Create(tun::Error::InvalidConfig, g)) => assert_eq!(g.tun_name.as_deref(), Some("tun3")),
        _ => panic!("expected the creation error"),
    }
}

#[test]
fn supervisor_reactions() {
    assert_eq!(supervise(TaskEvent::ShutdownRequested), SupervisorAction::Leave);
    assert_eq!(supervise(TaskEvent::JoinFailed), SupervisorAction::Leave);
    assert_eq!(supervise(TaskEvent::TaskFailed), SupervisorAction::CancelAll);
    assert_eq!(supervise(TaskEvent::TaskFinished), SupervisorAction::CancelAll);
}

fn config_named(name: &str, queues: Option<usize>) -> TunConfig {
    TunConfig {
        tun_name: Some(name.to_string()),
        address: None,
        netmask: None,
        destination: None,
        queues,
        up: false,
    }
}

#[test]
fn refused_device_settings() {
    assert!(matches!(
        TunnelDevice::new(&config_named("a-name-far-too-long", None)),
        Err(DeviceError::Create(tun::Error::NameTooLong, _))
    ));
    assert!(matches!(
        TunnelDevice::new(&config_named("tun\0x", None)),
        Err(DeviceError::Create(tun::Error::Nul(_), _))
    ));
    assert!(matches!(
        TunnelDevice::new(&config_named("tun7", Some(2))),
        Err(DeviceError::Create(tun::Error::InvalidQueuesNumber, _))
    ));
}

#[test]
fn refused_device_carries_its_settings() {
    match TunnelDevice::new(&config_named("tun8", Some(3))) {
        Err(DeviceError::Create(_, g)) => {
            assert_eq!(g.tun_name.as_deref(), Some("tun8"));
            assert_eq!(g.queues, Some(3));
        }
        Ok(_) => panic!("three queues are refused"),
    }
}
