use sio_smoltcp::address::{ip_cidr, ipv4_address, is_valid_interface, CAddress, CIPEndpoint, CInterface, CMacAddress};
use sio_smoltcp::builder::{
    builder_finalize, builder_init_ipv4_reassembly_buffer, builder_init_neighbour_cache,
    builder_set_hardware_addr, builder_set_ip_addr, builder_set_routes, delete_builder,
    is_valid_device, new_builder, Builder,
};
use sio_smoltcp::cdevice::CMedium;
use sio_smoltcp::device::SansIO;
use sio_smoltcp::handles::HandleTable;
use sio_smoltcp::ip_fragment::fragment_ipv4_packet;
use sio_smoltcp::result_codes::{
    DNSGetQueryResultError, DNSStartQueryError, ICMPBindError, ICMPRecvError, ICMPSendError,
    ResultCode, TCPConnectError, TCPListenError, TCPRecvError, TCPSendError, UDPBindError,
    UDPRecvError, UDPSendError,
};
use sio_smoltcp::socket::copy_payload;
use sio_smoltcp::socket::dns::dns_start_query;
use sio_smoltcp::socket::icmp::{
    build_icmpv4_echo_packet, deliver_packet, icmp_bind_any, icmp_bind_ident, icmp_bind_udp, icmp_receive,
    icmp_send, ICMPEchoPacketType,
};
use sio_smoltcp::socket::tcp::{tcp_listen, tcp_receive, tcp_send};
use sio_smoltcp::socket::udp::{
    deliver_datagram, received_size, udp_bind, udp_get_last_received_packet_size, udp_receive, udp_send,
};
use smoltcp::iface::{Config, Interface};
use smoltcp::phy::{Loopback, Medium};
use smoltcp::socket::{dns, icmp, tcp, udp};
use smoltcp::wire::{
    EthernetAddress, Icmpv4Message, Icmpv4Packet, IpAddress, IpCidr, IpEndpoint,
    IpListenEndpoint, Ipv4Address, Ipv4Packet, Ipv6Address,
};

fn v4_mapped(a: u8, b: u8, c: u8, d: u8) -> CAddress {
    CAddress { ip: [0, 0, 0, 0, 0, 0, 0, 0, 0, 0, 0xff, 0xff, a, b, c, d] }
}

fn v6_sample() -> CAddress {
    CAddress { ip: [0x20, 0x01, 0x0d, 0xb8, 0, 0, 0, 0, 0, 0, 0, 0, 0, 0, 0, 1] }
}

#[test]
fn address_round_trip_ipv4_mapped() {
    let a = v4_mapped(192, 168, 1, 7);
    let native: IpAddress = a.into();
    assert_eq!(native, IpAddress::Ipv4(Ipv4Address([192, 168, 1, 7])));
    let back: CAddress = native.into();
    assert_eq!(back, a);
}

#[test]
fn address_round_trip_ipv6() {
    let a = v6_sample();
    let native: IpAddress = a.into();
    assert_eq!(native, IpAddress::Ipv6(Ipv6Address(a.ip)));
    let back: CAddress = native.into();
    assert_eq!(back, a);
}

#[test]
fn ipv4_address_only_for_mapped() {
    assert_eq!(ipv4_address(v4_mapped(10, 0, 0, 1)), Some(Ipv4Address([10, 0, 0, 1])));
    assert_eq!(ipv4_address(v6_sample()), None);
}

#[test]
fn mac_address_converts() {
    let mac = CMacAddress { mac: [2, 0, 0, 0, 0, 1] };
    let e: EthernetAddress = mac.into();
    assert_eq!(e, EthernetAddress([2, 0, 0, 0, 0, 1]));
}

#[test]
fn cidr_prefix_ipv4_drops_mapping_bits() {
    let cidr = ip_cidr(CInterface { prefix: 120, addr: v4_mapped(192, 168, 1, 2) });
    assert_eq!(cidr.prefix_len(), 24);
    assert_eq!(cidr.address(), IpAddress::Ipv4(Ipv4Address([192, 168, 1, 2])));
    assert!(matches!(cidr, IpCidr::Ipv4(_)));
}

#[test]
fn cidr_prefix_ipv6_unchanged() {
    let cidr = ip_cidr(CInterface { prefix: 64, addr: v6_sample() });
    assert_eq!(cidr.prefix_len(), 64);
    assert!(matches!(cidr, IpCidr::Ipv6(_)));
}

#[test]
fn listen_endpoint_zero_is_any() {
    let ep = CIPEndpoint { port: 8080, addr: CAddress { ip: [0; 16] } };
    let listen: IpListenEndpoint = ep.into();
    assert_eq!(listen, IpListenEndpoint { addr: None, port: 8080 });
    let back: CIPEndpoint = listen.into();
    assert_eq!(back, ep);
}

#[test]
fn listen_endpoint_unspecified_ipv4_is_any() {
    let ep = CIPEndpoint { port: 53, addr: v4_mapped(0, 1, 2, 3) };
    let listen: IpListenEndpoint = ep.into();
    assert_eq!(listen.addr, None);
}

#[test]
fn listen_endpoint_keeps_specified_address() {
    let ep = CIPEndpoint { port: 53, addr: v4_mapped(10, 1, 2, 3) };
    let listen: IpListenEndpoint = ep.into();
    assert_eq!(listen.addr, Some(IpAddress::Ipv4(Ipv4Address([10, 1, 2, 3]))));
    let back: CIPEndpoint = listen.into();
    assert_eq!(back, ep);
}

#[test]
fn endpoint_round_trip() {
    let ep = CIPEndpoint { port: 443, addr: v6_sample() };
    let native: IpEndpoint = ep.into();
    assert_eq!(native.port, 443);
    let back: CIPEndpoint = native.into();
    assert_eq!(back, ep);
}

#[test]
fn device_rx_is_fifo() {
    let mut dev = SansIO::new(1500, Medium::Ip);
    dev.put_rx_packet(vec![1, 1, 1]);
    dev.put_rx_packet(vec![2, 2]);
    let first = dev.receive().expect("a frame");
    assert_eq!(first.into_buffer(), vec![1, 1, 1]);
    let second = dev.receive().expect("a frame");
    assert_eq!(second.into_buffer(), vec![2, 2]);
    assert!(dev.receive().is_none());
}

#[test]
fn device_ethernet_mtu_counts_header() {
    assert_eq!(SansIO::new(1500, Medium::Ethernet).mtu(), 1514);
    assert_eq!(SansIO::new(1500, Medium::Ip).mtu(), 1500);
    assert_eq!(SansIO::new(1500, Medium::Ethernet).medium(), Medium::Ethernet);
}

#[test]
fn device_tx_queue() {
    let mut dev = SansIO::new(1500, Medium::Ip);
    assert_eq!(dev.tx_count(), 0);
    assert_eq!(dev.next_tx_packet_size(), 0);
    let mut buf = SansIO::transmit_buffer(4);
    assert_eq!(buf, vec![0, 0, 0, 0]);
    buf[0] = 9;
    dev.push_tx_packet(buf);
    dev.push_tx_packet(vec![7; 10]);
    assert_eq!(dev.tx_count(), 2);
    assert_eq!(dev.next_tx_packet_size(), 4);

    let mut small = [0u8; 2];
    assert_eq!(dev.pop_tx_packet(&mut small), Err(ResultCode::BufferInsufficient));
    assert_eq!(dev.tx_count(), 2);

    let mut dst = [0xaau8; 6];
    assert_eq!(dev.pop_tx_packet(&mut dst), Ok(4));
    assert_eq!(dst, [9, 0, 0, 0, 0xaa, 0xaa]);
    assert_eq!(dev.tx_count(), 1);
    assert_eq!(dev.next_tx_packet_size(), 10);

    let mut big = [0u8; 16];
    assert_eq!(dev.pop_tx_packet(&mut big), Ok(10));
    assert_eq!(dev.pop_tx_packet(&mut big), Ok(0));
}

fn ipv4_datagram(payload_len: usize) -> Vec<u8> {
    let total = 20 + payload_len;
    let mut d = vec![0u8; total];
    d[0] = 0x45;
    d[2] = (total >> 8) as u8;
    d[3] = (total & 0xff) as u8;
    d[4] = 0x12;
    d[5] = 0x34;
    d[6] = 0x40;
    d[8] = 64;
    d[9] = 17;
    d[12..16].copy_from_slice(&[10, 0, 0, 1]);
    d[16..20].copy_from_slice(&[10, 0, 0, 2]);
    for i in 0..payload_len {
        d[20 + i] = (i % 251) as u8;
    }
    let mut p = Ipv4Packet::new_unchecked(&mut d[..]);
    p.fill_checksum();
    d
}

fn check_fragments(data: &[u8], frags: &[Vec<u8>], chunk: usize) {
    let mut joined = Vec::new();
    for (i, f) in frags.iter().enumerate() {
        let p = Ipv4Packet::new_unchecked(&f[..]);
        assert!(p.verify_checksum());
        assert!(!p.dont_frag());
        assert_eq!(p.more_frags(), i + 1 != frags.len());
        assert_eq!(&f[12..20], &data[12..20]);
        assert!(f.len() - 20 <= chunk);
        joined.extend_from_slice(&f[20..]);
    }
    assert_eq!(&joined[..], &data[20..]);
}

#[test]
fn fragment_3000_byte_datagram_at_mtu_1500() {
    let mut data = ipv4_datagram(2980);
    let original = data.clone();
    let frags = fragment_ipv4_packet(&mut data, 1500);
    assert_eq!(data, original);
    // 1480 bytes of payload per fragment: 1480 + 1480 + 20.
    assert_eq!(frags.len(), 3);
    assert_eq!(frags[0].len(), 1500);
    assert_eq!(frags[1].len(), 1500);
    assert_eq!(frags[2].len(), 40);
    check_fragments(&original, &frags, 1480);
}

#[test]
fn fragment_into_two() {
    let mut data = ipv4_datagram(2980);
    let original = data.clone();
    let frags = fragment_ipv4_packet(&mut data, 1510);
    assert_eq!(frags.len(), 2);
    assert!(Ipv4Packet::new_unchecked(&frags[0][..]).more_frags());
    assert!(!Ipv4Packet::new_unchecked(&frags[1][..]).more_frags());
    check_fragments(&original, &frags, 1490);
}

#[test]
fn fragment_small_datagram_is_one_fragment() {
    let mut data = ipv4_datagram(100);
    let original = data.clone();
    let frags = fragment_ipv4_packet(&mut data, 1500);
    assert_eq!(frags.len(), 1);
    assert_eq!(frags[0].len(), 120);
    check_fragments(&original, &frags, 1480);
}

#[test]
fn fragment_empty_payload_gives_none() {
    let mut data = ipv4_datagram(0);
    assert_eq!(fragment_ipv4_packet(&mut data, 1500).len(), 0);
}

#[test]
fn handle_double_free_is_rejected() {
    let mut t: HandleTable<u32> = HandleTable::new();
    let h = t.insert(5);
    assert!(t.contains(h));
    assert_eq!(t.get(h), Some(&5));
    assert_eq!(t.remove(h), Some(5));
    assert_eq!(t.remove(h), None);
    assert_eq!(t.get(h), None);
    let h2 = t.insert(6);
    assert_ne!(h2, h);
    assert_eq!(h2.index, h.index);
    assert_eq!(t.get(h), None);
    assert_eq!(t.get(h2), Some(&6));
}

#[test]
fn handle_get_mut_updates() {
    let mut t: HandleTable<u32> = HandleTable::new();
    let a = t.insert(1);
    let b = t.insert(2);
    *t.get_mut(b).unwrap() += 40;
    assert_eq!(t.get(a), Some(&1));
    assert_eq!(t.get(b), Some(&42));
    t.remove(a);
    assert!(t.get_mut(a).is_none());
}

#[test]
fn builder_handle_dead_after_finalize() {
    let mut builders: HandleTable<Builder> = HandleTable::new();
    let h0 = new_builder(&mut builders);
    let h1 = builder_set_hardware_addr(&mut builders, h0, CMacAddress { mac: [2, 0, 0, 0, 0, 1] })
        .unwrap();
    assert!(builder_init_neighbour_cache(&mut builders, h0).is_none());
    let h2 = builder_init_neighbour_cache(&mut builders, h1).unwrap();
    let h3 = builder_init_ipv4_reassembly_buffer(&mut builders, h2).unwrap();
    let h4 = builder_set_ip_addr(
        &mut builders,
        h3,
        CInterface { prefix: 120, addr: v4_mapped(192, 168, 69, 1) },
    )
    .unwrap();
    let h5 = builder_set_routes(&mut builders, h4, v4_mapped(192, 168, 69, 100)).unwrap();
    let fin = builder_finalize(&mut builders, h5, CMedium::Ethernet, 1500).unwrap();
    assert_eq!(fin.device.mtu(), 1514);
    assert_eq!(fin.config.hardware_addr, Some(EthernetAddress([2, 0, 0, 0, 0, 1])));
    assert!(fin.config.neighbor_cache);
    assert!(fin.config.ipv4_reassembly_buffer);
    assert_eq!(fin.config.ip_addr.unwrap().prefix_len(), 24);
    assert_eq!(fin.config.ipv4_gateway, Some(Ipv4Address([192, 168, 69, 100])));
    assert!(builder_set_routes(&mut builders, h5, v4_mapped(1, 2, 3, 4)).is_none());
    assert!(builder_finalize(&mut builders, h5, CMedium::Ip, 1500).is_none());
    assert!(!delete_builder(&mut builders, h5));
}

#[test]
fn builder_delete_twice() {
    let mut builders: HandleTable<Builder> = HandleTable::new();
    let h = new_builder(&mut builders);
    assert!(delete_builder(&mut builders, h));
    assert!(!delete_builder(&mut builders, h));
}

#[test]
fn builder_last_write_wins() {
    let b = Builder::new()
        .hardware_addr(CMacAddress { mac: [1; 6] })
        .hardware_addr(CMacAddress { mac: [3; 6] });
    assert_eq!(b.hardware_addr, Some(EthernetAddress([3; 6])));
    assert!(b.ip_addr.is_none());
}

#[test]
fn medium_codes() {
    assert_eq!(CMedium::from_code(0), Some(CMedium::Invalid));
    assert_eq!(CMedium::from_code(2), Some(CMedium::Ethernet));
    assert_eq!(CMedium::from_code(3), Some(CMedium::Ip));
    assert_eq!(CMedium::from_code(4), Some(CMedium::Ieee802154));
    assert_eq!(CMedium::from_code(1), None);
    assert_eq!(CMedium::Ethernet.to_medium(), Some(Medium::Ethernet));
    assert_eq!(CMedium::Ip.to_medium(), Some(Medium::Ip));
    assert_eq!(CMedium::Invalid.to_medium(), None);
    assert_eq!(CMedium::Ieee802154.to_medium(), None);
}

#[test]
fn result_code_values() {
    assert_eq!(ResultCode::OK.code(), 0);
    assert_eq!(ResultCode::Exhausted.code(), 1);
    assert_eq!(ResultCode::Unaddressable.code(), 3);
    assert_eq!(ResultCode::Finished.code(), 4);
    assert_eq!(ResultCode::InvalidState.code(), 20);
    assert_eq!(ResultCode::BufferFull.code(), 21);
    assert_eq!(ResultCode::NoFreeSlot.code(), 22);
    assert_eq!(ResultCode::InvalidName.code(), 23);
    assert_eq!(ResultCode::NameTooLong.code(), 24);
    assert_eq!(ResultCode::Pending.code(), 25);
    assert_eq!(ResultCode::Failed.code(), 26);
    assert_eq!(ResultCode::BufferInsufficient.code(), 255);
}

#[test]
fn narrow_errors_map_by_name() {
    assert_eq!(ResultCode::from(TCPListenError::InvalidState), ResultCode::InvalidState);
    assert_eq!(ResultCode::from(TCPListenError::Unaddressable), ResultCode::Unaddressable);
    assert_eq!(ResultCode::from(TCPConnectError::OK), ResultCode::OK);
    assert_eq!(ResultCode::from(TCPSendError::InvalidState), ResultCode::InvalidState);
    assert_eq!(ResultCode::from(TCPRecvError::Finished), ResultCode::Finished);
    assert_eq!(ResultCode::from(UDPBindError::Unaddressable), ResultCode::Unaddressable);
    assert_eq!(ResultCode::from(UDPSendError::BufferFull), ResultCode::BufferFull);
    assert_eq!(ResultCode::from(UDPRecvError::Exhausted), ResultCode::Exhausted);
    assert_eq!(ResultCode::from(ICMPBindError::InvalidState), ResultCode::InvalidState);
    assert_eq!(ResultCode::from(ICMPSendError::Unaddressable), ResultCode::Unaddressable);
    assert_eq!(ResultCode::from(ICMPRecvError::Exhausted), ResultCode::Exhausted);
    assert_eq!(ResultCode::from(DNSStartQueryError::NameTooLong), ResultCode::NameTooLong);
    assert_eq!(ResultCode::from(DNSGetQueryResultError::Pending), ResultCode::Pending);
    assert_eq!(ResultCode::from(DNSGetQueryResultError::Failed).code(), 26);
}

#[test]
fn narrow_errors_round_trip_with_stack_errors() {
    assert_eq!(UDPBindError::from(udp::BindError::InvalidState), UDPBindError::InvalidState);
    assert_eq!(UDPBindError::from(Ok::<(), udp::BindError>(())), UDPBindError::OK);
    assert_eq!(UDPBindError::InvalidState.into_result(), Err(udp::BindError::InvalidState));
    assert_eq!(UDPBindError::OK.into_result(), Ok(()));
    assert_eq!(
        TCPRecvError::from(Err::<(), tcp::RecvError>(tcp::RecvError::Finished)),
        TCPRecvError::Finished
    );
    assert_eq!(
        DNSStartQueryError::InvalidName.into_result(),
        Err(dns::StartQueryError::InvalidName)
    );
    assert_eq!(ICMPSendError::from(icmp::SendError::BufferFull), ICMPSendError::BufferFull);
}

#[test]
fn copy_payload_checks_capacity() {
    let mut dst = [0u8; 3];
    assert_eq!(copy_payload(&[1, 2, 3, 4], &mut dst), ResultCode::BufferInsufficient);
    assert_eq!(dst, [0, 0, 0]);
    assert_eq!(copy_payload(&[1, 2], &mut dst), ResultCode::OK);
    assert_eq!(dst, [1, 2, 0]);
}

fn new_udp() -> udp::Socket<'static> {
    udp::Socket::new(
        udp::PacketBuffer::new(vec![udp::PacketMetadata::EMPTY], vec![0; 64]),
        udp::PacketBuffer::new(vec![udp::PacketMetadata::EMPTY], vec![0; 64]),
    )
}

#[test]
fn udp_bind_is_idempotent() {
    let mut s = new_udp();
    assert_eq!(udp_bind(&mut s, 0), UDPBindError::Unaddressable);
    assert_eq!(udp_bind(&mut s, 1234), UDPBindError::OK);
    assert!(s.is_open());
    assert_eq!(udp_bind(&mut s, 999), UDPBindError::OK);
    assert_eq!(s.endpoint().port, 1234);
}

#[test]
fn udp_receive_empty_and_send_checks() {
    let mut s = new_udp();
    udp_bind(&mut s, 1234);
    let mut ep = CIPEndpoint { port: 1, addr: v6_sample() };
    let mut dst = [0u8; 8];
    assert_eq!(udp_receive(&mut s, &mut ep, &mut dst), ResultCode::Exhausted);
    assert_eq!(ep.port, 1);
    assert_eq!(udp_get_last_received_packet_size(&mut s), 0);
    let bad = CIPEndpoint { port: 0, addr: v4_mapped(10, 0, 0, 2) };
    assert_eq!(udp_send(&mut s, bad, &[1, 2, 3]), UDPSendError::Unaddressable);
    let good = CIPEndpoint { port: 53, addr: v4_mapped(10, 0, 0, 2) };
    assert_eq!(udp_send(&mut s, good, &[1, 2, 3]), UDPSendError::OK);
}

fn new_tcp() -> tcp::Socket<'static> {
    tcp::Socket::new(tcp::SocketBuffer::new(vec![0; 64]), tcp::SocketBuffer::new(vec![0; 64]))
}

#[test]
fn tcp_listen_and_closed_socket_errors() {
    let mut s = new_tcp();
    assert_eq!(tcp_send(&mut s, &[1, 2]), Err(TCPSendError::InvalidState));
    let mut dst = [0u8; 4];
    assert_eq!(tcp_receive(&mut s, &mut dst), Err(TCPRecvError::InvalidState));
    assert_eq!(tcp_listen(&mut s, 0), TCPListenError::Unaddressable);
    assert_eq!(tcp_listen(&mut s, 80), TCPListenError::OK);
    assert!(s.is_listening());
    assert_eq!(tcp_listen(&mut s, 81), TCPListenError::InvalidState);
}

fn new_icmp() -> icmp::Socket<'static> {
    icmp::Socket::new(
        icmp::PacketBuffer::new(vec![icmp::PacketMetadata::EMPTY], vec![0; 64]),
        icmp::PacketBuffer::new(vec![icmp::PacketMetadata::EMPTY], vec![0; 64]),
    )
}

#[test]
fn icmp_bind_variants() {
    let mut s = new_icmp();
    assert_eq!(icmp_bind_any(&mut s), ICMPBindError::Unaddressable);
    assert_eq!(
        icmp_bind_udp(&mut s, CIPEndpoint { port: 0, addr: v4_mapped(1, 2, 3, 4) }),
        ICMPBindError::Unaddressable
    );
    assert_eq!(icmp_bind_ident(&mut s, 0x1234), ICMPBindError::OK);
    assert_eq!(icmp_bind_any(&mut s), ICMPBindError::OK);
    let mut t = new_icmp();
    assert_eq!(
        icmp_bind_udp(&mut t, CIPEndpoint { port: 7, addr: v4_mapped(1, 2, 3, 4) }),
        ICMPBindError::OK
    );
}

#[test]
fn icmp_send_and_receive_checks() {
    let mut s = new_icmp();
    icmp_bind_ident(&mut s, 7);
    assert_eq!(icmp_send(&mut s, v4_mapped(0, 0, 0, 0), &[1, 2]), ICMPSendError::Unaddressable);
    assert_eq!(icmp_send(&mut s, v4_mapped(10, 0, 0, 9), &[1, 2]), ICMPSendError::OK);
    let mut addr = v6_sample();
    let mut dst = [0u8; 8];
    assert_eq!(icmp_receive(&mut s, &mut addr, &mut dst), ResultCode::Exhausted);
    assert_eq!(addr, v6_sample());
}

#[test]
fn icmp_echo_packet_build() {
    let payload = [0xde, 0xad, 0xbe, 0xef];
    let mut small = [0u8; 6];
    assert_eq!(
        build_icmpv4_echo_packet(ICMPEchoPacketType::EchoRequest, 1, 2, &payload, &mut small),
        12
    );
    assert_eq!(small, [0u8; 6]);
    let mut dst = [0u8; 12];
    assert_eq!(
        build_icmpv4_echo_packet(ICMPEchoPacketType::EchoRequest, 0x1234, 7, &payload, &mut dst),
        0
    );
    let p = Icmpv4Packet::new_unchecked(&dst[..]);
    assert_eq!(p.msg_type(), Icmpv4Message::EchoRequest);
    assert_eq!(p.echo_ident(), 0x1234);
    assert_eq!(p.echo_seq_no(), 7);
    assert!(p.verify_checksum());
    assert_eq!(&dst[8..], &payload);
    let mut reply = [0u8; 12];
    build_icmpv4_echo_packet(ICMPEchoPacketType::EchoReply, 1, 1, &payload, &mut reply);
    assert_eq!(Icmpv4Packet::new_unchecked(&reply[..]).msg_type(), Icmpv4Message::EchoReply);
}

#[test]
fn dns_query_rejects_bad_names() {
    let mut device = Loopback::new(Medium::Ip);
    let mut iface = Interface::new(Config::new(), &mut device);
    let mut s = dns::Socket::new(&[IpAddress::Ipv4(Ipv4Address([8, 8, 8, 8]))], vec![None]);
    let cx = iface.context();
    assert!(matches!(
        dns_start_query(&mut s, cx, &[0xff, 0xfe]),
        Err(DNSStartQueryError::InvalidName)
    ));
    assert!(matches!(dns_start_query(&mut s, cx, b""), Err(DNSStartQueryError::InvalidName)));
    assert!(matches!(
        dns_start_query(&mut s, cx, b"a..b"),
        Err(DNSStartQueryError::InvalidName)
    ));
}

#[test]
fn deliver_datagram_sets_source_only_when_it_fits() {
    let source = IpEndpoint { addr: IpAddress::Ipv4(Ipv4Address([10, 0, 0, 5])), port: 5353 };
    let mut ep = CIPEndpoint { port: 1, addr: v6_sample() };
    let mut small = [0u8; 2];
    assert_eq!(deliver_datagram(&[1, 2, 3], source, &mut ep, &mut small), ResultCode::BufferInsufficient);
    assert_eq!(ep.port, 1);
    assert_eq!(small, [0, 0]);
    let mut dst = [9u8; 4];
    assert_eq!(deliver_datagram(&[1, 2, 3], source, &mut ep, &mut dst), ResultCode::OK);
    assert_eq!(dst, [1, 2, 3, 9]);
    assert_eq!(ep, CIPEndpoint { port: 5353, addr: v4_mapped(10, 0, 0, 5) });
}

#[test]
fn deliver_packet_sets_source_only_when_it_fits() {
    let source = IpAddress::Ipv4(Ipv4Address([192, 0, 2, 1]));
    let mut addr = v6_sample();
    let mut small = [0u8; 1];
    assert_eq!(deliver_packet(&[7, 7], source, &mut addr, &mut small), ResultCode::BufferInsufficient);
    assert_eq!(addr, v6_sample());
    let mut dst = [0u8; 2];
    assert_eq!(deliver_packet(&[7, 8], source, &mut addr, &mut dst), ResultCode::OK);
    assert_eq!(dst, [7, 8]);
    assert_eq!(addr, v4_mapped(192, 0, 2, 1));
}

#[test]
fn received_size_values() {
    assert_eq!(received_size(Ok(1200)), 1200);
    assert_eq!(received_size(Err(udp::RecvError::Exhausted)), 0);
}

#[test]
fn valid_interface_and_device_checks() {
    assert!(is_valid_interface(CInterface { prefix: 120, addr: v4_mapped(1, 2, 3, 4) }));
    assert!(is_valid_interface(CInterface { prefix: 128, addr: v4_mapped(1, 2, 3, 4) }));
    assert!(!is_valid_interface(CInterface { prefix: 24, addr: v4_mapped(1, 2, 3, 4) }));
    assert!(!is_valid_interface(CInterface { prefix: 129, addr: v4_mapped(1, 2, 3, 4) }));
    assert!(is_valid_interface(CInterface { prefix: 128, addr: v6_sample() }));
    assert!(!is_valid_interface(CInterface { prefix: 129, addr: v6_sample() }));
    assert!(is_valid_device(CMedium::Ethernet, 1500));
    assert!(!is_valid_device(CMedium::Ethernet, usize::MAX));
    assert!(is_valid_device(CMedium::Ip, usize::MAX));
    assert!(!is_valid_device(CMedium::Invalid, 1500));
    assert!(!is_valid_device(CMedium::Ieee802154, 1500));
}

#[test]
fn dns_query_starts_for_valid_name() {
    let mut device = Loopback::new(Medium::Ip);
    let mut iface = Interface::new(Config::new(), &mut device);
    let mut s = dns::Socket::new(&[IpAddress::Ipv4(Ipv4Address([8, 8, 8, 8]))], vec![None]);
    assert!(dns_start_query(&mut s, iface.context(), b"example.com").is_ok());
}

#[test]
fn check_peeked_decisions() {
    assert_eq!(sio_smoltcp::socket::udp::check_peeked(Ok(10), 8), Some(ResultCode::BufferInsufficient));
    assert_eq!(sio_smoltcp::socket::udp::check_peeked(Ok(8), 8), None);
    assert_eq!(
        sio_smoltcp::socket::udp::check_peeked(Err(udp::RecvError::Exhausted), 8),
        Some(ResultCode::Exhausted)
    );
}

#[test]
fn bind_outcomes() {
    assert_eq!(sio_smoltcp::socket::udp::bind_outcome(true, None), UDPBindError::OK);
    assert_eq!(
        sio_smoltcp::socket::udp::bind_outcome(false, Some(Err(udp::BindError::Unaddressable))),
        UDPBindError::Unaddressable
    );
    assert_eq!(sio_smoltcp::socket::udp::bind_outcome(false, Some(Ok(()))), UDPBindError::OK);
    assert_eq!(sio_smoltcp::socket::icmp::bind_outcome(true, None), ICMPBindError::OK);
    assert_eq!(
        sio_smoltcp::socket::icmp::bind_outcome(false, Some(Err(icmp::BindError::InvalidState))),
        ICMPBindError::InvalidState
    );
}

#[test]
fn udp_receive_empty_keeps_buffer() {
    let mut s = new_udp();
    udp_bind(&mut s, 1234);
    let mut ep = CIPEndpoint { port: 1, addr: v6_sample() };
    let mut dst = [5u8; 4];
    assert_eq!(udp_receive(&mut s, &mut ep, &mut dst), ResultCode::Exhausted);
    assert_eq!(dst, [5, 5, 5, 5]);
}

#[test]
fn icmp_echo_reply_layout_with_longer_buffer() {
    let mut dst = [0xaau8; 14];
    assert_eq!(build_icmpv4_echo_packet(ICMPEchoPacketType::EchoReply, 0x0102, 0x0304, &[9, 9], &mut dst), 0);
    assert_eq!(&dst[0..2], &[0, 0]);
    assert_eq!(&dst[4..10], &[1, 2, 3, 4, 9, 9]);
    assert_eq!(&dst[10..], &[0xaa, 0xaa, 0xaa, 0xaa]);
}
