use ssdp_relay::classify::{classify, should_forward, Verdict};
use ssdp_relay::forward::{process_packet, Action, Event, ForwardingLoop, LoopState};
use ssdp_relay::link::{find_interface, send_outcome, SendError, Side};
use ssdp_relay::shutdown::ShutdownCoordinator;

fn frame(ethertype: u16, ihl: u8, total_len: u16, proto: u8, src: u16, dst: u16) -> Vec<u8> {
    let mut f = vec![0xff, 0xff, 0xff, 0xff, 0xff, 0xff, 0x02, 0x11, 0x22, 0x33, 0x44, 0x55];
    f.extend_from_slice(&ethertype.to_be_bytes());
    let mut ip = vec![0u8; 20];
    ip[0] = 0x40 | ihl;
    ip[2..4].copy_from_slice(&total_len.to_be_bytes());
    ip[8] = 4;
    ip[9] = proto;
    ip[12..16].copy_from_slice(&[192, 168, 1, 10]);
    ip[16..20].copy_from_slice(&[239, 255, 255, 250]);
    f.extend_from_slice(&ip);
    let options = (ihl as usize * 4).saturating_sub(20);
    f.extend(std::iter::repeat(0x01u8).take(options));
    f.extend_from_slice(&src.to_be_bytes());
    f.extend_from_slice(&dst.to_be_bytes());
    f.extend_from_slice(&[0x00, 0x0c, 0x00, 0x00]);
    f.extend_from_slice(b"M-SE");
    f
}

fn ssdp_frame(src: u16, dst: u16) -> Vec<u8> {
    frame(0x0800, 5, 20 + 12, 17, src, dst)
}

#[test]
fn empty_frame_dropped() {
    assert_eq!(classify(&[]), Verdict::Drop);
}

#[test]
fn frame_shorter_than_header_dropped() {
    let f = ssdp_frame(5000, 1900);
    assert_eq!(classify(&f[..13]), Verdict::Drop);
    assert_eq!(classify(&f[..14]), Verdict::Drop);
}

#[test]
fn destination_port_ssdp_admitted() {
    assert_eq!(classify(&ssdp_frame(5000, 1900)), Verdict::Admit);
}

#[test]
fn source_port_ssdp_admitted() {
    assert_eq!(classify(&ssdp_frame(1900, 40000)), Verdict::Admit);
}

#[test]
fn other_udp_ports_dropped() {
    assert_eq!(classify(&ssdp_frame(5353, 5353)), Verdict::Drop);
    assert_eq!(classify(&ssdp_frame(1901, 1899)), Verdict::Drop);
}

#[test]
fn arp_frame_dropped() {
    assert_eq!(classify(&frame(0x0806, 5, 32, 17, 1900, 1900)), Verdict::Drop);
}

#[test]
fn ipv6_ethertype_dropped() {
    assert_eq!(classify(&frame(0x86dd, 5, 32, 17, 1900, 1900)), Verdict::Drop);
}

#[test]
fn tcp_packet_dropped() {
    assert_eq!(classify(&frame(0x0800, 5, 32, 6, 1900, 1900)), Verdict::Drop);
}

#[test]
fn truncated_ipv4_header_dropped() {
    let f = ssdp_frame(1900, 1900);
    assert_eq!(classify(&f[..14 + 19]), Verdict::Drop);
}

#[test]
fn udp_header_cut_by_total_length_dropped() {
    // The total length leaves only 7 bytes after the IPv4 header.
    assert_eq!(classify(&frame(0x0800, 5, 27, 17, 1900, 1900)), Verdict::Drop);
    assert_eq!(classify(&frame(0x0800, 5, 28, 17, 1900, 1900)), Verdict::Admit);
}

#[test]
fn udp_header_cut_by_buffer_dropped() {
    let f = ssdp_frame(1900, 1900);
    assert_eq!(classify(&f[..14 + 20 + 7]), Verdict::Drop);
    assert_eq!(classify(&f[..14 + 20 + 8]), Verdict::Admit);
}

#[test]
fn ipv4_options_are_skipped() {
    // Six header words: the ports follow four bytes of options.
    assert_eq!(classify(&frame(0x0800, 6, 24 + 12, 17, 7000, 1900)), Verdict::Admit);
    assert_eq!(classify(&frame(0x0800, 6, 24 + 12, 17, 7000, 7001)), Verdict::Drop);
}

#[test]
fn classify_twice_same_outcome() {
    for f in [ssdp_frame(1, 1900), ssdp_frame(1, 2), frame(0x0806, 5, 32, 17, 1900, 1900)] {
        assert_eq!(classify(&f), classify(&f));
    }
}

#[test]
fn should_forward_matches_verdict() {
    assert!(should_forward(&ssdp_frame(1900, 80)));
    assert!(!should_forward(&ssdp_frame(80, 80)));
    assert!(!should_forward(&vec![0u8; 10]));
}

#[test]
fn process_packet_copies_admitted_frame() {
    let f = ssdp_frame(40000, 1900);
    assert_eq!(process_packet(&f), Some(f.clone()));
    assert_eq!(process_packet(&frame(0x0800, 5, 32, 6, 1900, 1900)), None);
}

#[test]
fn ssdp_frame_on_external_injected_once_on_internal() {
    let f = ssdp_frame(40000, 1900);
    let mut lp = ForwardingLoop::new(Side::External);
    let actions = vec![lp.on_event(Event::Frame(f.clone()))];
    let injected: Vec<&Action> = actions.iter().filter(|a| matches!(a, Action::Inject { .. })).collect();
    assert_eq!(injected.len(), 1);
    assert_eq!(injected[0], &Action::Inject { to: Side::Internal, frame: f });
    assert_eq!(lp.state, LoopState::Running);
}

#[test]
fn ssdp_frame_on_internal_injected_on_external() {
    let f = ssdp_frame(1900, 1900);
    let mut lp = ForwardingLoop::new(Side::Internal);
    assert_eq!(lp.on_event(Event::Frame(f.clone())), Action::Inject { to: Side::External, frame: f });
}

#[test]
fn tcp_frame_not_transmitted_on_either_side() {
    for side in [Side::External, Side::Internal] {
        let mut lp = ForwardingLoop::new(side);
        assert_eq!(lp.on_event(Event::Frame(frame(0x0800, 5, 32, 6, 1900, 1900))), Action::Discard);
    }
}

#[test]
fn arp_frame_not_transmitted_on_either_side() {
    for side in [Side::External, Side::Internal] {
        let mut lp = ForwardingLoop::new(side);
        assert_eq!(lp.on_event(Event::Frame(frame(0x0806, 5, 32, 17, 1900, 1900))), Action::Discard);
    }
}

#[test]
fn capture_failure_reported_and_loop_continues() {
    let mut lp = ForwardingLoop::new(Side::External);
    assert_eq!(lp.on_event(Event::CaptureFailed("timed out".to_string())), Action::Report("timed out".to_string()));
    assert!(lp.receives());
}

#[test]
fn cancellation_stops_loop() {
    let mut lp = ForwardingLoop::new(Side::Internal);
    assert_eq!(lp.on_event(Event::Cancelled), Action::Stop);
    assert_eq!(lp.state, LoopState::Draining);
    assert!(!lp.receives());
    lp.finish();
    assert!(lp.is_stopped());
    assert_eq!(lp.on_event(Event::Frame(ssdp_frame(1900, 1900))), Action::Idle);
    assert_eq!(lp.on_event(Event::Cancelled), Action::Idle);
    assert!(lp.is_stopped());
}

#[test]
fn finish_leaves_running_loop_running() {
    let mut lp = ForwardingLoop::new(Side::External);
    lp.finish();
    assert_eq!(lp.state, LoopState::Running);
}

#[test]
fn peer_is_the_other_side() {
    assert_eq!(Side::External.peer(), Side::Internal);
    assert_eq!(Side::Internal.peer(), Side::External);
}

#[test]
fn send_outcomes() {
    assert_eq!(send_outcome(Some(Ok(()))), Ok(()));
    assert_eq!(send_outcome(None), Err(SendError::NoDestination));
    assert_eq!(
        send_outcome(Some(Err("buffer full".to_string()))),
        Err(SendError::Transmit("buffer full".to_string()))
    );
}

#[test]
fn interface_lookup() {
    let names = vec!["lo".to_string(), "eth0".to_string(), "eth1".to_string(), "eth0".to_string()];
    assert_eq!(find_interface(&names, &"eth0".to_string()), Some(1));
    assert_eq!(find_interface(&names, &"lo".to_string()), Some(0));
    assert_eq!(find_interface(&names, &"wlan0".to_string()), None);
    assert_eq!(find_interface(&Vec::new(), &"eth0".to_string()), None);
}

#[test]
fn shutdown_waits_for_both_loops() {
    let mut c = ShutdownCoordinator::new();
    assert!(!c.is_cancelled());
    c.trigger();
    c.trigger();
    assert!(c.is_cancelled());

    let mut ext = ForwardingLoop::new(Side::External);
    assert!(c.record_stopped(ForwardingLoop::new(Side::External)).is_err());
    ext.on_event(Event::Cancelled);
    ext.finish();
    assert!(c.record_stopped(ext).is_ok());
    assert!(!c.all_stopped());

    let mut again = ForwardingLoop::new(Side::External);
    again.on_event(Event::Cancelled);
    again.finish();
    assert!(c.record_stopped(again).is_err());

    let mut int = ForwardingLoop::new(Side::Internal);
    int.on_event(Event::Cancelled);
    int.finish();
    assert!(c.record_stopped(int).is_ok());
    assert!(c.all_stopped());
    assert!(c.is_cancelled());
}
