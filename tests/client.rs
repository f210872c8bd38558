use bim_tcp::client::{host_port, Endpoint, IpAddress, SpeedtestNetTcpClient};
use bim_tcp::ping::PingProbe;
use bim_tcp::sampler::{Sampler, StatusKind};

const URL: &str = "http://bench.im:8080";

fn v4(bits: u32) -> Endpoint {
    Endpoint { ip: IpAddress::V4(bits), port: 8080 }
}

fn v6(bits: u128) -> Endpoint {
    Endpoint { ip: IpAddress::V6(bits), port: 8080 }
}

fn probe(samples: &[u64]) -> PingProbe {
    let mut p = PingProbe::new();
    for &s in samples {
        p.record(s != 0, s);
    }
    p
}

fn steady(delta: u128) -> Sampler {
    let mut s = Sampler::new();
    for i in 1..=28u64 {
        s.record_tick(delta * i as u128, 500_000 * i);
    }
    s
}

#[test]
fn build_selects_last_of_family() {
    let c = vec![v4(1), v6(2), v4(3), v6(4), v6(5), v4(6)];
    assert_eq!(SpeedtestNetTcpClient::build(URL, &c, false, true).unwrap().address, v4(6));
    assert_eq!(SpeedtestNetTcpClient::build(URL, &c, true, false).unwrap().address, v6(5));
}

#[test]
fn build_starts_undetermined() {
    let c = SpeedtestNetTcpClient::build(URL, &vec![v4(7)], false, true).unwrap();
    assert!(c.multi_thread);
    let r = c.result();
    assert_eq!(r.upload_status, StatusKind::Undetermined);
    assert_eq!(r.download_status, StatusKind::Undetermined);
    assert_eq!((r.upload_bps, r.download_bps, r.latency_us, r.jitter_ns), (0, 0, 0, 0));
}

#[test]
fn build_fails_without_candidates() {
    assert!(SpeedtestNetTcpClient::build(URL, &vec![], false, false).is_none());
}

#[test]
fn build_fails_on_other_family_only() {
    assert!(SpeedtestNetTcpClient::build(URL, &vec![v4(1), v4(2)], true, false).is_none());
    assert!(SpeedtestNetTcpClient::build(URL, &vec![v6(1)], false, false).is_none());
}

#[test]
fn host_port_of_urls() {
    assert_eq!(host_port("http://example.com/x"), Some(("example.com".to_string(), 80)));
    assert_eq!(host_port("https://example.com"), Some(("example.com".to_string(), 443)));
    assert_eq!(host_port("http://10.0.0.1:8080"), Some(("10.0.0.1".to_string(), 8080)));
    assert_eq!(host_port("tcp://example.com"), None);
    assert_eq!(host_port("not a url"), None);
    assert_eq!(host_port("data:text/plain,hello"), None);
    assert_eq!(host_port("http://[::1]:9000"), Some(("[::1]".to_string(), 9000)));
}

#[test]
fn build_fails_on_bad_url() {
    let c = vec![v4(1)];
    assert!(SpeedtestNetTcpClient::build("not a url", &c, false, false).is_none());
    assert!(SpeedtestNetTcpClient::build("data:text/plain,hello", &c, false, false).is_none());
    assert!(SpeedtestNetTcpClient::build("tcp://bench.im", &c, false, false).is_none());
    assert!(SpeedtestNetTcpClient::build("https://bench.im", &c, false, false).is_some());
}

#[test]
fn ping_success_and_failure() {
    let mut c = SpeedtestNetTcpClient::build(URL, &vec![v4(1)], false, false).unwrap();
    assert!(c.ping(&probe(&[5_000, 0, 6_000, 0, 0, 0])));
    assert_eq!(c.latency_us, 5_000);
    assert_eq!(c.jitter_ns, 200_000);
    assert!(!c.ping(&probe(&[0; 6])));
    assert_eq!((c.latency_us, c.jitter_ns), (0, 0));
}

#[test]
fn ping_twice_overwrites() {
    let mut c = SpeedtestNetTcpClient::build(URL, &vec![v4(1)], false, false).unwrap();
    c.ping(&probe(&[5_000, 7_000, 6_000, 9_000, 5_500, 5_000]));
    c.ping(&probe(&[30_000, 0, 0, 0, 0, 31_000]));
    assert_eq!(c.latency_us, 30_000);
    assert_eq!(c.jitter_ns, 200_000);
}

#[test]
fn load_twice_overwrites() {
    let mut c = SpeedtestNetTcpClient::build(URL, &vec![v4(1)], false, false).unwrap();
    c.download(&steady(500_000));
    assert_eq!(c.download_bps, 8_000_000);
    c.download(&steady(250_000));
    assert_eq!(c.download_bps, 4_000_000);
    assert_eq!(c.download_status, StatusKind::Normal);
    assert_eq!(c.upload_status, StatusKind::Undetermined);
    c.upload(&steady(125_000));
    let r = c.result();
    assert_eq!(r.upload_bps, 2_000_000);
    assert_eq!(r.download_bps, 4_000_000);
}
