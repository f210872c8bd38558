use bim_tcp::ping::{summarize, PingProbe, PingSummary};

#[test]
fn latency_is_smallest_success() {
    let s = vec![12_000u64, 0, 10_000, 15_000, 0, 11_000];
    let r = summarize(&s).unwrap();
    assert_eq!(r.latency_us, 10_000);
    // deviations 2000 + 5000 + 1000 = 8000 us; 8000 / 5000 ms = 1.6 ms
    assert_eq!(r.jitter_ns, 1_600_000);
}

#[test]
fn latency_not_above_any_success() {
    let s = vec![3u64, 9, 1, 0, 7, 5];
    let r = summarize(&s).unwrap();
    for &x in s.iter().filter(|&&x| x != 0) {
        assert!(r.latency_us <= x);
    }
}

#[test]
fn equal_samples_have_no_jitter() {
    let r = summarize(&vec![20_000u64; 6]).unwrap();
    assert_eq!(r, PingSummary { latency_us: 20_000, jitter_ns: 0 });
}

#[test]
fn all_failed_attempts_give_none() {
    assert_eq!(summarize(&vec![0u64; 6]), None);
}

#[test]
fn one_success_is_enough() {
    let r = summarize(&vec![0, 0, 0, 0, 0, 42_000u64]).unwrap();
    assert_eq!(r.latency_us, 42_000);
    assert_eq!(r.jitter_ns, 0);
}

#[test]
fn probe_records_six_attempts() {
    let mut p = PingProbe::new();
    let mut more = true;
    let mut n = 0;
    while more {
        more = p.record(n % 2 == 0, 1_000 + n);
        n += 1;
    }
    assert_eq!(n, 6);
    assert_eq!(p.samples, vec![1_000, 0, 1_002, 0, 1_004, 0]);
    assert_eq!(p.summary().unwrap().latency_us, 1_000);
}
