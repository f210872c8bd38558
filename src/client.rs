use vstd::prelude::*;
use crate::ping::{all_failed, summary_of, PingProbe, PingSummary};
use crate::sampler::{RunOutcome, Sampler, StatusKind};
use crate::worker::Direction;

verus! {

/// Whether `url::Url::parse` accepts the text as an absolute URL.
pub uninterp spec fn url_parses(s: Seq<char>) -> bool;

/// The host of the URL that `url::Url::parse` reads from the text; `None`
/// when the text does not parse or the URL has no host.
pub uninterp spec fn url_host(s: Seq<char>) -> Option<Seq<char>>;

/// The port of the URL that `url::Url::parse` reads from the text, or its
/// scheme's default; `None` when the text does not parse or neither exists.
pub uninterp spec fn url_port(s: Seq<char>) -> Option<u16>;

/// Relies on url::Url::parse and url::Url::host_str: the host of the
/// parsed URL, which depends on the text alone, and none when parsing fails.
#[verifier::external_body]
fn parsed_host(input: &str) -> (r: Option<String>)
    ensures
        r.is_some() == url_host(input@).is_some(),
        r.is_some() ==> r.unwrap()@ == url_host(input@).unwrap() && url_parses(input@),
{
    match url::Url::parse(input) {
        Ok(u) => match u.host_str() {
            Some(h) => Some(h.to_string()),
            None => None,
        },
        Err(_) => None,
    }
}

/// Relies on url::Url::parse and url::Url::port_or_known_default: the
/// explicit port of the parsed URL or its scheme's default, which depends
/// on the text alone, and none when parsing fails.
#[verifier::external_body]
fn parsed_port(input: &str) -> (r: Option<u16>)
    ensures
        r == url_port(input@),
        r.is_some() ==> url_parses(input@),
{
    match url::Url::parse(input) {
        Ok(u) => u.port_or_known_default(),
        Err(_) => None,
    }
}

/// The host and port that a target URL names: present exactly when the URL
/// parses and has both a host and a port (explicit or the scheme's default).
pub open spec fn url_target(s: Seq<char>) -> Option<(Seq<char>, u16)> {
    match (url_host(s), url_port(s)) {
        (Some(h), Some(p)) => Some((h, p)),
        _ => None,
    }
}

/// An IP address, held as its bits in network order.
#[derive(Clone, Copy, Debug, PartialEq, Eq, Structural)]
pub enum IpAddress {
    V4(u32),
    V6(u128),
}

/// A resolved socket address.
#[derive(Clone, Copy, Debug, PartialEq, Eq, Structural)]
pub struct Endpoint {
    pub ip: IpAddress,
    pub port: u16,
}

/// Whether an address belongs to the requested family.
pub open spec fn family_matches(e: Endpoint, ipv6: bool) -> bool {
    match e.ip {
        IpAddress::V4(_) => !ipv6,
        IpAddress::V6(_) => ipv6,
    }
}

/// The last of the first `n` candidates in the requested family.
pub open spec fn last_match_prefix(s: Seq<Endpoint>, ipv6: bool, n: int) -> Option<Endpoint>
    decreases n,
{
    if n <= 0 {
        None
    } else if family_matches(s[n - 1], ipv6) {
        Some(s[n - 1])
    } else {
        last_match_prefix(s, ipv6, n - 1)
    }
}

/// The last candidate in the requested family, if any.
pub open spec fn last_match(s: Seq<Endpoint>, ipv6: bool) -> Option<Endpoint> {
    last_match_prefix(s, ipv6, s.len() as int)
}

proof fn lemma_last_match_prefix(s: Seq<Endpoint>, ipv6: bool, n: int)
    requires
        0 <= n <= s.len(),
    ensures
        last_match_prefix(s, ipv6, n).is_some() <==> (exists|i: int| 0 <= i < n && #[trigger] family_matches(s[i], ipv6)),
        last_match_prefix(s, ipv6, n).is_some() ==> (exists|i: int|
            0 <= i < n && s[i] == last_match_prefix(s, ipv6, n).unwrap() && #[trigger] family_matches(s[i], ipv6)
                && forall|j: int| i < j < n ==> !#[trigger] family_matches(s[j], ipv6)),
    decreases n,
{
    if n > 0 {
        lemma_last_match_prefix(s, ipv6, n - 1);
        if family_matches(s[n - 1], ipv6) {
            assert(family_matches(s[n - 1], ipv6));
        } else if last_match_prefix(s, ipv6, n - 1).is_some() {
            let i = choose|i: int|
                0 <= i < n - 1 && s[i] == last_match_prefix(s, ipv6, n - 1).unwrap() && #[trigger] family_matches(s[i], ipv6)
                    && forall|j: int| i < j < n - 1 ==> !#[trigger] family_matches(s[j], ipv6);
            assert(forall|j: int| i < j < n ==> !#[trigger] family_matches(s[j], ipv6));
        } else {
            assert forall|i: int| 0 <= i < n implies !#[trigger] family_matches(s[i], ipv6) by {
                if i < n - 1 {
                    assert(!(0 <= i < n - 1 && family_matches(s[i], ipv6)));
                }
            }
        }
    }
}

/// Address selection succeeds exactly when some candidate is of the
/// requested family, and then picks a candidate of that family after which
/// none of that family follows: the last one, not the first. With no
/// candidates at all, or only ones of the other family, it fails.
pub proof fn lemma_selects_last_of_family(s: Seq<Endpoint>, ipv6: bool)
    ensures
        last_match(s, ipv6).is_some() <==> (exists|i: int| 0 <= i < s.len() && #[trigger] family_matches(s[i], ipv6)),
        last_match(s, ipv6).is_some() ==> (exists|i: int|
            0 <= i < s.len() && s[i] == last_match(s, ipv6).unwrap() && #[trigger] family_matches(s[i], ipv6)
                && forall|j: int| i < j < s.len() ==> !#[trigger] family_matches(s[j], ipv6)),
        (forall|i: int| 0 <= i < s.len() ==> !#[trigger] family_matches(s[i], ipv6)) ==> last_match(s, ipv6)
            == None::<Endpoint>,
{
    lemma_last_match_prefix(s, ipv6, s.len() as int);
}

/// The host and port that a target URL names, for the resolver. `None`
/// when the URL does not parse, has no host, or has no port and a scheme
/// without a known default.
pub fn host_port(url: &str) -> (r: Option<(String, u16)>)
    ensures
        r.is_some() == url_target(url@).is_some(),
        r.is_some() ==> (r.unwrap().0@, r.unwrap().1) == url_target(url@).unwrap(),
        r.is_some() ==> url_parses(url@),
{
    let host = match parsed_host(url) {
        Some(h) => h,
        None => return None,
    };
    let port = match parsed_port(url) {
        Some(p) => p,
        None => return None,
    };
    Some((host, port))
}

/// The last candidate in the requested family; `None` when there is none.
pub fn select_address(candidates: &Vec<Endpoint>, ipv6: bool) -> (r: Option<Endpoint>)
    ensures
        r == last_match(candidates@, ipv6),
{
    let mut chosen: Option<Endpoint> = None;
    let mut i: usize = 0;
    while i < candidates.len()
        invariant
            i <= candidates@.len(),
            chosen == last_match_prefix(candidates@, ipv6, i as int),
        decreases candidates@.len() - i,
    {
        let c = candidates[i];
        let is_v6 = match c.ip {
            IpAddress::V4(_) => false,
            IpAddress::V6(_) => true,
        };
        if is_v6 == ipv6 {
            chosen = Some(c);
        }
        i = i + 1;
    }
    chosen
}

/// The measurements of one client, for display.
#[derive(Clone, Copy, Debug, PartialEq, Eq, Structural)]
pub struct SpeedTestResult {
    /// Upload speed in bits per second.
    pub upload_bps: u128,
    pub upload_status: StatusKind,
    /// Download speed in bits per second.
    pub download_bps: u128,
    pub download_status: StatusKind,
    /// Latency in microseconds.
    pub latency_us: u64,
    /// Jitter in nanoseconds.
    pub jitter_ns: u128,
}

/// A client of a TCP speed-test server: the address it measures against
/// and the results measured so far.
#[derive(Clone, Copy, Debug, PartialEq, Eq, Structural)]
pub struct SpeedtestNetTcpClient {
    pub multi_thread: bool,
    pub address: Endpoint,
    pub upload_bps: u128,
    pub upload_status: StatusKind,
    pub download_bps: u128,
    pub download_status: StatusKind,
    pub latency_us: u64,
    pub jitter_ns: u128,
}

impl SpeedtestNetTcpClient {
    /// A client for `address` with nothing measured yet.
    pub open spec fn fresh(address: Endpoint, multi_thread: bool) -> SpeedtestNetTcpClient {
        SpeedtestNetTcpClient {
            multi_thread,
            address,
            upload_bps: 0,
            upload_status: StatusKind::Undetermined,
            download_bps: 0,
            download_status: StatusKind::Undetermined,
            latency_us: 0,
            jitter_ns: 0,
        }
    }

    /// The client after a probe with the given attempts: its latency and
    /// jitter replaced, both zero when every attempt failed.
    pub open spec fn after_ping(self, samples: Seq<u64>) -> SpeedtestNetTcpClient {
        match summary_of(samples) {
            Some(p) => SpeedtestNetTcpClient { latency_us: p.latency_us, jitter_ns: p.jitter_ns, ..self },
            None => SpeedtestNetTcpClient { latency_us: 0, jitter_ns: 0, ..self },
        }
    }

    /// The client after a load run in direction `d`: that direction's speed
    /// and status replaced.
    pub open spec fn after_load(self, d: Direction, o: RunOutcome) -> SpeedtestNetTcpClient {
        match d {
            Direction::Upload => SpeedtestNetTcpClient { upload_bps: o.speed_bps, upload_status: o.status, ..self },
            Direction::Download => SpeedtestNetTcpClient {
                download_bps: o.speed_bps,
                download_status: o.status,
                ..self
            },
        }
    }

    /// Builds a client for the target URL from the addresses that its host
    /// resolved to (empty when resolution failed). There is no client when
    /// the URL does not parse or lacks a host or port, nor when no address
    /// is of the requested family; otherwise the client measures against
    /// the last address of that family.
    pub fn build(url: &str, candidates: &Vec<Endpoint>, ipv6: bool, multi_thread: bool) -> (r: Option<Self>)
        ensures
            r == (match (url_target(url@), last_match(candidates@, ipv6)) {
                (Some(_), Some(a)) => Some(Self::fresh(a, multi_thread)),
                _ => None,
            }),
            !url_parses(url@) ==> r.is_none(),
            candidates@.len() == 0 ==> r.is_none(),
    {
        if host_port(url).is_none() {
            return None;
        }
        match select_address(candidates, ipv6) {
            Some(address) => Some(
                SpeedtestNetTcpClient {
                    multi_thread,
                    address,
                    upload_bps: 0,
                    upload_status: StatusKind::Undetermined,
                    download_bps: 0,
                    download_status: StatusKind::Undetermined,
                    latency_us: 0,
                    jitter_ns: 0,
                },
            ),
            None => None,
        }
    }

    /// Takes in a finished latency probe. Returns whether any attempt
    /// succeeded; when none did, latency and jitter are zero.
    pub fn ping(&mut self, probe: &PingProbe) -> (ok: bool)
        requires
            probe.wf(),
        ensures
            *final(self) == old(self).after_ping(probe.samples@),
            ok == summary_of(probe.samples@).is_some(),
    {
        match probe.summary() {
            Some(p) => {
                self.latency_us = p.latency_us;
                self.jitter_ns = p.jitter_ns;
                true
            },
            None => {
                self.latency_us = 0;
                self.jitter_ns = 0;
                false
            },
        }
    }

    /// Takes in a finished load run in direction `d`.
    pub fn record_load(&mut self, d: Direction, sampler: &Sampler)
        requires
            sampler.wf(),
        ensures
            *final(self) == old(self).after_load(d, sampler.outcome_spec()),
    {
        let o = sampler.outcome();
        match d {
            Direction::Upload => {
                self.upload_bps = o.speed_bps;
                self.upload_status = o.status;
            },
            Direction::Download => {
                self.download_bps = o.speed_bps;
                self.download_status = o.status;
            },
        }
    }

    /// Takes in a finished download run.
    pub fn download(&mut self, sampler: &Sampler)
        requires
            sampler.wf(),
        ensures
            *final(self) == old(self).after_load(Direction::Download, sampler.outcome_spec()),
    {
        self.record_load(Direction::Download, sampler)
    }

    /// Takes in a finished upload run.
    pub fn upload(&mut self, sampler: &Sampler)
        requires
            sampler.wf(),
        ensures
            *final(self) == old(self).after_load(Direction::Upload, sampler.outcome_spec()),
    {
        self.record_load(Direction::Upload, sampler)
    }

    /// The measurements of a client.
    pub open spec fn result_spec(self) -> SpeedTestResult {
        SpeedTestResult {
            upload_bps: self.upload_bps,
            upload_status: self.upload_status,
            download_bps: self.download_bps,
            download_status: self.download_status,
            latency_us: self.latency_us,
            jitter_ns: self.jitter_ns,
        }
    }

    /// The measurements so far.
    pub fn result(&self) -> (r: SpeedTestResult)
        ensures
            r == self.result_spec(),
    {
        SpeedTestResult {
            upload_bps: self.upload_bps,
            upload_status: self.upload_status,
            download_bps: self.download_bps,
            download_status: self.download_status,
            latency_us: self.latency_us,
            jitter_ns: self.jitter_ns,
        }
    }
}

/// A probe in which every attempt failed leaves latency and jitter at
/// exactly zero, and reports failure.
pub proof fn lemma_failed_probe_zeroes(c: SpeedtestNetTcpClient, samples: Seq<u64>)
    requires
        all_failed(samples),
    ensures
        summary_of(samples).is_none(),
        c.after_ping(samples).latency_us == 0,
        c.after_ping(samples).jitter_ns == 0,
{
}

/// A second probe overwrites the first: the client after two probes is the
/// client after the second alone, and a probe touches nothing but latency
/// and jitter.
pub proof fn lemma_ping_overwrites(c: SpeedtestNetTcpClient, first: Seq<u64>, second: Seq<u64>)
    ensures
        c.after_ping(first).after_ping(second) == c.after_ping(second),
        c.after_ping(first).result_spec() == (SpeedTestResult {
            latency_us: c.after_ping(first).latency_us,
            jitter_ns: c.after_ping(first).jitter_ns,
            ..c.result_spec()
        }),
{
}

/// A second run in one direction overwrites the first, and a run leaves
/// the other direction's results as they were.
pub proof fn lemma_load_overwrites(
    c: SpeedtestNetTcpClient,
    d: Direction,
    first: RunOutcome,
    second: RunOutcome,
)
    ensures
        c.after_load(d, first).after_load(d, second) == c.after_load(d, second),
        d == Direction::Upload ==> c.after_load(d, first).download_bps == c.download_bps
            && c.after_load(d, first).download_status == c.download_status,
        d == Direction::Download ==> c.after_load(d, first).upload_bps == c.upload_bps
            && c.after_load(d, first).upload_status == c.upload_status,
{
}

} // verus!
