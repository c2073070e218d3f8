//! The HTTP probes: what is asked of the server, and what the answer and the
//! time it took amount to.
//!
//! The requests themselves are made by the caller. This module decides the
//! paths, judges the reply and computes the measurement from plain values:
//! a status code, a body length, an elapsed time.

use crate::latency::{is_highest, is_lowest, successes, sum, LatencyTally};
use vstd::prelude::*;
use vstd::string::*;

verus! {

/// Number of latency samples taken in one run.
pub const LATENCY_SAMPLES: u8 = 20;

/// Pause before each latency sample, in milliseconds.
pub const SAMPLE_DELAY_MS: u64 = 300;

/// Time after which a request is given up, in seconds.
pub const REQUEST_TIMEOUT_SECS: u64 = 10;

/// Length of the body sent by the upload probe: 10 MiB.
pub const UPLOAD_PAYLOAD_BYTES: usize = 10485760;

/// Nanoseconds in a second.
pub const NANOS_PER_SECOND: u128 = 1000000000;

/// Edge length of the square image that the download probe asks for.
#[derive(Clone, Copy, Debug, PartialEq, Eq, Structural)]
pub enum HttpDownloadSize {
    S250,
    S350,
    S500,
    S750,
    S1000,
    S1500,
    S2000,
    S2500,
    S3000,
    S3500,
    S4000,
}

impl HttpDownloadSize {
    /// The edge length that the tier stands for.
    pub open spec fn size(self) -> usize {
        match self {
            HttpDownloadSize::S250 => 250,
            HttpDownloadSize::S350 => 350,
            HttpDownloadSize::S500 => 500,
            HttpDownloadSize::S750 => 750,
            HttpDownloadSize::S1000 => 1000,
            HttpDownloadSize::S1500 => 1500,
            HttpDownloadSize::S2000 => 2000,
            HttpDownloadSize::S2500 => 2500,
            HttpDownloadSize::S3000 => 3000,
            HttpDownloadSize::S3500 => 3500,
            HttpDownloadSize::S4000 => 4000,
        }
    }

    /// Every tier, smallest first.
    pub open spec fn tiers() -> Seq<HttpDownloadSize> {
        seq![
            HttpDownloadSize::S250,
            HttpDownloadSize::S350,
            HttpDownloadSize::S500,
            HttpDownloadSize::S750,
            HttpDownloadSize::S1000,
            HttpDownloadSize::S1500,
            HttpDownloadSize::S2000,
            HttpDownloadSize::S2500,
            HttpDownloadSize::S3000,
            HttpDownloadSize::S3500,
            HttpDownloadSize::S4000,
        ]
    }

    /// The path of the tier's image on the server: `/speedtest/random`, the
    /// edge length, `x`, the edge length again, and `.jpg`.
    pub open spec fn path(self) -> Seq<char> {
        match self {
            HttpDownloadSize::S250 => "/speedtest/random250x250.jpg"@,
            HttpDownloadSize::S350 => "/speedtest/random350x350.jpg"@,
            HttpDownloadSize::S500 => "/speedtest/random500x500.jpg"@,
            HttpDownloadSize::S750 => "/speedtest/random750x750.jpg"@,
            HttpDownloadSize::S1000 => "/speedtest/random1000x1000.jpg"@,
            HttpDownloadSize::S1500 => "/speedtest/random1500x1500.jpg"@,
            HttpDownloadSize::S2000 => "/speedtest/random2000x2000.jpg"@,
            HttpDownloadSize::S2500 => "/speedtest/random2500x2500.jpg"@,
            HttpDownloadSize::S3000 => "/speedtest/random3000x3000.jpg"@,
            HttpDownloadSize::S3500 => "/speedtest/random3500x3500.jpg"@,
            HttpDownloadSize::S4000 => "/speedtest/random4000x4000.jpg"@,
        }
    }

    /// The path of the tier's image on the server.
    pub fn image_path(&self) -> (path: &'static str)
        ensures
            path@ == self.path(),
    {
        match self {
            HttpDownloadSize::S250 => "/speedtest/random250x250.jpg",
            HttpDownloadSize::S350 => "/speedtest/random350x350.jpg",
            HttpDownloadSize::S500 => "/speedtest/random500x500.jpg",
            HttpDownloadSize::S750 => "/speedtest/random750x750.jpg",
            HttpDownloadSize::S1000 => "/speedtest/random1000x1000.jpg",
            HttpDownloadSize::S1500 => "/speedtest/random1500x1500.jpg",
            HttpDownloadSize::S2000 => "/speedtest/random2000x2000.jpg",
            HttpDownloadSize::S2500 => "/speedtest/random2500x2500.jpg",
            HttpDownloadSize::S3000 => "/speedtest/random3000x3000.jpg",
            HttpDownloadSize::S3500 => "/speedtest/random3500x3500.jpg",
            HttpDownloadSize::S4000 => "/speedtest/random4000x4000.jpg",
        }
    }

    pub fn to_size(&self) -> (size: usize)
        ensures
            size == self.size(),
    {
        match self {
            HttpDownloadSize::S250 => 250,
            HttpDownloadSize::S350 => 350,
            HttpDownloadSize::S500 => 500,
            HttpDownloadSize::S750 => 750,
            HttpDownloadSize::S1000 => 1000,
            HttpDownloadSize::S1500 => 1500,
            HttpDownloadSize::S2000 => 2000,
            HttpDownloadSize::S2500 => 2500,
            HttpDownloadSize::S3000 => 3000,
            HttpDownloadSize::S3500 => 3500,
            HttpDownloadSize::S4000 => 4000,
        }
    }

    /// The edge lengths of all tiers, smallest first.
    pub fn all() -> (sizes: Vec<usize>)
        ensures
            sizes@ == Self::tiers().map_values(|tier: HttpDownloadSize| tier.size()),
    {
        let mut sizes: Vec<usize> = Vec::new();
        sizes.push(HttpDownloadSize::S250.to_size());
        sizes.push(HttpDownloadSize::S350.to_size());
        sizes.push(HttpDownloadSize::S500.to_size());
        sizes.push(HttpDownloadSize::S750.to_size());
        sizes.push(HttpDownloadSize::S1000.to_size());
        sizes.push(HttpDownloadSize::S1500.to_size());
        sizes.push(HttpDownloadSize::S2000.to_size());
        sizes.push(HttpDownloadSize::S2500.to_size());
        sizes.push(HttpDownloadSize::S3000.to_size());
        sizes.push(HttpDownloadSize::S3500.to_size());
        sizes.push(HttpDownloadSize::S4000.to_size());
        assert(sizes@ =~= Self::tiers().map_values(|tier: HttpDownloadSize| tier.size()));
        sizes
    }

    /// The smallest tier.
    pub fn min() -> (tier: HttpDownloadSize)
        ensures
            tier == HttpDownloadSize::S250,
            forall|i: int| 0 <= i < Self::tiers().len() ==> tier.size() <= Self::tiers()[i].size(),
    {
        HttpDownloadSize::S250
    }

    /// The largest tier that the probe uses.
    pub fn max() -> (tier: HttpDownloadSize)
        ensures
            tier == HttpDownloadSize::S2000,
    {
        HttpDownloadSize::S2000
    }
}

/// Why a probe gave no measurement.
#[derive(Clone, Copy, Debug, PartialEq, Eq, Structural)]
pub enum ProbeError {
    /// The server answered with a status outside 200..=299.
    RequestFailed,
    /// No answer came: the connection failed or the request timed out.
    RequestError,
}

/// How one request ended, as far as the probes look at it.
#[derive(Clone, Copy, Debug, PartialEq, Eq, Structural)]
pub enum HttpReply {
    /// The server answered.
    Answered {
        /// The status code of the answer.
        status: u16,
        /// The body length that the answer announced, if it did.
        content_length: Option<u64>,
    },
    /// No answer came.
    Failed,
}

/// A status code in 200..=299.
pub open spec fn is_success(status: u16) -> bool {
    200 <= status < 300
}

impl HttpReply {
    /// What the reply means for a probe: nothing on success, else the error.
    pub open spec fn verdict(self) -> Option<ProbeError> {
        match self {
            HttpReply::Answered { status, .. } => if is_success(status) {
                None
            } else {
                Some(ProbeError::RequestFailed)
            },
            HttpReply::Failed => Some(ProbeError::RequestError),
        }
    }

    /// The announced body length, 0 where none was announced or no answer came.
    pub open spec fn body_len(self) -> u64 {
        match self {
            HttpReply::Answered { content_length: Some(len), .. } => len,
            _ => 0,
        }
    }

    /// Judges the reply: `Ok` with the announced body length (0 where none was
    /// announced) for a success status, else the error.
    pub fn check(&self) -> (result: Result<u64, ProbeError>)
        ensures
            result == match self.verdict() {
                None => Ok::<u64, ProbeError>(self.body_len()),
                Some(error) => Err::<u64, ProbeError>(error),
            },
    {
        match self {
            HttpReply::Answered { status, content_length } => {
                if 200 <= *status && *status < 300 {
                    match content_length {
                        Some(len) => Ok(*len),
                        None => Ok(0),
                    }
                } else {
                    Err(ProbeError::RequestFailed)
                }
            },
            HttpReply::Failed => Err(ProbeError::RequestError),
        }
    }
}

/// Bits per second, rounded down, of `bits` moved in `nanos` nanoseconds;
/// 0 where no time passed.
pub open spec fn throughput(bits: nat, nanos: nat) -> nat {
    if nanos == 0 {
        0
    } else {
        bits * 1000000000 / nanos
    }
}

/// Computes the bits of a payload given in bytes, and their `throughput`.
fn rate_of(bytes: u64, nanos: u128) -> (r: (u128, u128))
    ensures
        r.0 == bytes * 8,
        r.1 == throughput(r.0 as nat, nanos as nat),
{
    let bits: u128 = (bytes as u128) * 8;
    let speed: u128 = if nanos == 0 {
        0
    } else {
        bits * NANOS_PER_SECOND / nanos
    };
    (bits, speed)
}

/// Latency over the samples of one probe, in whole milliseconds.
#[derive(Clone, Copy, Debug, PartialEq, Eq, Structural)]
pub struct HttpLatencyMeasurement {
    pub min: u64,
    pub max: u64,
    /// Sum of the successful samples divided by their number, rounded down.
    pub avg: u64,
    /// Sum of the successful samples: with `total_measurments` the exact mean.
    pub total: u128,
    /// Number of samples that succeeded.
    pub total_measurments: u8,
}

impl HttpLatencyMeasurement {
    /// The measurement of a probe that gave no sample.
    pub open spec fn zero() -> HttpLatencyMeasurement {
        HttpLatencyMeasurement { min: 0, max: 0, avg: 0, total: 0, total_measurments: 0 }
    }

    /// This measurement is the aggregate of exactly `values`.
    pub open spec fn summarises(self, values: Seq<u64>) -> bool {
        &&& self.total_measurments == values.len()
        &&& self.total == sum(values)
        &&& values.len() == 0 ==> self == Self::zero()
        &&& values.len() > 0 ==> {
            &&& is_lowest(values, self.min)
            &&& is_highest(values, self.max)
            &&& self.avg == sum(values) / values.len()
        }
    }
}

impl Default for HttpLatencyMeasurement {
    fn default() -> (m: HttpLatencyMeasurement)
        ensures
            m == HttpLatencyMeasurement::zero(),
    {
        HttpLatencyMeasurement { min: 0, max: 0, avg: 0, total: 0, total_measurments: 0 }
    }
}

/// Throughput of one download.
#[derive(Clone, Copy, Debug, PartialEq, Eq, Structural)]
pub struct HttpDownloadMeasurement {
    pub bits: u128,
    /// Time from the request to the answer, in nanoseconds.
    pub duration_nanos: u128,
    /// Bits per second, rounded down.
    pub speed: u128,
}

impl HttpDownloadMeasurement {
    /// The measurement of a download that failed.
    pub open spec fn zero() -> HttpDownloadMeasurement {
        HttpDownloadMeasurement { bits: 0, duration_nanos: 0, speed: 0 }
    }

    /// The speed is the throughput of the bits over the duration.
    pub open spec fn consistent(self) -> bool {
        self.speed == throughput(self.bits as nat, self.duration_nanos as nat)
    }
}

impl Default for HttpDownloadMeasurement {
    fn default() -> (m: HttpDownloadMeasurement)
        ensures
            m == HttpDownloadMeasurement::zero(),
    {
        HttpDownloadMeasurement { bits: 0, duration_nanos: 0, speed: 0 }
    }
}

/// Throughput of one upload.
#[derive(Clone, Copy, Debug, PartialEq, Eq, Structural)]
pub struct HttpUploadMeasurement {
    pub bits: u128,
    /// Time from the request to the answer, in nanoseconds.
    pub duration_nanos: u128,
    /// Bits per second, rounded down.
    pub speed: u128,
}

impl HttpUploadMeasurement {
    /// The measurement of an upload that failed.
    pub open spec fn zero() -> HttpUploadMeasurement {
        HttpUploadMeasurement { bits: 0, duration_nanos: 0, speed: 0 }
    }

    /// The speed is the throughput of the bits over the duration.
    pub open spec fn consistent(self) -> bool {
        self.speed == throughput(self.bits as nat, self.duration_nanos as nat)
    }
}

impl Default for HttpUploadMeasurement {
    fn default() -> (m: HttpUploadMeasurement)
        ensures
            m == HttpUploadMeasurement::zero(),
    {
        HttpUploadMeasurement { bits: 0, duration_nanos: 0, speed: 0 }
    }
}

/// The server that a run measures, by its base URL.
#[derive(Debug)]
pub struct HttpTester {
    pub url: String,
}

impl View for HttpTester {
    type V = Seq<char>;

    /// The base URL.
    open spec fn view(&self) -> Seq<char> {
        self.url@
    }
}

impl Clone for HttpTester {
    fn clone(&self) -> (copy: HttpTester)
        ensures
            copy@ == self@,
    {
        HttpTester { url: self.url.clone() }
    }
}

impl Default for HttpTester {
    fn default() -> (tester: HttpTester)
        ensures
            tester@ == Seq::<char>::empty(),
    {
        HttpTester { url: String::new() }
    }
}

impl HttpTester {
    pub fn new(url: &str) -> (tester: HttpTester)
        ensures
            tester@ == url@,
    {
        HttpTester { url: String::from_str(url) }
    }

    pub fn set_url(&mut self, url: &str)
        ensures
            final(self)@ == url@,
    {
        self.url = String::from_str(url);
    }

    /// The URL of the latency probe's HEAD request: the base URL.
    pub fn latency_url(&self) -> (url: String)
        ensures
            url@ == self@,
    {
        self.url.clone()
    }

    /// The URL of the upload probe's POST request.
    pub fn upload_url(&self) -> (url: String)
        ensures
            url@ == self@ + "/speedtest/upload.php"@,
    {
        self.url.clone().concat("/speedtest/upload.php")
    }

    /// The URL of a GET request for the image of the tier `size`.
    pub fn download_url(&self, size: HttpDownloadSize) -> (url: String)
        ensures
            url@ == self@ + size.path(),
    {
        self.url.clone().concat(size.image_path())
    }

    /// The URL of the download probe's GET request: the image of the largest
    /// tier that the probe uses, 2000 by 2000.
    pub fn download_probe_url(&self) -> (url: String)
        ensures
            url@ == self@ + "/speedtest/random2000x2000.jpg"@,
    {
        self.download_url(HttpDownloadSize::max())
    }

    /// One latency sample: the elapsed milliseconds where the reply has a
    /// success status, else the error.
    pub fn measure_latency(&self, reply: &HttpReply, elapsed_ms: u64) -> (sample: Result<
        u64,
        ProbeError,
    >)
        ensures
            sample == match reply.verdict() {
                None => Ok::<u64, ProbeError>(elapsed_ms),
                Some(error) => Err::<u64, ProbeError>(error),
            },
    {
        match reply.check() {
            Ok(_) => Ok(elapsed_ms),
            Err(error) => Err(error),
        }
    }

    /// The latency over the samples of one probe, `None` standing for a sample
    /// that failed. Failed samples are left out; with no successful sample the
    /// measurement is all zero.
    pub fn measure_latency_multiple(&self, samples: &[Option<u64>]) -> (m: HttpLatencyMeasurement)
        requires
            samples@.len() <= u8::MAX,
        ensures
            m.summarises(successes(samples@)),
            successes(samples@).len() == 0 ==> m == HttpLatencyMeasurement::zero(),
            successes(samples@).len() > 0 ==> m.min <= m.avg <= m.max,
    {
        let tally = LatencyTally::of(samples);
        proof {
            if successes(samples@).len() > 0 {
                crate::latency::lemma_mean_between_extremes(tally, successes(samples@));
            }
            crate::latency::lemma_successes_len(samples@);
        }
        HttpLatencyMeasurement {
            min: tally.min,
            max: tally.max,
            avg: tally.avg,
            total: tally.total,
            total_measurments: tally.count as u8,
        }
    }

    /// The download measurement for the reply to a GET of
    /// `download_probe_url` that took `elapsed_nanos`: the announced body
    /// length in bits over that time, or the reply's error.
    pub fn measure_download(&self, reply: &HttpReply, elapsed_nanos: u128) -> (result: Result<
        HttpDownloadMeasurement,
        ProbeError,
    >)
        ensures
            result == match reply.verdict() {
                None => Ok::<HttpDownloadMeasurement, ProbeError>(
                    (HttpDownloadMeasurement {
                        bits: (reply.body_len() * 8) as u128,
                        duration_nanos: elapsed_nanos,
                        speed: throughput((reply.body_len() * 8) as nat, elapsed_nanos as nat) as u128,
                    }),
                ),
                Some(error) => Err::<HttpDownloadMeasurement, ProbeError>(error),
            },
            result is Ok ==> result->Ok_0.consistent(),
    {
        match reply.check() {
            Ok(len) => {
                let (bits, speed) = rate_of(len, elapsed_nanos);
                Ok(HttpDownloadMeasurement { bits, duration_nanos: elapsed_nanos, speed })
            },
            Err(error) => Err(error),
        }
    }

    /// The upload measurement for a POST to `upload_url` of a body of
    /// `payload_len` bytes whose reply took `elapsed_nanos`: the body's bits over that time, or the reply's
    /// error.
    pub fn measure_upload(&self, reply: &HttpReply, payload_len: u64, elapsed_nanos: u128) -> (result:
        Result<HttpUploadMeasurement, ProbeError>)
        ensures
            result == match reply.verdict() {
                None => Ok::<HttpUploadMeasurement, ProbeError>(
                    (HttpUploadMeasurement {
                        bits: (payload_len * 8) as u128,
                        duration_nanos: elapsed_nanos,
                        speed: throughput((payload_len * 8) as nat, elapsed_nanos as nat) as u128,
                    }),
                ),
                Some(error) => Err::<HttpUploadMeasurement, ProbeError>(error),
            },
            result is Ok ==> result->Ok_0.consistent(),
    {
        match reply.check() {
            Ok(_) => {
                let (bits, speed) = rate_of(payload_len, elapsed_nanos);
                Ok(HttpUploadMeasurement { bits, duration_nanos: elapsed_nanos, speed })
            },
            Err(error) => Err(error),
        }
    }
}

/// The body that the upload probe sends: `UPLOAD_PAYLOAD_BYTES` zero bytes.
pub fn upload_payload() -> (body: Vec<u8>)
    ensures
        body@.len() == UPLOAD_PAYLOAD_BYTES,
        forall|i: int| 0 <= i < body@.len() ==> body@[i] == 0,
{
    let mut body: Vec<u8> = Vec::new();
    let mut n: usize = 0;
    while n < UPLOAD_PAYLOAD_BYTES
        invariant
            n <= UPLOAD_PAYLOAD_BYTES,
            body@.len() == n,
            forall|i: int| 0 <= i < body@.len() ==> body@[i] == 0,
        decreases UPLOAD_PAYLOAD_BYTES - n,
    {
        body.push(0);
        n = n + 1;
    }
    body
}

/// Of one or more successful samples the mean lies between the minimum and
/// the maximum, and is their sum divided by their number, rounded down.
pub proof fn lemma_latency_mean(m: HttpLatencyMeasurement, values: Seq<u64>)
    requires
        values.len() >= 1,
        m.summarises(values),
    ensures
        m.min <= m.avg <= m.max,
        m.avg == sum(values) / values.len(),
        values.len() * m.min <= m.total <= values.len() * m.max,
{
    let tally = LatencyTally {
        min: m.min,
        max: m.max,
        avg: m.avg,
        total: m.total,
        count: values.len() as usize,
    };
    crate::latency::lemma_mean_between_extremes(tally, values);
}

/// With no successful sample the measurement is all zero.
pub proof fn lemma_latency_without_samples(m: HttpLatencyMeasurement, samples: Seq<Option<u64>>)
    requires
        successes(samples).len() == 0,
        m.summarises(successes(samples)),
    ensures
        m == HttpLatencyMeasurement::zero(),
{
}

} // verus!
