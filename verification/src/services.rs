//! The test run: a state machine that takes the latency, download and upload
//! probes in turn, with at most one probe in flight.
//!
//! The service owns the receiving end of the channel on which the probe in
//! flight reports. It hands out a `ProbeOrder` for each probe to run; the
//! caller runs the probe in the background and sends its one measurement
//! through the order's `reply`.

use crate::http_tester::{
    HttpDownloadMeasurement,
    HttpLatencyMeasurement,
    HttpTester,
    HttpUploadMeasurement,
    ProbeError,
};
use tokio::sync::mpsc::error::TryRecvError;
use tokio::sync::mpsc::{UnboundedReceiver, UnboundedSender};
use vstd::prelude::*;

verus! {

/// The receiving half of tokio's unbounded channel, carried as an opaque value.
#[verifier::external_type_specification]
#[verifier::external_body]
#[verifier::reject_recursive_types(T)]
pub struct ExUnboundedReceiver<T>(UnboundedReceiver<T>);

/// The sending half of tokio's unbounded channel, carried as an opaque value.
#[verifier::external_type_specification]
#[verifier::external_body]
#[verifier::reject_recursive_types(T)]
pub struct ExUnboundedSender<T>(UnboundedSender<T>);

/// tokio's reason for a `try_recv` that gave no value.
#[verifier::external_type_specification]
pub struct ExTryRecvError(TryRecvError);

/// `tokio::sync::mpsc::unbounded_channel` makes a sender and its receiver.
/// Nothing is claimed of either.
pub assume_specification<T>[ tokio::sync::mpsc::unbounded_channel::<T> ]() -> (ends: (
    UnboundedSender<T>,
    UnboundedReceiver<T>,
));

/// `UnboundedReceiver::try_recv` returns without waiting: a value that was
/// sent, or the reason why there is none. Which of them depends on the
/// sending side, so nothing is claimed of the result.
pub assume_specification<T>[ UnboundedReceiver::<T>::try_recv ](
    receiver: &mut UnboundedReceiver<T>,
) -> (received: Result<T, TryRecvError>);

/// Where a run stands.
#[derive(Clone, Copy, Debug, PartialEq, Eq, Structural)]
pub enum HttpTestState {
    Idle,
    MeasuringLatency,
    MeasuringDownload,
    MeasuringUpload,
    Finished,
}

impl HttpTestState {
    /// A probe belongs to this state.
    pub open spec fn is_measuring(self) -> bool {
        self == HttpTestState::MeasuringLatency || self == HttpTestState::MeasuringDownload || self
            == HttpTestState::MeasuringUpload
    }

    /// The state that follows in a run; `Finished` falls back to `Idle`.
    pub open spec fn successor(self) -> HttpTestState {
        match self {
            HttpTestState::Idle => HttpTestState::MeasuringLatency,
            HttpTestState::MeasuringLatency => HttpTestState::MeasuringDownload,
            HttpTestState::MeasuringDownload => HttpTestState::MeasuringUpload,
            HttpTestState::MeasuringUpload => HttpTestState::Finished,
            HttpTestState::Finished => HttpTestState::Idle,
        }
    }

    /// The probe that runs in this state, if one does.
    pub open spec fn probe(self) -> Option<ProbeKind> {
        match self {
            HttpTestState::MeasuringLatency => Some(ProbeKind::Latency),
            HttpTestState::MeasuringDownload => Some(ProbeKind::Download),
            HttpTestState::MeasuringUpload => Some(ProbeKind::Upload),
            _ => None,
        }
    }
}

/// The three probes of a run.
#[derive(Clone, Copy, Debug, PartialEq, Eq, Structural)]
pub enum ProbeKind {
    Latency,
    Download,
    Upload,
}

/// What a probe reports.
#[derive(Clone, Copy, Debug, PartialEq, Eq, Structural)]
pub enum Measurement {
    Latency(HttpLatencyMeasurement),
    Download(HttpDownloadMeasurement),
    Upload(HttpUploadMeasurement),
}

impl Measurement {
    /// The all-zero measurement of a probe of `kind`.
    pub open spec fn zero(kind: ProbeKind) -> Measurement {
        match kind {
            ProbeKind::Latency => Measurement::Latency(HttpLatencyMeasurement::zero()),
            ProbeKind::Download => Measurement::Download(HttpDownloadMeasurement::zero()),
            ProbeKind::Upload => Measurement::Upload(HttpUploadMeasurement::zero()),
        }
    }

    /// The probe that reports a measurement of this shape.
    pub open spec fn kind(self) -> ProbeKind {
        match self {
            Measurement::Latency(_) => ProbeKind::Latency,
            Measurement::Download(_) => ProbeKind::Download,
            Measurement::Upload(_) => ProbeKind::Upload,
        }
    }

    /// What is reported for a probe of `kind` that ended in `outcome`: its
    /// measurement where it has one of the right shape, else all zero.
    pub open spec fn settled(kind: ProbeKind, outcome: Result<Measurement, ProbeError>) -> Measurement {
        match outcome {
            Ok(m) => if m.kind() == kind {
                m
            } else {
                Measurement::zero(kind)
            },
            Err(_) => Measurement::zero(kind),
        }
    }

    /// The latency in it, all zero where it holds another shape.
    pub open spec fn latency(self) -> HttpLatencyMeasurement {
        match self {
            Measurement::Latency(m) => m,
            _ => HttpLatencyMeasurement::zero(),
        }
    }

    /// The download in it, all zero where it holds another shape.
    pub open spec fn download(self) -> HttpDownloadMeasurement {
        match self {
            Measurement::Download(m) => m,
            _ => HttpDownloadMeasurement::zero(),
        }
    }

    /// The upload in it, all zero where it holds another shape.
    pub open spec fn upload(self) -> HttpUploadMeasurement {
        match self {
            Measurement::Upload(m) => m,
            _ => HttpUploadMeasurement::zero(),
        }
    }

    /// The measurement that a failed probe of `kind` reports.
    pub fn default_for(kind: ProbeKind) -> (m: Measurement)
        ensures
            m == Measurement::zero(kind),
    {
        match kind {
            ProbeKind::Latency => Measurement::Latency(HttpLatencyMeasurement::default()),
            ProbeKind::Download => Measurement::Download(HttpDownloadMeasurement::default()),
            ProbeKind::Upload => Measurement::Upload(HttpUploadMeasurement::default()),
        }
    }

    /// Turns the outcome of a probe of `kind` into what the probe reports: an
    /// error, or a measurement of another shape, becomes the all-zero
    /// measurement of `kind`.
    pub fn settle(kind: ProbeKind, outcome: Result<Measurement, ProbeError>) -> (m: Measurement)
        ensures
            m == Measurement::settled(kind, outcome),
            m.kind() == kind,
    {
        match outcome {
            Ok(m) => {
                let fits = match (kind, m) {
                    (ProbeKind::Latency, Measurement::Latency(_)) => true,
                    (ProbeKind::Download, Measurement::Download(_)) => true,
                    (ProbeKind::Upload, Measurement::Upload(_)) => true,
                    _ => false,
                };
                if fits {
                    m
                } else {
                    Measurement::default_for(kind)
                }
            },
            Err(_) => Measurement::default_for(kind),
        }
    }
}

/// The latest result of each probe. A result stays until the next run's probe
/// of the same kind reports.
#[derive(Clone, Copy, Debug, PartialEq, Eq, Structural)]
pub struct LatestResults {
    pub ping: HttpLatencyMeasurement,
    pub download: HttpDownloadMeasurement,
    pub upload: HttpUploadMeasurement,
}

/// A probe to run: which one, against which server, and where to send its
/// one measurement.
pub struct ProbeOrder {
    pub kind: ProbeKind,
    pub tester: HttpTester,
    pub reply: UnboundedSender<Measurement>,
}

/// The service as contracts see it.
pub struct ServiceView {
    pub state: HttpTestState,
    pub results: LatestResults,
    /// The base URL of the server under test.
    pub url: Seq<char>,
    /// A receiver is held for a probe in flight.
    pub awaiting: bool,
}

/// The service after a request to start a run: from `Idle` the latency probe
/// is in flight; in any other state nothing changes.
pub open spec fn started(v: ServiceView) -> ServiceView {
    if v.state == HttpTestState::Idle {
        ServiceView {
            state: HttpTestState::MeasuringLatency,
            results: v.results,
            url: v.url,
            awaiting: true,
        }
    } else {
        v
    }
}

/// The results with `m` stored as the result of the probe of `kind`.
pub open spec fn stored(results: LatestResults, kind: ProbeKind, m: Measurement) -> LatestResults {
    match kind {
        ProbeKind::Latency => LatestResults {
            ping: m.latency(),
            download: results.download,
            upload: results.upload,
        },
        ProbeKind::Download => LatestResults {
            ping: results.ping,
            download: m.download(),
            upload: results.upload,
        },
        ProbeKind::Upload => LatestResults {
            ping: results.ping,
            download: results.download,
            upload: m.upload(),
        },
    }
}

/// The service after one poll at which `arrived` came from the probe in
/// flight. A measuring state that gets a measurement stores it and moves on;
/// without one it stays. `Finished` falls back to `Idle`; `Idle` stays.
pub open spec fn polled(v: ServiceView, arrived: Option<Measurement>) -> ServiceView {
    match (v.state.probe(), arrived) {
        (Some(kind), Some(m)) => ServiceView {
            state: v.state.successor(),
            results: stored(v.results, kind, m),
            url: v.url,
            awaiting: v.state.successor().is_measuring(),
        },
        (Some(_), None) => v,
        (None, _) => ServiceView {
            state: HttpTestState::Idle,
            results: v.results,
            url: v.url,
            awaiting: v.awaiting,
        },
    }
}

/// The probe that a poll sets going, if it does.
pub open spec fn launched(v: ServiceView, arrived: Option<Measurement>) -> Option<ProbeKind> {
    if v.state.is_measuring() && arrived is Some {
        v.state.successor().probe()
    } else {
        None
    }
}

/// Runs the probes of a test one after the other and keeps their results.
pub struct HttpTestService {
    tester: HttpTester,
    ping_test: HttpLatencyMeasurement,
    download_test: HttpDownloadMeasurement,
    upload_test: HttpUploadMeasurement,
    state: HttpTestState,
    pending: Option<UnboundedReceiver<Measurement>>,
}

impl View for HttpTestService {
    type V = ServiceView;

    closed spec fn view(&self) -> ServiceView {
        ServiceView {
            state: self.state,
            results: LatestResults {
                ping: self.ping_test,
                download: self.download_test,
                upload: self.upload_test,
            },
            url: self.tester@,
            awaiting: self.pending is Some,
        }
    }
}

impl HttpTestService {
    /// The receiver held for the probe in flight.
    pub closed spec fn receiver(&self) -> Option<UnboundedReceiver<Measurement>> {
        self.pending
    }

    /// A receiver is held exactly while a probe is in flight.
    pub open spec fn wf(&self) -> bool {
        self@.awaiting == self@.state.is_measuring()
    }

    /// `order` asks for the probe of `kind` against this service's server, or
    /// for nothing where `kind` is `None`.
    pub open spec fn orders(&self, order: Option<ProbeOrder>, kind: Option<ProbeKind>) -> bool {
        match kind {
            Some(k) => order is Some && order->Some_0.kind == k && order->Some_0.tester@
                == self@.url,
            None => order is None,
        }
    }

    pub fn new(tester: HttpTester) -> (service: HttpTestService)
        ensures
            service.wf(),
            service@ == (ServiceView {
                state: HttpTestState::Idle,
                results: LatestResults {
                    ping: HttpLatencyMeasurement::zero(),
                    download: HttpDownloadMeasurement::zero(),
                    upload: HttpUploadMeasurement::zero(),
                },
                url: tester@,
                awaiting: false,
            }),
    {
        HttpTestService {
            tester,
            ping_test: HttpLatencyMeasurement::default(),
            download_test: HttpDownloadMeasurement::default(),
            upload_test: HttpUploadMeasurement::default(),
            state: HttpTestState::Idle,
            pending: None,
        }
    }

    /// Sets the server for the probes that are ordered from now on.
    pub fn set_tester(&mut self, tester: HttpTester)
        ensures
            final(self)@ == (ServiceView {
                state: old(self)@.state,
                results: old(self)@.results,
                url: tester@,
                awaiting: old(self)@.awaiting,
            }),
            final(self).receiver() == old(self).receiver(),
    {
        self.tester = tester;
    }

    pub fn get_ping_results(&self) -> (m: &HttpLatencyMeasurement)
        ensures
            *m == self@.results.ping,
    {
        &self.ping_test
    }

    pub fn get_download_results(&self) -> (m: &HttpDownloadMeasurement)
        ensures
            *m == self@.results.download,
    {
        &self.download_test
    }

    pub fn get_upload_results(&self) -> (m: &HttpUploadMeasurement)
        ensures
            *m == self@.results.upload,
    {
        &self.upload_test
    }

    /// A run is under way: the state is not `Idle`.
    pub fn get_testing(&self) -> (testing: bool)
        ensures
            testing == (self@.state != HttpTestState::Idle),
    {
        self.state != HttpTestState::Idle
    }

    pub fn get_state(&self) -> (state: &HttpTestState)
        ensures
            *state == self@.state,
    {
        &self.state
    }

    /// The latest results and the state, for display.
    pub fn snapshot(&self) -> (shot: (LatestResults, HttpTestState))
        ensures
            shot.0 == self@.results,
            shot.1 == self@.state,
    {
        (
            LatestResults {
                ping: self.ping_test,
                download: self.download_test,
                upload: self.upload_test,
            },
            self.state,
        )
    }

    /// Opens a channel for the probe of `kind`, keeps its receiver in place of
    /// the one held before, and returns the order with its sender.
    fn order_probe(&mut self, kind: ProbeKind) -> (order: ProbeOrder)
        ensures
            final(self)@ == (ServiceView {
                state: old(self)@.state,
                results: old(self)@.results,
                url: old(self)@.url,
                awaiting: true,
            }),
            order.kind == kind,
            order.tester@ == old(self)@.url,
    {
        let (reply, receiver) = tokio::sync::mpsc::unbounded_channel::<Measurement>();
        self.pending = Some(receiver);
        ProbeOrder { kind, tester: self.tester.clone(), reply }
    }

    /// Starts a run where the service is idle, and orders the latency probe.
    /// In any other state the call is ignored: nothing changes, the probe in
    /// flight included, and nothing is ordered.
    pub fn run_full_test(&mut self) -> (order: Option<ProbeOrder>)
        requires
            old(self).wf(),
        ensures
            final(self).wf(),
            final(self)@ == started(old(self)@),
            old(self)@.state != HttpTestState::Idle ==> *final(self) == *old(self) && order is None,
            old(self)@.state == HttpTestState::Idle ==> final(self).orders(
                order,
                Some(ProbeKind::Latency),
            ),
    {
        if self.state != HttpTestState::Idle {
            return None;
        }
        self.state = HttpTestState::MeasuringLatency;
        self.run_current_state()
    }

    /// Orders the probe of the current state. A state without a probe becomes
    /// `Idle`, and nothing is ordered.
    pub fn run_current_state(&mut self) -> (order: Option<ProbeOrder>)
        ensures
            final(self).wf(),
            final(self)@ == (ServiceView {
                state: if old(self)@.state.is_measuring() {
                    old(self)@.state
                } else {
                    HttpTestState::Idle
                },
                results: old(self)@.results,
                url: old(self)@.url,
                awaiting: old(self)@.state.is_measuring(),
            }),
            final(self).orders(order, old(self)@.state.probe()),
    {
        match self.state {
            HttpTestState::MeasuringLatency => Some(self.run_latency_test()),
            HttpTestState::MeasuringDownload => Some(self.run_download_test()),
            HttpTestState::MeasuringUpload => Some(self.run_upload_test()),
            _ => {
                self.state = HttpTestState::Idle;
                self.pending = None;
                None
            },
        }
    }

    /// Polls the probe in flight, without waiting, and moves the run on by
    /// what came: see `polled`. Whether a measurement came is the probe's
    /// doing; without a probe in flight none comes.
    pub fn check_measurments(&mut self) -> (order: Option<ProbeOrder>)
        requires
            old(self).wf(),
        ensures
            final(self).wf(),
            exists|arrived: Option<Measurement>|
                {
                    &&& final(self)@ == #[trigger] polled(old(self)@, arrived)
                    &&& final(self).orders(order, launched(old(self)@, arrived))
                },
            !old(self)@.state.is_measuring() ==> final(self)@ == polled(old(self)@, None)
                && order is None,
            old(self)@.state == HttpTestState::Idle ==> *final(self) == *old(self),
    {
        let arrived: Option<Measurement> = match self.pending.take() {
            Some(mut receiver) => {
                let received = receiver.try_recv();
                self.pending = Some(receiver);
                match received {
                    Ok(m) => Some(m),
                    Err(_) => None,
                }
            },
            None => None,
        };
        let order = self.advance(arrived);
        proof {
            if !old(self)@.state.is_measuring() {
                assert(polled(old(self)@, arrived) == polled(old(self)@, None));
            }
        }
        order
    }

    /// Moves the run on by what a poll of the probe in flight gave.
    ///
    /// Where nothing arrived and the run is not `Finished`, nothing changes:
    /// the receiver held stays the one of the probe in flight. With a
    /// measurement in a measuring state: stores it as that state's
    /// result (all zero where it has another probe's shape), enters the next
    /// state and orders its probe, if it has one. Without a measurement a
    /// measuring state stays as it is. `Finished` becomes `Idle`.
    pub fn advance(&mut self, arrived: Option<Measurement>) -> (order: Option<ProbeOrder>)
        requires
            old(self).wf(),
        ensures
            final(self).wf(),
            final(self)@ == polled(old(self)@, arrived),
            final(self).orders(order, launched(old(self)@, arrived)),
            arrived is None && old(self)@.state != HttpTestState::Finished ==> *final(self) == *old(
                self,
            ),
    {
        match (self.state, arrived) {
            (HttpTestState::MeasuringLatency, Some(m)) => {
                self.ping_test =
                match m {
                    Measurement::Latency(latency) => latency,
                    _ => HttpLatencyMeasurement::default(),
                };
                self.state = HttpTestState::MeasuringDownload;
                self.run_current_state()
            },
            (HttpTestState::MeasuringDownload, Some(m)) => {
                self.download_test =
                match m {
                    Measurement::Download(download) => download,
                    _ => HttpDownloadMeasurement::default(),
                };
                self.state = HttpTestState::MeasuringUpload;
                self.run_current_state()
            },
            (HttpTestState::MeasuringUpload, Some(m)) => {
                self.upload_test =
                match m {
                    Measurement::Upload(upload) => upload,
                    _ => HttpUploadMeasurement::default(),
                };
                self.state = HttpTestState::Finished;
                self.pending = None;
                None
            },
            (HttpTestState::Finished, _) => {
                self.state = HttpTestState::Idle;
                None
            },
            _ => None,
        }
    }

    /// Enters `MeasuringLatency` and orders the latency probe.
    pub fn run_latency_test(&mut self) -> (order: ProbeOrder)
        ensures
            final(self).wf(),
            final(self)@ == (ServiceView {
                state: HttpTestState::MeasuringLatency,
                results: old(self)@.results,
                url: old(self)@.url,
                awaiting: true,
            }),
            order.kind == ProbeKind::Latency,
            order.tester@ == old(self)@.url,
    {
        self.state = HttpTestState::MeasuringLatency;
        self.order_probe(ProbeKind::Latency)
    }

    /// Enters `MeasuringDownload` and orders the download probe.
    pub fn run_download_test(&mut self) -> (order: ProbeOrder)
        ensures
            final(self).wf(),
            final(self)@ == (ServiceView {
                state: HttpTestState::MeasuringDownload,
                results: old(self)@.results,
                url: old(self)@.url,
                awaiting: true,
            }),
            order.kind == ProbeKind::Download,
            order.tester@ == old(self)@.url,
    {
        self.state = HttpTestState::MeasuringDownload;
        self.order_probe(ProbeKind::Download)
    }

    /// Enters `MeasuringUpload` and orders the upload probe.
    pub fn run_upload_test(&mut self) -> (order: ProbeOrder)
        ensures
            final(self).wf(),
            final(self)@ == (ServiceView {
                state: HttpTestState::MeasuringUpload,
                results: old(self)@.results,
                url: old(self)@.url,
                awaiting: true,
            }),
            order.kind == ProbeKind::Upload,
            order.tester@ == old(self)@.url,
    {
        self.state = HttpTestState::MeasuringUpload;
        self.order_probe(ProbeKind::Upload)
    }
}

/// A request to start a run in any state but `Idle` changes nothing, and a
/// second request right after the first changes nothing either.
pub proof fn lemma_start_while_running_is_ignored(v: ServiceView)
    ensures
        v.state != HttpTestState::Idle ==> started(v) == v,
        started(started(v)) == started(v),
{
}

/// A poll at which nothing arrived changes neither the state nor the results,
/// in every state but `Finished`, which falls back to `Idle` at any poll.
pub proof fn lemma_poll_without_result(v: ServiceView)
    ensures
        v.state != HttpTestState::Finished ==> polled(v, None) == v,
        polled(v, None).results == v.results,
        v.state == HttpTestState::Finished ==> polled(v, None).state == HttpTestState::Idle,
{
}

/// A poll never skips a state: it leaves the state as it is or enters its
/// successor, and it enters the successor of a measuring state exactly when a
/// measurement arrived.
pub proof fn lemma_poll_moves_one_state(v: ServiceView, arrived: Option<Measurement>)
    ensures
        polled(v, arrived).state == v.state || polled(v, arrived).state == v.state.successor(),
        v.state.is_measuring() ==> (polled(v, arrived).state == v.state.successor() <==> arrived
            is Some),
        polled(v, arrived).url == v.url,
{
}

/// A run from `Idle` enters `MeasuringLatency`, `MeasuringDownload`,
/// `MeasuringUpload`, `Finished` and `Idle` in this order, one state for each
/// measurement that arrives, whatever the measurements hold: a failed probe
/// reports all zero and moves the run on like any other.
pub proof fn lemma_run_order(
    v: ServiceView,
    first: Measurement,
    second: Measurement,
    third: Measurement,
    last: Option<Measurement>,
)
    requires
        v.state == HttpTestState::Idle,
    ensures
        started(v).state == HttpTestState::MeasuringLatency,
        polled(started(v), Some(first)).state == HttpTestState::MeasuringDownload,
        polled(polled(started(v), Some(first)), Some(second)).state
            == HttpTestState::MeasuringUpload,
        polled(polled(polled(started(v), Some(first)), Some(second)), Some(third)).state
            == HttpTestState::Finished,
        polled(
            polled(polled(polled(started(v), Some(first)), Some(second)), Some(third)),
            last,
        ).state == HttpTestState::Idle,
        polled(
            polled(polled(polled(started(v), Some(first)), Some(second)), Some(third)),
            last,
        ).results == (LatestResults {
            ping: first.latency(),
            download: second.download(),
            upload: third.upload(),
        }),
{
}

/// A receiver is held exactly while a probe is in flight, before and after a
/// start and a poll alike.
pub proof fn lemma_one_probe_in_flight(v: ServiceView, arrived: Option<Measurement>)
    requires
        v.awaiting == v.state.is_measuring(),
    ensures
        started(v).awaiting == started(v).state.is_measuring(),
        polled(v, arrived).awaiting == polled(v, arrived).state.is_measuring(),
{
}

} // verus!
