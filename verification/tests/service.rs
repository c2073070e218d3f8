use speedtest_tui::http_tester::{
    HttpDownloadMeasurement, HttpLatencyMeasurement, HttpTester, HttpUploadMeasurement, ProbeError,
};
use speedtest_tui::services::{
    HttpTestService, HttpTestState, LatestResults, Measurement, ProbeKind,
};

fn ping() -> HttpLatencyMeasurement {
    HttpLatencyMeasurement { min: 4, max: 9, avg: 6, total: 19, total_measurments: 3 }
}

fn down() -> HttpDownloadMeasurement {
    HttpDownloadMeasurement { bits: 8_000_000, duration_nanos: 2_000_000_000, speed: 4_000_000 }
}

fn up() -> HttpUploadMeasurement {
    HttpUploadMeasurement { bits: 83_886_080, duration_nanos: 1_000_000_000, speed: 83_886_080 }
}

#[test]
fn new_service_is_idle_with_zero_results() {
    let service = HttpTestService::new(HttpTester::new("http://host"));
    assert_eq!(*service.get_state(), HttpTestState::Idle);
    assert!(!service.get_testing());
    assert_eq!(*service.get_ping_results(), HttpLatencyMeasurement::default());
    assert_eq!(*service.get_download_results(), HttpDownloadMeasurement::default());
    assert_eq!(*service.get_upload_results(), HttpUploadMeasurement::default());
}

#[test]
fn full_run_visits_the_states_in_order() {
    let mut service = HttpTestService::new(HttpTester::new("http://host"));
    let first = service.run_full_test().expect("the latency probe is ordered");
    assert_eq!(first.kind, ProbeKind::Latency);
    assert_eq!(first.tester.url, "http://host");
    assert_eq!(*service.get_state(), HttpTestState::MeasuringLatency);
    assert!(service.get_testing());

    assert!(service.check_measurments().is_none());
    assert_eq!(*service.get_state(), HttpTestState::MeasuringLatency);

    first.reply.send(Measurement::Latency(ping())).unwrap();
    let second = service.check_measurments().expect("the download probe is ordered");
    assert_eq!(second.kind, ProbeKind::Download);
    assert_eq!(*service.get_state(), HttpTestState::MeasuringDownload);
    assert_eq!(*service.get_ping_results(), ping());

    assert!(service.check_measurments().is_none());
    assert_eq!(*service.get_state(), HttpTestState::MeasuringDownload);

    second.reply.send(Measurement::Download(down())).unwrap();
    let third = service.check_measurments().expect("the upload probe is ordered");
    assert_eq!(third.kind, ProbeKind::Upload);
    assert_eq!(*service.get_state(), HttpTestState::MeasuringUpload);
    assert_eq!(*service.get_download_results(), down());

    third.reply.send(Measurement::Upload(up())).unwrap();
    assert!(service.check_measurments().is_none());
    assert_eq!(*service.get_state(), HttpTestState::Finished);
    assert!(service.get_testing());
    assert_eq!(*service.get_upload_results(), up());

    assert!(service.check_measurments().is_none());
    assert_eq!(*service.get_state(), HttpTestState::Idle);
    assert!(!service.get_testing());
    assert_eq!(
        service.snapshot(),
        (LatestResults { ping: ping(), download: down(), upload: up() }, HttpTestState::Idle)
    );
}

#[test]
fn start_while_running_is_ignored() {
    let mut service = HttpTestService::new(HttpTester::new("http://host"));
    let first = service.run_full_test().unwrap();
    assert!(service.run_full_test().is_none());
    assert_eq!(*service.get_state(), HttpTestState::MeasuringLatency);
    // The probe in flight still reports on the channel it was given.
    first.reply.send(Measurement::Latency(ping())).unwrap();
    let second = service.check_measurments().unwrap();
    assert_eq!(*service.get_state(), HttpTestState::MeasuringDownload);
    assert!(service.run_full_test().is_none());
    assert_eq!(*service.get_state(), HttpTestState::MeasuringDownload);
    assert_eq!(*service.get_ping_results(), ping());
    second.reply.send(Measurement::Download(down())).unwrap();
    let third = service.check_measurments().unwrap();
    assert!(service.run_full_test().is_none());
    third.reply.send(Measurement::Upload(up())).unwrap();
    assert!(service.check_measurments().is_none());
    assert_eq!(*service.get_state(), HttpTestState::Finished);
    assert!(service.run_full_test().is_none());
    assert_eq!(*service.get_state(), HttpTestState::Finished);
}

#[test]
fn poll_without_result_changes_nothing() {
    let mut service = HttpTestService::new(HttpTester::new("http://host"));
    assert!(service.check_measurments().is_none());
    assert_eq!(*service.get_state(), HttpTestState::Idle);
    let order = service.run_full_test().unwrap();
    for _ in 0..10 {
        assert!(service.check_measurments().is_none());
        assert!(service.advance(None).is_none());
        assert_eq!(
            service.snapshot(),
            (
                LatestResults {
                    ping: HttpLatencyMeasurement::default(),
                    download: HttpDownloadMeasurement::default(),
                    upload: HttpUploadMeasurement::default(),
                },
                HttpTestState::MeasuringLatency
            )
        );
    }
    drop(order);
    // A probe that went away without a report leaves the state as it is.
    assert!(service.check_measurments().is_none());
    assert_eq!(*service.get_state(), HttpTestState::MeasuringLatency);
}

#[test]
fn failed_latency_probe_still_advances() {
    let mut service = HttpTestService::new(HttpTester::new("http://host"));
    let order = service.run_full_test().unwrap();
    let samples: Vec<Option<u64>> = vec![None; 20];
    let latency = order.tester.measure_latency_multiple(&samples);
    let report = Measurement::settle(order.kind, Ok(Measurement::Latency(latency)));
    order.reply.send(report).unwrap();
    let next = service.check_measurments().unwrap();
    assert_eq!(next.kind, ProbeKind::Download);
    assert_eq!(*service.get_state(), HttpTestState::MeasuringDownload);
    assert_eq!(
        *service.get_ping_results(),
        HttpLatencyMeasurement { min: 0, max: 0, avg: 0, total: 0, total_measurments: 0 }
    );
}

#[test]
fn failed_probes_report_zero_and_the_run_completes() {
    let mut service = HttpTestService::new(HttpTester::new("http://host"));
    let first = service.run_full_test().unwrap();
    first.reply.send(Measurement::Latency(ping())).unwrap();
    let second = service.check_measurments().unwrap();
    second
        .reply
        .send(Measurement::settle(second.kind, Err(ProbeError::RequestError)))
        .unwrap();
    let third = service.check_measurments().unwrap();
    assert_eq!(*service.get_download_results(), HttpDownloadMeasurement::default());
    third
        .reply
        .send(Measurement::settle(third.kind, Err(ProbeError::RequestFailed)))
        .unwrap();
    assert!(service.check_measurments().is_none());
    assert_eq!(*service.get_state(), HttpTestState::Finished);
    assert_eq!(*service.get_upload_results(), HttpUploadMeasurement::default());
    assert_eq!(*service.get_ping_results(), ping());
    service.check_measurments();
    assert_eq!(*service.get_state(), HttpTestState::Idle);
}

#[test]
fn results_persist_into_the_next_run() {
    let mut service = HttpTestService::new(HttpTester::new("http://host"));
    let a = service.run_full_test().unwrap();
    assert!(service.advance(Some(Measurement::Latency(ping()))).is_some());
    assert!(service.advance(Some(Measurement::Download(down()))).is_some());
    assert!(service.advance(Some(Measurement::Upload(up()))).is_none());
    assert!(service.advance(None).is_none());
    drop(a);
    assert_eq!(*service.get_state(), HttpTestState::Idle);
    let b = service.run_full_test().unwrap();
    assert_eq!(b.kind, ProbeKind::Latency);
    assert_eq!(*service.get_ping_results(), ping());
    assert_eq!(*service.get_download_results(), down());
    assert_eq!(*service.get_upload_results(), up());
}

#[test]
fn measurement_of_another_shape_is_stored_as_zero() {
    let mut service = HttpTestService::new(HttpTester::new("http://host"));
    service.run_full_test();
    let next = service.advance(Some(Measurement::Upload(up()))).unwrap();
    assert_eq!(next.kind, ProbeKind::Download);
    assert_eq!(*service.get_ping_results(), HttpLatencyMeasurement::default());
    assert_eq!(*service.get_upload_results(), HttpUploadMeasurement::default());
}

#[test]
fn advance_while_idle_changes_nothing() {
    let mut service = HttpTestService::new(HttpTester::new("http://host"));
    assert!(service.advance(Some(Measurement::Latency(ping()))).is_none());
    assert_eq!(*service.get_state(), HttpTestState::Idle);
    assert_eq!(*service.get_ping_results(), HttpLatencyMeasurement::default());
}

#[test]
fn settle_keeps_a_fitting_measurement() {
    assert_eq!(
        Measurement::settle(ProbeKind::Latency, Ok(Measurement::Latency(ping()))),
        Measurement::Latency(ping())
    );
    assert_eq!(
        Measurement::settle(ProbeKind::Download, Ok(Measurement::Download(down()))),
        Measurement::Download(down())
    );
    assert_eq!(
        Measurement::settle(ProbeKind::Upload, Ok(Measurement::Upload(up()))),
        Measurement::Upload(up())
    );
}

#[test]
fn settle_turns_errors_and_misfits_into_zero() {
    assert_eq!(
        Measurement::settle(ProbeKind::Latency, Err(ProbeError::RequestFailed)),
        Measurement::Latency(HttpLatencyMeasurement::default())
    );
    assert_eq!(
        Measurement::settle(ProbeKind::Download, Err(ProbeError::RequestError)),
        Measurement::Download(HttpDownloadMeasurement::default())
    );
    assert_eq!(
        Measurement::settle(ProbeKind::Upload, Ok(Measurement::Latency(ping()))),
        Measurement::Upload(HttpUploadMeasurement::default())
    );
    assert_eq!(
        Measurement::default_for(ProbeKind::Upload),
        Measurement::Upload(HttpUploadMeasurement::default())
    );
}

#[test]
fn run_current_state_orders_the_probe_of_the_state() {
    let mut service = HttpTestService::new(HttpTester::new("http://host"));
    assert!(service.run_current_state().is_none());
    assert_eq!(*service.get_state(), HttpTestState::Idle);
    assert_eq!(service.run_download_test().kind, ProbeKind::Download);
    assert_eq!(*service.get_state(), HttpTestState::MeasuringDownload);
    assert_eq!(service.run_current_state().unwrap().kind, ProbeKind::Download);
    assert_eq!(service.run_upload_test().kind, ProbeKind::Upload);
    assert_eq!(*service.get_state(), HttpTestState::MeasuringUpload);
    assert_eq!(service.run_latency_test().kind, ProbeKind::Latency);
    assert_eq!(*service.get_state(), HttpTestState::MeasuringLatency);
}

#[test]
fn a_new_order_replaces_the_receiver() {
    let mut service = HttpTestService::new(HttpTester::new("http://host"));
    let stale = service.run_latency_test();
    let fresh = service.run_latency_test();
    // The receiver of the first order was dropped with the second order.
    assert!(stale.reply.send(Measurement::Latency(ping())).is_err());
    assert!(service.check_measurments().is_none());
    assert_eq!(*service.get_state(), HttpTestState::MeasuringLatency);
    fresh.reply.send(Measurement::Latency(ping())).unwrap();
    assert!(service.check_measurments().is_some());
    assert_eq!(*service.get_state(), HttpTestState::MeasuringDownload);
}

#[test]
fn set_tester_changes_the_target_of_later_orders() {
    let mut service = HttpTestService::new(HttpTester::default());
    service.set_tester(HttpTester::new("http://other"));
    let order = service.run_full_test().unwrap();
    assert_eq!(order.tester.url, "http://other");
    assert_eq!(*service.get_state(), HttpTestState::MeasuringLatency);
}
