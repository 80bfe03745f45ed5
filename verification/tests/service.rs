use cf_speedtest::clock::get_secs_since_unix_epoch;
use cf_speedtest::controller::{Controller, Stage};
use cf_speedtest::counter::ByteCounter;
use cf_speedtest::error::TransferError;
use cf_speedtest::latency::{fastest, probe_again};
use cf_speedtest::metadata::{country_of, is_server_header};
use cf_speedtest::orchestrator::{Direction, Orchestrator, Progress};

fn country(body: &str) -> Option<String> {
    country_of(body.as_bytes()).map(|code| String::from_utf8(code).unwrap())
}

/// Runs a phase to its end with the given samples and join outcomes.
fn run_phase(controller: &mut Controller, samples: &[u64], normal_joins: bool) {
    controller.prime();
    let mut total = 0;
    for (i, sample) in samples.iter().enumerate() {
        total += sample;
        controller.sample(total, i as u64);
        controller.decide();
    }
    assert!(controller.woke(u64::MAX));
    while controller.stage() == Stage::Draining {
        let _ = controller.joined(normal_joins);
    }
}

#[test]
fn clock_reads_a_time_after_2020() {
    let first = get_secs_since_unix_epoch().unwrap();
    let second = get_secs_since_unix_epoch().unwrap();
    assert!(first > 1_577_836_800);
    assert!(second >= first);
    assert!(second - first < 60);
}

#[test]
fn country_is_what_follows_the_key() {
    let body = "fl=123f45\nh=speed.cloudflare.com\nip=203.0.113.7\nts=1700000000.1\nloc=NL\ntls=TLSv1.3\n";
    assert_eq!(country(body), Some("NL".to_string()));
}

#[test]
fn country_line_may_stand_first_or_last() {
    assert_eq!(country("loc=DE\nip=1.2.3.4\n"), Some("DE".to_string()));
    assert_eq!(country("ip=1.2.3.4\nloc=FR"), Some("FR".to_string()));
    assert_eq!(country("loc=US"), Some("US".to_string()));
    assert_eq!(country("loc=\n"), Some("".to_string()));
    assert_eq!(country("loc="), Some("".to_string()));
}

#[test]
fn first_country_line_wins() {
    assert_eq!(country("a=b\nloc=SE\nloc=NO\n"), Some("SE".to_string()));
}

#[test]
fn carriage_return_before_line_feed_is_dropped() {
    assert_eq!(country("ip=1.2.3.4\r\nloc=GB\r\ntls=1\r\n"), Some("GB".to_string()));
    assert_eq!(country("loc=GB\r\r\n"), Some("GB\r".to_string()));
    assert_eq!(country("loc=GB\r"), Some("GB\r".to_string()));
    assert_eq!(country("\r\nloc=IT\n"), Some("IT".to_string()));
}

#[test]
fn key_must_start_its_line() {
    assert_eq!(country(""), None);
    assert_eq!(country("\n\n"), None);
    assert_eq!(country("ip=1.2.3.4\ncolo=AMS\n"), None);
    assert_eq!(country(" loc=NL\n"), None);
    assert_eq!(country("xloc=NL\nLOC=NL\nloc:NL\nlo\nloc"), None);
    assert_eq!(country("geoloc=NL\n\nloc=BE\n"), Some("BE".to_string()));
}

#[test]
fn server_headers_begin_with_cf() {
    assert!(is_server_header(b"cf-ray"));
    assert!(is_server_header(b"cf-meta-colo"));
    assert!(is_server_header(b"cf-"));
    assert!(!is_server_header(b"cf"));
    assert!(!is_server_header(b""));
    assert!(!is_server_header(b"content-type"));
    assert!(!is_server_header(b"CF-Ray"));
    assert!(!is_server_header(b"xcf-ray"));
    assert!(!is_server_header(b"cfx-"));
}

#[test]
fn probing_stops_after_eight_or_when_slow() {
    assert!(probe_again(0, 0));
    assert!(probe_again(0, 5_000_000_000));
    assert!(probe_again(1, 5_000_000_000));
    assert!(probe_again(2, 1_000_000_000));
    assert!(!probe_again(2, 1_000_000_001));
    assert!(probe_again(7, 999_999_999));
    assert!(!probe_again(7, 2_000_000_000));
    assert!(!probe_again(8, 0));
    assert!(!probe_again(9, 0));
}

#[test]
fn fastest_probe_is_reported() {
    assert_eq!(fastest(&vec![]), None);
    assert_eq!(fastest(&vec![30_000_000]), Some(30_000_000));
    assert_eq!(fastest(&vec![30, 20, 25, 20, 90]), Some(20));
    assert_eq!(fastest(&vec![5, 6, 7]), Some(5));
    assert_eq!(fastest(&vec![7, 6, 5]), Some(5));
    assert_eq!(fastest(&vec![u128::MAX, u128::MAX - 1]), Some(u128::MAX - 1));
}

#[test]
fn upload_begins_only_after_download_is_done() {
    let mut orchestrator = Orchestrator::new(1_000, 2);
    let mut counter = ByteCounter::new();
    assert_eq!(orchestrator.progress(), Progress::Download);
    assert_eq!(orchestrator.current(), Some(Direction::Download));
    assert_eq!(orchestrator.phase().stage(), Stage::Priming);
    assert_eq!(orchestrator.phase().deadline(), 1_012);

    assert_eq!(orchestrator.advance(1_000, &mut counter), Ok(false));
    orchestrator.phase_mut().prime();
    orchestrator.phase_mut().sample(10, 1_000);
    assert_eq!(orchestrator.advance(1_001, &mut counter), Ok(false));
    orchestrator.phase_mut().decide();
    assert_eq!(orchestrator.advance(1_001, &mut counter), Ok(false));
    assert!(orchestrator.phase_mut().woke(1_013));
    assert_eq!(orchestrator.phase_mut().joined(true), Ok(Stage::Draining));
    // One download worker is still running.
    assert_eq!(orchestrator.advance(1_014, &mut counter), Ok(false));
    assert_eq!(orchestrator.current(), Some(Direction::Download));
    assert_eq!(orchestrator.phase().stage(), Stage::Draining);
    assert_eq!(orchestrator.phase_mut().joined(true), Ok(Stage::Done));
    assert_eq!(orchestrator.advance(1_015, &mut counter), Ok(true));
    assert_eq!(orchestrator.progress(), Progress::Upload { download: Some(10) });
    assert_eq!(orchestrator.current(), Some(Direction::Upload));
}

#[test]
fn counter_is_reset_only_when_upload_begins() {
    let mut orchestrator = Orchestrator::new(1_000, 1);
    let mut counter = ByteCounter::new();
    counter.add(500);
    orchestrator.phase_mut().prime();
    assert_eq!(orchestrator.advance(1_001, &mut counter), Ok(false));
    assert_eq!(counter.total(), 500);
    assert!(orchestrator.phase_mut().woke(1_013));
    assert_eq!(orchestrator.advance(1_014, &mut counter), Ok(false));
    assert_eq!(counter.total(), 500);
    assert_eq!(orchestrator.phase_mut().joined(true), Ok(Stage::Done));
    assert_eq!(counter.total(), 500);
    assert_eq!(orchestrator.advance(1_015, &mut counter), Ok(true));
    assert_eq!(counter.total(), 0);

    counter.add(70);
    run_phase(orchestrator.phase_mut(), &[70], true);
    assert_eq!(orchestrator.advance(1_030, &mut counter), Ok(true));
    assert_eq!(counter.total(), 70);
    assert_eq!(orchestrator.advance(1_031, &mut counter), Ok(false));
    assert_eq!(counter.total(), 70);
}

#[test]
fn upload_phase_starts_from_scratch() {
    let mut orchestrator = Orchestrator::new(1_000, 4);
    let mut counter = ByteCounter::new();
    run_phase(orchestrator.phase_mut(), &[5, 6, 7], true);
    assert!(orchestrator.phase().stop_signal());
    assert_eq!(orchestrator.advance(2_000, &mut counter), Ok(true));

    let upload = orchestrator.phase();
    assert_eq!(upload.stage(), Stage::Priming);
    assert_eq!(upload.deadline(), 2_012);
    assert!(!upload.stop_signal());
    assert_eq!(upload.history().len(), 0);
    assert_eq!(upload.rate_estimate(), 0);
    assert_eq!(upload.workers_spawned(), 0);
    assert_eq!(orchestrator.phase_mut().prime().len(), 4);
    // The first upload reading is measured from zero, not from where the
    // download counter stood.
    assert_eq!(orchestrator.phase_mut().sample(3, 2_000).unwrap().sample, 3);
}

#[test]
fn measurement_yields_two_independent_results() {
    let mut orchestrator = Orchestrator::new(1_000, 4);
    let mut counter = ByteCounter::new();
    run_phase(orchestrator.phase_mut(), &[5, 6, 7], true);
    assert_eq!(orchestrator.advance(2_000, &mut counter), Ok(true));
    run_phase(orchestrator.phase_mut(), &[1, 2], true);
    assert_eq!(orchestrator.advance(3_000, &mut counter), Ok(true));

    assert_eq!(orchestrator.progress(), Progress::Complete { download: Some(7), upload: Some(2) });
    assert_eq!(orchestrator.current(), None);
    assert_eq!(orchestrator.advance(4_000, &mut counter), Ok(false));
    assert_eq!(orchestrator.progress(), Progress::Complete { download: Some(7), upload: Some(2) });
    assert_eq!(orchestrator.phase().stage(), Stage::Done);
}

#[test]
fn phase_that_never_sampled_has_no_result() {
    let mut orchestrator = Orchestrator::new(1_000, 1);
    let mut counter = ByteCounter::new();
    run_phase(orchestrator.phase_mut(), &[], true);
    assert_eq!(orchestrator.advance(2_000, &mut counter), Ok(true));
    assert_eq!(orchestrator.progress(), Progress::Upload { download: None });
}

#[test]
fn join_failure_fails_the_measurement() {
    let mut orchestrator = Orchestrator::new(1_000, 2);
    let mut counter = ByteCounter::new();
    run_phase(orchestrator.phase_mut(), &[5], false);
    assert_eq!(orchestrator.phase().stage(), Stage::Failed);
    assert_eq!(orchestrator.advance(2_000, &mut counter), Err(TransferError::JoinFailure));
    assert_eq!(orchestrator.progress(), Progress::Failed { direction: Direction::Download });
    assert_eq!(orchestrator.current(), None);
    assert_eq!(orchestrator.advance(3_000, &mut counter), Ok(false));
    assert_eq!(orchestrator.progress(), Progress::Failed { direction: Direction::Download });
    assert_eq!(orchestrator.phase().stage(), Stage::Failed);
}

#[test]
fn join_failure_during_upload_names_the_upload_phase() {
    let mut orchestrator = Orchestrator::new(1_000, 1);
    let mut counter = ByteCounter::new();
    run_phase(orchestrator.phase_mut(), &[5], true);
    assert_eq!(orchestrator.advance(2_000, &mut counter), Ok(true));
    run_phase(orchestrator.phase_mut(), &[5], false);
    assert_eq!(orchestrator.advance(3_000, &mut counter), Err(TransferError::JoinFailure));
    assert_eq!(orchestrator.progress(), Progress::Failed { direction: Direction::Upload });
}

/// The country as the line iterator and prefix stripping of the standard
/// library find it.
fn country_by_lines(body: &str) -> Option<String> {
    for line in body.lines() {
        if let Some(code) = line.strip_prefix("loc=") {
            return Some(code.to_string());
        }
    }
    None
}

#[test]
fn country_agrees_with_the_standard_line_iterator() {
    let pieces = ["loc=", "NL", "\n", "\r", "\r\n", "ip=1.2.3.4", "loc", "=", "x", " ", ""];
    let mut bodies = 0u32;
    // Every body made of up to four of the pieces.
    let mut indices = [0usize; 4];
    loop {
        for length in 0..=4 {
            let body: String = indices[..length].iter().map(|i| pieces[*i]).collect();
            assert_eq!(country(&body), country_by_lines(&body), "for body {:?}", body);
            bodies += 1;
        }
        let mut place = 0;
        while place < 4 {
            indices[place] += 1;
            if indices[place] < pieces.len() {
                break;
            }
            indices[place] = 0;
            place += 1;
        }
        if place == 4 {
            break;
        }
    }
    assert_eq!(bodies, 5 * 11 * 11 * 11 * 11);
}

#[test]
fn header_rule_agrees_with_prefix_test() {
    for name in ["cf-ray", "cf-", "cf", "c", "", "CF-RAY", "cf_ray", "server", "x-cf-ray", "cf-cache-status", "cf--"] {
        assert_eq!(is_server_header(name.as_bytes()), name.starts_with("cf-"), "for {:?}", name);
    }
}

#[test]
fn fastest_agrees_with_the_minimum() {
    let mut state = 12345u64;
    for length in 0..40usize {
        let mut latencies: Vec<u128> = Vec::new();
        for _ in 0..length {
            state = state.wrapping_mul(6364136223846793005).wrapping_add(1442695040888963407);
            latencies.push((state >> 40) as u128);
        }
        assert_eq!(fastest(&latencies), latencies.iter().min().copied());
    }
}
