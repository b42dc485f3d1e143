use libquark::cli::QuarkArgs;
use libquark::config::QuarkConfig;
use libquark::error::QuarkError;
use libquark::setup::{server_url, HostEvent, HostRequest, ServedAsset, Setup};
use libquark::text::decimal_text;
use libquark::Quark;

fn live(config: QuarkConfig) -> Setup {
    Setup::new(config, QuarkArgs { live: true })
}

fn fixed(config: QuarkConfig) -> Setup {
    Setup::new(config, QuarkArgs { live: false })
}

#[test]
fn numbers_in_decimal() {
    assert_eq!(decimal_text(0), "0");
    assert_eq!(decimal_text(7), "7");
    assert_eq!(decimal_text(10), "10");
    assert_eq!(decimal_text(8080), "8080");
    assert_eq!(decimal_text(40906), "40906");
    assert_eq!(decimal_text(65535), "65535");
    assert_eq!(decimal_text(1000000), "1000000");
    assert_eq!(decimal_text(usize::MAX), usize::MAX.to_string());
}

#[test]
fn url_of_a_server() {
    assert_eq!(server_url("127.0.0.1", 3000), "http://127.0.0.1:3000/");
    assert_eq!(server_url("localhost", 0), "http://localhost:0/");
    assert_eq!(server_url("", 65535), "http://:65535/");
}

#[test]
fn setup_begins_by_probing_the_frontend() {
    for mode in [false, true] {
        let setup = Setup::new(QuarkConfig::new().frontend("./web"), QuarkArgs { live: mode });
        assert!(!setup.settled());
        match setup.request() {
            HostRequest::Probe { path } => assert_eq!(path, "./web"),
            other => panic!("unexpected request {:?}", other),
        }
    }
}

#[test]
fn static_setup_reads_the_entry_document() {
    let setup = fixed(QuarkConfig::new().frontend("./web")).advance(HostEvent::Probed { exists: true });
    assert!(!setup.settled());
    match setup.request() {
        HostRequest::Read { dir, file } => {
            assert_eq!(dir, "./web");
            assert_eq!(file, "index.html");
        }
        other => panic!("unexpected request {:?}", other),
    }
    let setup = setup.advance(HostEvent::Read { bytes: Some(b"<p>hi</p>".to_vec()) });
    assert!(setup.settled());
    assert!(matches!(setup.request(), HostRequest::Nothing));
    let quark = Quark::new(setup).expect("construction succeeds");
    match quark.asset() {
        ServedAsset::Content(text) => assert_eq!(text, "<p>hi</p>"),
        ServedAsset::Url(_) => panic!("static mode serves content"),
    }
}

#[test]
fn live_setup_binds_then_serves() {
    let setup = live(QuarkConfig::new().frontend("./web")).advance(HostEvent::Probed { exists: true });
    match setup.request() {
        HostRequest::Bind { host } => assert_eq!(host, "127.0.0.1"),
        other => panic!("unexpected request {:?}", other),
    }
    let setup = setup.advance(HostEvent::Bound { port: Some(40906) });
    assert!(!setup.settled());
    match setup.request() {
        HostRequest::Serve { root, port } => {
            assert_eq!(root, "./web");
            assert_eq!(port, 40906);
        }
        other => panic!("unexpected request {:?}", other),
    }
    let setup = setup.advance(HostEvent::Served { started: true });
    assert!(setup.settled());
    assert!(matches!(setup.request(), HostRequest::Nothing));
    let quark = Quark::new(setup).expect("construction succeeds");
    match quark.asset() {
        ServedAsset::Url(url) => assert_eq!(url, "http://127.0.0.1:40906/"),
        ServedAsset::Content(_) => panic!("live mode serves a url"),
    }
    assert_eq!(quark.config().frontend, "./web");
}

#[test]
fn no_free_port_fails() {
    let setup = live(QuarkConfig::new())
        .advance(HostEvent::Probed { exists: true })
        .advance(HostEvent::Bound { port: None });
    assert!(setup.settled());
    assert!(matches!(Quark::new(setup), Err(QuarkError::ServerPortIsntAvailable)));
}

#[test]
fn no_free_port_stays_failed() {
    let setup = live(QuarkConfig::new())
        .advance(HostEvent::Probed { exists: true })
        .advance(HostEvent::Bound { port: None })
        .advance(HostEvent::Bound { port: Some(1) })
        .advance(HostEvent::Served { started: true });
    assert!(matches!(Quark::new(setup), Err(QuarkError::ServerPortIsntAvailable)));
}

#[test]
fn server_that_does_not_start_fails() {
    let setup = live(QuarkConfig::new())
        .advance(HostEvent::Probed { exists: true })
        .advance(HostEvent::Bound { port: Some(8000) })
        .advance(HostEvent::Served { started: false });
    assert!(setup.settled());
    assert!(matches!(Quark::new(setup), Err(QuarkError::ServerError)));
}

#[test]
fn report_that_answers_nothing_is_passed_over() {
    let setup = fixed(QuarkConfig::new())
        .advance(HostEvent::Bound { port: Some(1) })
        .advance(HostEvent::Served { started: true })
        .advance(HostEvent::Read { bytes: Some(b"early".to_vec()) });
    assert!(matches!(setup.request(), HostRequest::Probe { .. }));
    let setup = setup
        .advance(HostEvent::Probed { exists: true })
        .advance(HostEvent::Probed { exists: false })
        .advance(HostEvent::Bound { port: None });
    assert!(matches!(setup.request(), HostRequest::Read { .. }));
    let setup = setup.advance(HostEvent::Read { bytes: Some(b"late".to_vec()) });
    let quark = Quark::new(setup).expect("construction succeeds");
    match quark.asset() {
        ServedAsset::Content(text) => assert_eq!(text, "late"),
        ServedAsset::Url(_) => panic!("static mode serves content"),
    }
}

#[test]
fn live_setup_does_not_read_the_document() {
    let setup = live(QuarkConfig::new())
        .advance(HostEvent::Probed { exists: true })
        .advance(HostEvent::Read { bytes: Some(b"ignored".to_vec()) });
    assert!(matches!(setup.request(), HostRequest::Bind { .. }));
}

#[test]
fn settled_setup_stays_loaded() {
    let setup = fixed(QuarkConfig::new())
        .advance(HostEvent::Probed { exists: true })
        .advance(HostEvent::Read { bytes: Some(b"one".to_vec()) })
        .advance(HostEvent::Read { bytes: Some(b"two".to_vec()) })
        .advance(HostEvent::Probed { exists: false });
    let quark = Quark::new(setup).expect("construction succeeds");
    match quark.asset() {
        ServedAsset::Content(text) => assert_eq!(text, "one"),
        ServedAsset::Url(_) => panic!("static mode serves content"),
    }
}

#[test]
fn unfinished_setup_fails_as_if_refused() {
    assert!(matches!(Quark::new(fixed(QuarkConfig::new())), Err(QuarkError::FrontendPathMissing)));
    assert!(matches!(
        Quark::new(fixed(QuarkConfig::new()).advance(HostEvent::Probed { exists: true })),
        Err(QuarkError::FrontendPathMissing)
    ));
    assert!(matches!(
        Quark::new(live(QuarkConfig::new()).advance(HostEvent::Probed { exists: true })),
        Err(QuarkError::ServerPortIsntAvailable)
    ));
    assert!(matches!(
        Quark::new(
            live(QuarkConfig::new())
                .advance(HostEvent::Probed { exists: true })
                .advance(HostEvent::Bound { port: Some(9) })
        ),
        Err(QuarkError::ServerError)
    ));
}

#[test]
fn no_application_without_a_found_frontend() {
    for mode in [false, true] {
        let setup = Setup::new(QuarkConfig::new(), QuarkArgs { live: mode })
            .advance(HostEvent::Read { bytes: Some(b"<p>hi</p>".to_vec()) })
            .advance(HostEvent::Bound { port: Some(4000) })
            .advance(HostEvent::Served { started: true });
        assert!(!setup.settled());
        assert!(Quark::new(setup).is_err());

        let setup = Setup::new(QuarkConfig::new(), QuarkArgs { live: mode })
            .advance(HostEvent::Served { started: true })
            .advance(HostEvent::Probed { exists: false })
            .advance(HostEvent::Probed { exists: true })
            .advance(HostEvent::Read { bytes: Some(b"<p>hi</p>".to_vec()) })
            .advance(HostEvent::Bound { port: Some(4000) })
            .advance(HostEvent::Served { started: true });
        assert!(matches!(Quark::new(setup), Err(QuarkError::FrontendPathMissing)));
    }
}
