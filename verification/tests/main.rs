use libquark::prelude::{
    HostEvent, Quark, QuarkArgs, QuarkConfig, QuarkError, ServedAsset, Setup, SizeHint,
};

fn document() -> Vec<u8> {
    b"<!doctype html><title>Quark</title>".to_vec()
}

fn construct_static(config: QuarkConfig, exists: bool, bytes: Option<Vec<u8>>) -> Result<Quark, QuarkError> {
    let setup = Setup::new(config, QuarkArgs { live: false });
    let setup = setup.advance(HostEvent::Probed { exists });
    let setup = setup.advance(HostEvent::Read { bytes });
    Quark::new(setup)
}

#[test]
fn custom_config() {
    let config = QuarkConfig::new()
        .title("QuarkTestWindowConfig")
        .width(1024)
        .height(768)
        .resizable(SizeHint::FIXED);

    let result = construct_static(config, true, Some(document()));
    assert!(result.is_ok());
}

#[test]
fn errors() {
    let errors = [
        QuarkError::FrontendPathMissing,
        QuarkError::IncludeDirCouldntConvertToUTF8,
        QuarkError::ServerPortIsntAvailable,
        QuarkError::ServerError,
    ];

    for error in &errors {
        let debug_str = format!("{:?}", error);
        assert!(!debug_str.is_empty());
    }
}

#[test]
fn error_messages() {
    assert_eq!(QuarkError::FrontendPathMissing.message(), "frontend path missing");
    assert_eq!(
        QuarkError::IncludeDirCouldntConvertToUTF8.message(),
        "include directory could not convert to UTF-8"
    );
    assert_eq!(QuarkError::ServerPortIsntAvailable.message(), "server port isn't available");
    assert_eq!(QuarkError::ServerError.message(), "server error");
}

#[test]
fn valid_directory_with_fixed_size() {
    let config = QuarkConfig::new()
        .frontend("./valid_dir")
        .resizable(SizeHint::FIXED)
        .width(1024)
        .height(768);

    let quark = construct_static(config, true, Some(document())).expect("construction succeeds");
    assert_eq!(quark.config().width, 1024);
    assert_eq!(quark.config().height, 768);
    assert_eq!(quark.config().resizable, SizeHint::FIXED);
    assert_eq!(quark.config().frontend, "./valid_dir");
    match quark.asset() {
        ServedAsset::Content(text) => assert_eq!(text, "<!doctype html><title>Quark</title>"),
        ServedAsset::Url(_) => panic!("static mode serves content"),
    }
}

#[test]
fn invalid_path_fails_in_static_mode() {
    let config = QuarkConfig::new().frontend("invalid_nonexistent_path");
    let setup = Setup::new(config, QuarkArgs { live: false });
    let setup = setup.advance(HostEvent::Probed { exists: false });
    assert!(setup.settled());
    assert!(matches!(Quark::new(setup), Err(QuarkError::FrontendPathMissing)));
}

#[test]
fn invalid_path_fails_in_live_mode() {
    let config = QuarkConfig::new().frontend("invalid_nonexistent_path");
    let setup = Setup::new(config, QuarkArgs { live: true });
    let setup = setup.advance(HostEvent::Probed { exists: false });
    assert!(setup.settled());
    assert!(matches!(Quark::new(setup), Err(QuarkError::FrontendPathMissing)));
}

#[test]
fn invalid_path_stays_failed() {
    let config = QuarkConfig::new().frontend("invalid_nonexistent_path");
    let setup = Setup::new(config, QuarkArgs { live: true });
    let setup = setup.advance(HostEvent::Probed { exists: false });
    let setup = setup.advance(HostEvent::Probed { exists: true });
    let setup = setup.advance(HostEvent::Bound { port: Some(4000) });
    let setup = setup.advance(HostEvent::Served { started: true });
    assert!(matches!(Quark::new(setup), Err(QuarkError::FrontendPathMissing)));
}

#[test]
fn unreadable_entry_document_is_a_missing_path() {
    let result = construct_static(QuarkConfig::new(), true, None);
    assert!(matches!(result, Err(QuarkError::FrontendPathMissing)));
}

#[test]
fn document_that_is_not_utf8_is_refused() {
    let result = construct_static(QuarkConfig::new(), true, Some(vec![0x3c, 0xff, 0xfe, 0x3e]));
    assert!(matches!(result, Err(QuarkError::IncludeDirCouldntConvertToUTF8)));
}

#[test]
fn overlong_encoding_is_refused() {
    let result = construct_static(QuarkConfig::new(), true, Some(vec![0xc0, 0xaf]));
    assert!(matches!(result, Err(QuarkError::IncludeDirCouldntConvertToUTF8)));
}

#[test]
fn document_is_decoded() {
    let bytes = vec![0x68, 0xc3, 0xa9, 0x20, 0xe2, 0x82, 0xac, 0x20, 0xf0, 0x9f, 0x8e, 0x89];
    let quark = construct_static(QuarkConfig::new(), true, Some(bytes)).expect("valid UTF-8");
    match quark.asset() {
        ServedAsset::Content(text) => {
            assert_eq!(text, "h\u{e9} \u{20ac} \u{1f389}");
            assert_eq!(text.chars().count(), 6);
        }
        ServedAsset::Url(_) => panic!("static mode serves content"),
    }
}

#[test]
fn empty_document_is_valid() {
    let quark = construct_static(QuarkConfig::new(), true, Some(Vec::new())).expect("valid UTF-8");
    match quark.asset() {
        ServedAsset::Content(text) => assert_eq!(text, ""),
        ServedAsset::Url(_) => panic!("static mode serves content"),
    }
}

#[test]
fn instance_keeps_its_configuration() {
    let config = QuarkConfig::new().title("Kept").debug(false).resizable(SizeHint::MIN);
    let quark = construct_static(config, true, Some(document())).expect("construction succeeds");
    assert_eq!(quark.config().title, "Kept");
    assert_eq!(quark.config().frontend, "src_quark");
    assert_eq!(quark.config().width, 800);
    assert_eq!(quark.config().height, 600);
    assert!(!quark.config().debug);
    assert_eq!(quark.config().resizable, SizeHint::MIN);
}
