use libchordr::config::Config;
use libchordr::convert_song_to_html_string;
use libchordr::format::{Format, Formatting};
use libchordr::metadata::MetaInformation;
use libchordr::repository::{CatalogWebRepository, PersistenceError};
use libchordr::sync::{
    get_api_key, get_local_directory, get_password, get_remote_directory, get_url, get_username,
    log_level_for_verbosity, Error, ErrorKind, LogLevel,
};

#[test]
fn error_constructors_carry_kind_and_message() {
    assert_eq!(Error::download_error("d").kind(), ErrorKind::DownloadError);
    assert_eq!(Error::skip_download("s").kind(), ErrorKind::SkipDownload);
    assert_eq!(
        Error::missing_argument_error("m").kind(),
        ErrorKind::MissingArgumentError
    );
    assert_eq!(
        Error::invalid_argument_error("i").kind(),
        ErrorKind::InvalidArgumentError
    );
    assert_eq!(
        Error::unknown_service_error("u").kind(),
        ErrorKind::UnknownServiceError
    );
    assert_eq!(Error::io_error("o").kind(), ErrorKind::IoError);
    assert_eq!(Error::xml_parser_error("x").kind(), ErrorKind::XmlParserError);
    assert_eq!(Error::from_error("f").kind(), ErrorKind::UnknownError);
    assert_eq!(Error::download_error("oh no").message(), "oh no");
}

#[test]
fn api_key_prefers_cli_then_env() {
    assert_eq!(
        get_api_key(Some("cli".to_string()), Some("env".to_string())).unwrap(),
        "cli"
    );
    assert_eq!(get_api_key(None, Some("env".to_string())).unwrap(), "env");
    let err = get_api_key(None, None).unwrap_err();
    assert_eq!(err.kind(), ErrorKind::MissingArgumentError);
    assert_eq!(err.message(), "No API token provided");
}

#[test]
fn required_arguments_report_what_is_missing() {
    assert_eq!(get_url(Some("u".to_string())).unwrap(), "u");
    assert_eq!(get_url(None).unwrap_err().message(), "No URL provided");
    assert_eq!(
        get_username(None).unwrap_err().message(),
        "No username provided"
    );
    assert_eq!(
        get_remote_directory(None).unwrap_err().message(),
        "No remote-directory provided"
    );
    let err = get_password(None, None).unwrap_err();
    assert_eq!(err.message(), "No password provided");
}

#[test]
fn local_directory_judged_from_probes() {
    assert_eq!(get_local_directory("out", true, false, true).unwrap(), "out");
    let err = get_local_directory("out", false, true, true).unwrap_err();
    assert_eq!(err.kind(), ErrorKind::IoError);
    assert_eq!(err.message(), "Output path out is not a directory");
    let err = get_local_directory("out", false, false, false).unwrap_err();
    assert_eq!(err.message(), "Output path out does not exist");
    let err = get_local_directory("out", false, false, true).unwrap_err();
    assert_eq!(err.message(), "Output path out is not a path");
}

#[test]
fn verbosity_selects_log_level() {
    assert_eq!(log_level_for_verbosity(0), LogLevel::Warn);
    assert_eq!(log_level_for_verbosity(1), LogLevel::Info);
    assert_eq!(log_level_for_verbosity(2), LogLevel::Debug);
    assert_eq!(log_level_for_verbosity(3), LogLevel::Trace);
    assert_eq!(log_level_for_verbosity(4), LogLevel::Warn);
}

#[test]
fn config_default_api_url() {
    let config = Config::default();
    assert_eq!(config.api_url(), "http://localhost:9000/api");
}

#[test]
fn catalog_repository_serves_fetched_and_falls_back() {
    let mut repo: CatalogWebRepository<String> = CatalogWebRepository::new(None);
    assert_eq!(repo.current(), &None);
    repo.resolve_load(Some("catalog-1".to_string()));
    assert_eq!(repo.current(), &Some("catalog-1".to_string()));
    repo.resolve_load(None);
    assert_eq!(repo.current(), &Some("catalog-1".to_string()));
    assert_eq!(
        repo.store("catalog-2".to_string()),
        Err(PersistenceError::CatalogReadOnly)
    );
    assert_eq!(repo.current(), &Some("catalog-1".to_string()));
}

#[test]
fn song_view_skips_transposition_at_zero() {
    let meta = MetaInformation::default();
    let formatting = Formatting::with_format(Format::Chorddown);
    // at zero the original spelling, canonical or not, is untouched
    assert_eq!(
        convert_song_to_html_string("[Fb]", 0, &meta, formatting),
        "[Fb]\n"
    );
    assert_eq!(
        convert_song_to_html_string("Swing [D]low", 2, &meta, formatting),
        "Swing [E]low\n"
    );
    let html = convert_song_to_html_string(
        "Swing [D]low",
        2,
        &meta,
        Formatting::with_format(Format::Html),
    );
    assert!(html.contains("data-chord='E'"));
}
