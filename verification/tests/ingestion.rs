//! Tests for the ingestion pipeline: quota parsing, filename derivation and
//! profile construction.

use lazyclash::app::{after_fetch, persist_outcome, query_done, FetchFollowUp};
use lazyclash::action::Action;
use lazyclash::help::{derive_filename, get_last_part_and_decode, parse_str};
use lazyclash::prfitem::{file_target, IngestionError, PrfExtra, PrfItem};

#[test]
fn quota_parses_all_four_counters() {
    let extra = PrfExtra::parse("upload=100;download=200;total=900;expire=0");
    assert_eq!(extra.upload, 100);
    assert_eq!(extra.download, 200);
    assert_eq!(extra.total, 900);
    assert_eq!(extra.expire, 0);
}

#[test]
fn quota_missing_keys_default_to_zero() {
    let extra = PrfExtra::parse("upload=7");
    assert_eq!(extra.upload, 7);
    assert_eq!(extra.download, 0);
    assert_eq!(extra.total, 0);
    assert_eq!(extra.expire, 0);
}

#[test]
fn quota_absent_header_is_no_quota_not_zeroes() {
    let item = PrfItem::from_response(
        "https://x.example/api/sub",
        200,
        None,
        None,
        None,
        Some("body".to_string()),
    )
    .unwrap();
    assert!(item.extra.is_none());
}

#[test]
fn quota_present_header_is_some() {
    let item = PrfItem::from_response(
        "https://x.example/api/sub",
        200,
        Some("upload=100;download=200;total=900;expire=0"),
        None,
        None,
        Some("body".to_string()),
    )
    .unwrap();
    let extra = item.extra.unwrap();
    assert_eq!(extra.upload, 100);
    assert_eq!(extra.download, 200);
    assert_eq!(extra.total, 900);
    assert_eq!(extra.expire, 0);
}

#[test]
fn parse_str_finds_first_readable_value() {
    assert_eq!(parse_str("upload=abc;upload=5", "upload"), Some(5));
    assert_eq!(parse_str("upload=+7", "upload"), Some(7));
    assert_eq!(parse_str(" upload = 3 ", "upload"), None);
    assert_eq!(parse_str("upload=3", "download"), None);
}

#[test]
fn parse_str_rejects_numbers_that_do_not_fit() {
    assert_eq!(parse_str("upload=99999999999999999999999", "upload"), None);
    assert_eq!(parse_str("upload=18446744073709551615", "upload"), Some(u64::MAX));
    assert_eq!(parse_str("upload=18446744073709551616", "upload"), None);
}

#[test]
fn filename_star_wins_and_is_percent_decoded() {
    let cd = "attachment; filename*=UTF-8''profile%20a.yaml; filename=\"fallback.yaml\"";
    let name = derive_filename(Some(cd), "https://x.example/whatever");
    assert_eq!(name, "profile a.yaml");
}

#[test]
fn filename_plain_parameter_is_quote_stripped() {
    let cd = "attachment; filename=\"abc.yaml\"";
    let name = derive_filename(Some(cd), "https://x.example/whatever");
    assert_eq!(name, "abc.yaml");
}

#[test]
fn filename_falls_back_to_url_segment() {
    let name = derive_filename(None, "https://x.example/api/sub?token=abc");
    assert_eq!(name, "sub");
}

#[test]
fn filename_header_without_parameters_falls_back_to_url() {
    let name = derive_filename(Some("attachment"), "https://x.example/api/sub?token=abc");
    assert_eq!(name, "sub");
}

#[test]
fn filename_stand_in_when_url_ends_in_separator() {
    let name = derive_filename(None, "https://x.example/api/");
    assert_eq!(name, "Remote File");
}

#[test]
fn filename_multibyte_escape_decodes() {
    let cd = "attachment; filename*=UTF-8''caf%C3%A9.yaml";
    let name = derive_filename(Some(cd), "https://x.example/whatever");
    assert_eq!(name, "caf\u{e9}.yaml");
}

#[test]
fn filename_invalid_escape_sequence_becomes_empty() {
    let cd = "attachment; filename*=UTF-8''%FF";
    let name = derive_filename(Some(cd), "https://x.example/whatever");
    assert_eq!(name, "");
}

#[test]
fn url_last_part_is_percent_decoded() {
    assert_eq!(
        get_last_part_and_decode("https://x.example/dir/a%20b?q=1"),
        Some("a b".to_string())
    );
    assert_eq!(get_last_part_and_decode("https://x.example/dir/"), None);
}

#[test]
fn from_url_success_fills_every_field() {
    let url = "https://x.example/api/sub?token=abc";
    let item = PrfItem::from_response(
        url,
        200,
        Some("upload=1;download=2;total=3;expire=4"),
        None,
        Some("https://panel.example"),
        Some("proxies: []".to_string()),
    )
    .unwrap();
    assert_eq!(item.uid.as_ref().unwrap().len(), 36);
    assert_eq!(item.itype.as_deref(), Some("remote"));
    assert_eq!(item.name.as_deref(), Some("sub"));
    assert_eq!(item.file.as_deref(), Some("sub"));
    assert_eq!(item.desc, None);
    assert_eq!(item.url.as_deref(), Some(url));
    assert_eq!(item.selected, Some(false));
    assert_eq!(item.updated, None);
    assert_eq!(item.home.as_deref(), Some("https://panel.example"));
    assert_eq!(item.file_data.as_deref(), Some("proxies: []"));
}

#[test]
fn from_url_non_success_status_is_an_error() {
    let r = PrfItem::from_response(
        "https://x.example/api/sub",
        404,
        None,
        None,
        None,
        Some("body".to_string()),
    );
    assert!(matches!(r, Err(IngestionError::HttpStatus(404))));
}

#[test]
fn from_url_unreadable_body_is_an_error() {
    let r = PrfItem::from_response("https://x.example/api/sub", 200, None, None, None, None);
    assert!(matches!(r, Err(IngestionError::DecodeError)));
}

#[test]
fn missing_filename_is_rejected_before_any_write() {
    let item = PrfItem {
        file: None,
        file_data: Some("data".to_string()),
        ..PrfItem::default()
    };
    match after_fetch(Ok(item)) {
        FetchFollowUp::Persist(_) => panic!("a profile without a filename must not be persisted"),
        FetchFollowUp::Report(a) => assert!(matches!(a, Action::Error(_))),
    }
}

#[test]
fn missing_body_is_rejected_before_any_write() {
    let item = PrfItem {
        file: Some("name".to_string()),
        file_data: None,
        ..PrfItem::default()
    };
    match after_fetch(Ok(item)) {
        FetchFollowUp::Persist(_) => panic!("a profile without a body must not be persisted"),
        FetchFollowUp::Report(a) => assert!(matches!(a, Action::Error(_))),
    }
}

#[test]
fn complete_profile_is_persisted() {
    let item = PrfItem {
        file: Some("name".to_string()),
        file_data: Some("data".to_string()),
        ..PrfItem::default()
    };
    match after_fetch(Ok(item)) {
        FetchFollowUp::Persist(p) => {
            assert_eq!(p.file.as_deref(), Some("name"));
            assert_eq!(p.file_data.as_deref(), Some("data"));
        },
        FetchFollowUp::Report(_) => panic!("a complete profile must be persisted"),
    }
}

#[test]
fn failed_fetch_becomes_an_error_report() {
    let r: Result<PrfItem, IngestionError> = Err(IngestionError::Network("no route".to_string()));
    match after_fetch(r) {
        FetchFollowUp::Report(Action::Error(m)) => {
            assert_eq!(m, "network error: no route");
        },
        _ => panic!("a failed fetch must become an error report"),
    }
}

#[test]
fn storage_outcomes_are_wrapped() {
    assert!(persist_outcome(Ok(1)).is_none());
    match persist_outcome(Err("disk full".to_string())) {
        Some(Action::Error(m)) => assert_eq!(m, "storage error: disk full"),
        _ => panic!("a failed persist must become an error report"),
    }
    match query_done(Err("locked".to_string())) {
        Action::Error(m) => assert_eq!(m, "storage error: locked"),
        _ => panic!("a failed read must become an error report"),
    }
    match query_done(Ok(vec![PrfItem::default()])) {
        Action::UpdatePrfList(items) => assert_eq!(items.len(), 1),
        _ => panic!("a successful read must become a list update"),
    }
}

#[test]
fn file_target_appends_the_extension() {
    assert_eq!(file_target("sub"), "sub.yaml");
}

#[test]
fn cloned_profile_keeps_every_field() {
    let item = PrfItem {
        uid: Some("id".to_string()),
        itype: Some("remote".to_string()),
        name: Some("n".to_string()),
        file: Some("f".to_string()),
        desc: None,
        url: Some("u".to_string()),
        selected: Some(true),
        extra: Some(PrfExtra { upload: 1, download: 2, total: 3, expire: 4 }),
        updated: Some(9),
        home: None,
        file_data: Some("d".to_string()),
    };
    let copy = item.clone();
    assert_eq!(copy.uid, item.uid);
    assert_eq!(copy.name, item.name);
    assert_eq!(copy.file, item.file);
    assert_eq!(copy.selected, item.selected);
    assert_eq!(copy.extra.unwrap().total, 3);
    assert_eq!(copy.updated, Some(9));
    assert_eq!(copy.file_data, item.file_data);
}

#[test]
fn error_messages_name_the_failure() {
    assert_eq!(
        IngestionError::HttpStatus(502).message(),
        "failed to fetch remote profile with status 502"
    );
    assert_eq!(
        IngestionError::HttpStatus(0).message(),
        "failed to fetch remote profile with status 0"
    );
    assert_eq!(IngestionError::DecodeError.message(), "failed to decode the response body");
    assert_eq!(
        IngestionError::Network("x".to_string()).message(),
        "network error: x"
    );
}
