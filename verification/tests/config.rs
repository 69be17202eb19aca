use easi_publish::{build_pdf_options, Clock, HtmlConfig, PdfConfig, PdfStandard, PublishError};

#[test]
fn html_config_builder() {
    let config = HtmlConfig::new();
    assert!(!config.is_pretty());
    assert_eq!(config.clock_setting(), Clock::SystemLocal);
    let fixed = Clock::Fixed { year: 2020, month: 1, day: 2 };
    let config = config.pretty(true).clock(fixed);
    assert!(config.is_pretty());
    assert_eq!(config.clock_setting(), fixed);
    assert_eq!(HtmlConfig::default(), HtmlConfig::new());
}

#[test]
fn pdf_config_defaults() {
    let config = PdfConfig::default();
    assert_eq!(config.clock_setting(), Clock::SystemLocal);
    assert!(config.standards_list().is_empty());
    assert!(build_pdf_options(&config).is_ok());
}

#[test]
fn pdf_config_builder_yields_valid_options() {
    let config = PdfConfig::new()
        .ident("test-doc".to_owned())
        .creator("Test".to_owned())
        .tagged(false)
        .pretty(true)
        .clock(Clock::Utc)
        .timestamp_now_utc();
    assert_eq!(config.clock_setting(), Clock::Utc);
    assert!(build_pdf_options(&config).is_ok());
}

#[test]
fn archival_accessible_is_ua1_plus_a2a() {
    let config = PdfConfig::new().archival_accessible();
    assert_eq!(config.standards_list(), &vec![PdfStandard::Ua_1, PdfStandard::A_2a]);
    assert!(build_pdf_options(&config).is_ok());
}

#[test]
fn conflicting_versions_are_rejected() {
    let config = PdfConfig::new().standards(&[PdfStandard::V_1_4, PdfStandard::V_1_7]);
    match build_pdf_options(&config).err().unwrap() {
        PublishError::InvalidStandards(msg) => {
            assert_eq!(msg, "PDF cannot conform to PDF 1.4 and PDF 1.7 at the same time")
        }
        other => panic!("got {other:?}"),
    }
}

#[test]
fn two_archival_standards_are_rejected() {
    let config = PdfConfig::new().standards(&[PdfStandard::A_1b, PdfStandard::A_2b]);
    match build_pdf_options(&config).err().unwrap() {
        PublishError::InvalidStandards(msg) => assert_eq!(msg, "choose at most one PDF/A standard"),
        other => panic!("got {other:?}"),
    }
}

#[test]
fn incompatible_version_carries_hints() {
    let config = PdfConfig::new().standards(&[PdfStandard::V_2_0, PdfStandard::A_2b]);
    match build_pdf_options(&config).err().unwrap() {
        PublishError::InvalidStandards(msg) => assert!(msg.contains("\n  hint: "), "got {msg}"),
        other => panic!("got {other:?}"),
    }
}

#[test]
fn page_ranges_and_timestamp_are_accepted() {
    let ranges = typst::layout::PageRanges::new(vec![std::num::NonZeroUsize::new(1)..=std::num::NonZeroUsize::new(2)]);
    let ts = typst_pdf::Timestamp::new_utc(typst::foundations::Datetime::from_ymd(2024, 2, 29).unwrap());
    let config = PdfConfig::new().page_ranges(ranges).timestamp(ts);
    assert!(build_pdf_options(&config).is_ok());
}

#[test]
fn utc_timestamp_needs_a_real_date_and_time() {
    let stamped = |c: PdfConfig| build_pdf_options(&c).unwrap().timestamp.is_some();
    assert!(stamped(PdfConfig::new().timestamp_utc_at(2024, 2, 29, 23, 59, 59)));
    assert!(!stamped(PdfConfig::new().timestamp_utc_at(2023, 2, 29, 12, 0, 0)));
    assert!(!stamped(PdfConfig::new().timestamp_utc_at(2024, 13, 1, 12, 0, 0)));
    assert!(!stamped(PdfConfig::new().timestamp_utc_at(2024, 1, 1, 24, 0, 0)));
    assert!(!stamped(PdfConfig::new().timestamp_utc_at(10_000, 1, 1, 0, 0, 0)));
    // A month too wide for typst's field counts as January.
    assert!(stamped(PdfConfig::new().timestamp_utc_at(2024, 256, 31, 0, 0, 0)));
    assert!(stamped(PdfConfig::new().timestamp_now_utc()));
}

#[test]
fn pdf_options_carry_the_config() {
    let ranges = typst::layout::PageRanges::new(vec![std::num::NonZeroUsize::new(2)..=None]);
    let config = PdfConfig::new()
        .ident("doc-7".to_owned())
        .creator("Acme".to_owned())
        .tagged(false)
        .pretty(true)
        .page_ranges(ranges.clone())
        .archival_accessible();
    let o = build_pdf_options(&config).unwrap();
    assert_eq!(o.ident.as_deref(), Some("doc-7"));
    assert_eq!(o.creator.as_deref(), Some("Acme"));
    assert!(!o.tagged);
    assert!(o.pretty);
    assert_eq!(format!("{:?}", o.page_ranges), format!("{:?}", Some(ranges)));
    assert!(o.timestamp.is_none());
    let d = build_pdf_options(&PdfConfig::new()).unwrap();
    assert!(d.ident.is_none() && d.creator.is_none() && d.tagged && !d.pretty && d.page_ranges.is_none());
}
