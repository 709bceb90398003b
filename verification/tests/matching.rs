use cert_storage::error::CertificateRequestError;
use cert_storage::matching::CertificateDetail;
use cert_storage::matching::CertificatePage;
use cert_storage::matching::CertificateSummary;
use cert_storage::matching::Described;
use cert_storage::matching::MatchScan;
use cert_storage::matching::ScanStep;
use cert_storage::names::have_same_names;
use cert_storage::names::occurrences;

fn names(items: &[&str]) -> Vec<String> {
    items.iter().map(|s| s.to_string()).collect()
}

fn summary(arn: &str, domain: Option<&str>) -> CertificateSummary {
    CertificateSummary {
        certificate_arn: Some(arn.to_string()),
        domain_name: domain.map(|d| d.to_string()),
    }
}

fn page(summaries: Vec<CertificateSummary>, next_token: Option<&str>) -> CertificatePage {
    CertificatePage { summaries, next_token: next_token.map(|t| t.to_string()) }
}

fn detail(arn: &str, origin: Option<&str>, alt_names: Option<&[&str]>) -> Described {
    Described::Found(CertificateDetail {
        certificate_arn: Some(arn.to_string()),
        origin: origin.map(|o| o.to_string()),
        subject_alternative_names: alt_names.map(names),
    })
}

fn scan(domains: &[&str]) -> MatchScan {
    MatchScan::start(&names(domains)).unwrap().0
}

#[test]
fn scan_begins_with_issued_and_expired_certificates() {
    let (_, list) = MatchScan::start(&names(&["example.com"])).unwrap();
    assert_eq!(list.statuses, names(&["ISSUED", "EXPIRED"]));
    assert_eq!(list.next_token, None);
}

#[test]
fn scan_for_no_domain_is_refused() {
    assert!(matches!(
        MatchScan::start(&Vec::new()),
        Err(CertificateRequestError::Internal(_))
    ));
}

#[test]
fn candidates_are_listed_under_the_first_domain() {
    let mut scan = scan(&["example.com", "www.example.com"]);
    let step = scan.page(Ok(page(
        vec![
            summary("arn1", Some("example.com")),
            summary("arn2", Some("www.example.com")),
            summary("arn3", None),
            summary("arn4", Some("example.com")),
            summary("arn5", Some("Example.com")),
        ],
        None,
    )));
    assert_eq!(step, ScanStep::Describe(names(&["arn1", "arn4"])));
}

#[test]
fn listing_goes_on_while_pages_name_a_successor() {
    let mut scan = scan(&["example.com"]);
    let first = scan.page(Ok(page(vec![summary("arn1", Some("example.com"))], Some("t1"))));
    match first {
        ScanStep::List(list) => {
            assert_eq!(list.statuses, names(&["ISSUED", "EXPIRED"]));
            assert_eq!(list.next_token, Some("t1".to_string()));
        }
        other => panic!("unexpected step {:?}", other),
    }
    let second = scan.page(Ok(page(vec![summary("arn2", Some("other.com"))], Some("t2"))));
    assert!(matches!(second, ScanStep::List(_)));
    let third = scan.page(Ok(page(vec![summary("arn3", Some("example.com"))], None)));
    assert_eq!(third, ScanStep::Describe(names(&["arn1", "arn3"])));
}

#[test]
fn empty_listing_has_no_candidates() {
    let mut scan = scan(&["example.com"]);
    assert_eq!(scan.page(Ok(page(Vec::new(), None))), ScanStep::Describe(Vec::new()));
}

#[test]
fn unreadable_page_ends_the_listing_with_what_was_found() {
    let mut scan = scan(&["example.com"]);
    let _ = scan.page(Ok(page(vec![summary("arn1", Some("example.com"))], Some("t1"))));
    let step = scan.page(Err("throttled".to_string()));
    assert_eq!(step, ScanStep::Describe(names(&["arn1"])));
}

#[test]
fn imported_certificate_with_the_same_names_matches() {
    let scan = scan(&["example.com", "www.example.com"]);
    let described = vec![detail(
        "arn1",
        Some("IMPORTED"),
        Some(&["www.example.com", "example.com"]),
    )];
    assert_eq!(scan.matching_certificates(&described), names(&["arn1"]));
}

#[test]
fn issued_certificate_never_matches() {
    let scan = scan(&["example.com"]);
    let described = vec![
        detail("arn1", Some("AMAZON_ISSUED"), Some(&["example.com"])),
        detail("arn2", None, Some(&["example.com"])),
        detail("arn3", Some("imported"), Some(&["example.com"])),
    ];
    assert_eq!(scan.matching_certificates(&described), Vec::<String>::new());
}

#[test]
fn subset_and_superset_of_names_do_not_match() {
    let scan = scan(&["example.com", "www.example.com"]);
    let described = vec![
        detail("arn1", Some("IMPORTED"), Some(&["example.com"])),
        detail("arn2", Some("IMPORTED"), Some(&["example.com", "www.example.com", "a.example.com"])),
        detail("arn3", Some("IMPORTED"), Some(&["example.com", "example.com"])),
        detail("arn4", Some("IMPORTED"), Some(&[])),
        detail("arn5", Some("IMPORTED"), None),
    ];
    assert_eq!(scan.matching_certificates(&described), Vec::<String>::new());
}

#[test]
fn failed_and_empty_descriptions_are_no_match() {
    let scan = scan(&["example.com"]);
    let described = vec![
        Described::Failed("timed out".to_string()),
        detail("arn2", Some("IMPORTED"), Some(&["example.com"])),
        Described::Absent,
        detail("arn1", Some("IMPORTED"), Some(&["example.com"])),
    ];
    assert_eq!(scan.matching_certificates(&described), names(&["arn2", "arn1"]));
}

#[test]
fn no_description_is_no_match() {
    let scan = scan(&["example.com"]);
    assert_eq!(scan.matching_certificates(&Vec::new()), Vec::<String>::new());
}

#[test]
fn names_are_compared_without_regard_to_order() {
    assert!(have_same_names(&names(&["a", "b", "c"]), &names(&["c", "a", "b"])));
    assert!(have_same_names(&names(&[]), &names(&[])));
    assert!(have_same_names(&names(&["a", "a", "b"]), &names(&["a", "b", "a"])));
    assert!(!have_same_names(&names(&["a", "a", "b"]), &names(&["a", "b", "b"])));
    assert!(!have_same_names(&names(&["a"]), &names(&["a", "a"])));
    assert!(!have_same_names(&names(&["a", "b"]), &names(&["a"])));
    assert!(!have_same_names(&names(&["a"]), &names(&["A"])));
    assert!(!have_same_names(&names(&[]), &names(&["a"])));
}

#[test]
fn occurrences_are_counted() {
    let list = names(&["a", "b", "a", "c", "a"]);
    assert_eq!(occurrences(&list, &"a".to_string()), 3);
    assert_eq!(occurrences(&list, &"b".to_string()), 1);
    assert_eq!(occurrences(&list, &"d".to_string()), 0);
    assert_eq!(occurrences(&Vec::new(), &"a".to_string()), 0);
}

fn unidentified_summary(domain: Option<&str>) -> CertificateSummary {
    CertificateSummary { certificate_arn: None, domain_name: domain.map(|d| d.to_string()) }
}

fn unidentified_detail(origin: Option<&str>, alt_names: Option<&[&str]>) -> Described {
    Described::Found(CertificateDetail {
        certificate_arn: None,
        origin: origin.map(|o| o.to_string()),
        subject_alternative_names: alt_names.map(names),
    })
}

#[test]
fn page_with_an_unidentified_candidate_cannot_be_read() {
    let scan = scan(&["example.com"]);
    let listed = page(
        vec![summary("arn1", Some("example.com")), unidentified_summary(Some("example.com"))],
        None,
    );
    assert!(!scan.identifies_candidates(&listed));
}

#[test]
fn unidentified_certificate_under_another_name_is_passed_over() {
    let mut scan = scan(&["example.com"]);
    let listed = page(
        vec![
            unidentified_summary(Some("other.com")),
            unidentified_summary(None),
            summary("arn1", Some("example.com")),
        ],
        None,
    );
    assert!(scan.identifies_candidates(&listed));
    assert_eq!(scan.page(Ok(listed)), ScanStep::Describe(names(&["arn1"])));
}

#[test]
fn empty_page_can_be_read() {
    let scan = scan(&["example.com"]);
    assert!(scan.identifies_candidates(&page(Vec::new(), None)));
}

#[test]
fn unidentified_match_cannot_be_read() {
    let scan = scan(&["example.com"]);
    let described = vec![
        detail("arn1", Some("IMPORTED"), Some(&["example.com"])),
        unidentified_detail(Some("IMPORTED"), Some(&["example.com"])),
    ];
    assert!(!scan.identifies_matches(&described));
}

#[test]
fn unidentified_certificate_that_does_not_match_is_passed_over() {
    let scan = scan(&["example.com"]);
    let described = vec![
        unidentified_detail(Some("AMAZON_ISSUED"), Some(&["example.com"])),
        unidentified_detail(Some("IMPORTED"), Some(&["other.com"])),
        unidentified_detail(Some("IMPORTED"), None),
        Described::Absent,
        Described::Failed("timed out".to_string()),
        detail("arn1", Some("IMPORTED"), Some(&["example.com"])),
    ];
    assert!(scan.identifies_matches(&described));
    assert_eq!(scan.matching_certificates(&described), names(&["arn1"]));
}
