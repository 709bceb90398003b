use cert_storage::acm::AcmImportTask;
use cert_storage::acm::AcmStep;
use cert_storage::acm::AcmStorage;
use cert_storage::acm::ImportRequest;
use cert_storage::acm::ReimportOutcome;
use cert_storage::error::CertificateRequestError;
use cert_storage::result::AcmStorageResult;
use cert_storage::result::CertificateStorageResult;

const EAST: &str = "arn:aws:acm:us-east-1:123456789012:certificate/abc";
const WEST: &str = "arn:aws:acm:eu-west-1:123456789012:certificate/def";
const TOKYO: &str = "arn:aws:acm:ap-northeast-1:123456789012:certificate/ghi";

fn strings(items: &[&str]) -> Vec<String> {
    items.iter().map(|s| s.to_string()).collect()
}

fn request(target: Option<&str>) -> ImportRequest {
    ImportRequest {
        certificate: "CERT".to_string(),
        certificate_arn: target.map(|a| a.to_string()),
        certificate_chain: Some("CHAIN".to_string()),
        private_key: "KEY".to_string(),
    }
}

fn save(storage: &AcmStorage, domains: &[&str]) -> Result<AcmStep, CertificateRequestError> {
    storage.save_certificate(
        &strings(domains),
        "CERT".to_string(),
        "CHAIN".to_string(),
        "FULL".to_string(),
        "KEY".to_string(),
    )
}

fn acm(arn: &str) -> CertificateStorageResult {
    CertificateStorageResult::Acm(AcmStorageResult { certificate_arn: arn.to_string() })
}

#[test]
fn force_new_imports_a_new_certificate() {
    let storage = AcmStorage { certificate_arns: None, force_new_import: true };
    assert_eq!(save(&storage, &["example.com"]), Ok(AcmStep::Import(request(None))));
}

#[test]
fn named_certificates_are_imported_over() {
    let storage = AcmStorage { certificate_arns: Some(strings(&[EAST])), force_new_import: false };
    let step = save(&storage, &["example.com"]);
    assert_eq!(
        step,
        Ok(AcmStep::Reimport(vec![AcmImportTask {
            region: "us-east-1".to_string(),
            req: request(Some(EAST)),
        }]))
    );
}

#[test]
fn each_import_goes_to_the_region_of_its_certificate() {
    let tasks = AcmStorage::reimport_certificate(
        &strings(&[EAST, WEST, TOKYO, EAST]),
        "CERT".to_string(),
        "CHAIN".to_string(),
        "KEY".to_string(),
    )
    .unwrap();
    let regions: Vec<&str> = tasks.iter().map(|t| t.region.as_str()).collect();
    assert_eq!(regions, vec!["us-east-1", "eu-west-1", "ap-northeast-1", "us-east-1"]);
    let targets: Vec<Option<&str>> =
        tasks.iter().map(|t| t.req.certificate_arn.as_deref()).collect();
    assert_eq!(targets, vec![Some(EAST), Some(WEST), Some(TOKYO), Some(EAST)]);
    for task in &tasks {
        assert_eq!(task.req.certificate, "CERT");
        assert_eq!(task.req.certificate_chain.as_deref(), Some("CHAIN"));
        assert_eq!(task.req.private_key, "KEY");
    }
}

#[test]
fn import_over_nothing_is_refused() {
    let tasks = AcmStorage::reimport_certificate(
        &Vec::new(),
        "CERT".to_string(),
        "CHAIN".to_string(),
        "KEY".to_string(),
    );
    assert_eq!(
        tasks,
        Err(CertificateRequestError::Internal("no certificate to import over".to_string()))
    );
}

#[test]
fn empty_list_of_certificates_names_none() {
    let storage = AcmStorage { certificate_arns: Some(Vec::new()), force_new_import: false };
    assert_eq!(storage.validate(), Ok(()));
    match save(&storage, &["example.com"]) {
        Ok(AcmStep::Match(_, list)) => {
            assert_eq!(list.statuses, strings(&["ISSUED", "EXPIRED"]));
            assert_eq!(list.next_token, None);
        }
        other => panic!("unexpected step {:?}", other),
    }
    assert!(matches!(save(&storage, &[]), Err(CertificateRequestError::Internal(_))));
}

#[test]
fn every_step_that_writes_names_a_target() {
    let named = AcmStorage { certificate_arns: Some(strings(&[EAST, WEST])), force_new_import: false };
    let forced = AcmStorage { certificate_arns: None, force_new_import: true };
    let empty = AcmStorage { certificate_arns: Some(Vec::new()), force_new_import: false };
    let plain = AcmStorage { certificate_arns: None, force_new_import: false };
    for storage in [named, forced, empty, plain] {
        match save(&storage, &["example.com"]) {
            Ok(AcmStep::Reimport(tasks)) => assert_eq!(tasks.len(), 2),
            Ok(AcmStep::Import(req)) => assert_eq!(req.certificate_arn, None),
            Ok(AcmStep::Match(_, _)) => assert!(!storage.force_new_import),
            Err(e) => panic!("unexpected failure {:?}", e),
        }
    }
}

#[test]
fn identifier_without_region_is_reported() {
    let tasks = AcmStorage::reimport_certificate(
        &strings(&[EAST, "arn:aws:acm"]),
        "CERT".to_string(),
        "CHAIN".to_string(),
        "KEY".to_string(),
    );
    assert_eq!(
        tasks,
        Err(CertificateRequestError::Internal(
            "no region in certificate identifier arn:aws:acm".to_string()
        ))
    );
}

#[test]
fn task_is_made_for_the_region_named() {
    let task = AcmImportTask::new(
        "arn:aws:acm:eu-west-1:123456789012:certificate/b".to_string(),
        request(Some(WEST)),
    );
    assert_eq!(task, AcmImportTask { region: "eu-west-1".to_string(), req: request(Some(WEST)) });
}

#[test]
fn task_takes_the_region_from_the_fourth_field_alone() {
    let task = AcmImportTask::new("a:b:c:AP-SOUTH-1".to_string(), request(None));
    assert_eq!(task, AcmImportTask { region: "ap-south-1".to_string(), req: request(None) });
}

#[test]
fn identifier_with_unknown_region_is_reported() {
    let tasks = AcmStorage::reimport_certificate(
        &strings(&["arn:aws:acm:mars-north-9:123456789012:certificate/abc", EAST]),
        "CERT".to_string(),
        "CHAIN".to_string(),
        "KEY".to_string(),
    );
    assert_eq!(
        tasks,
        Err(CertificateRequestError::Internal(
            "no region in certificate identifier arn:aws:acm:mars-north-9:123456789012:certificate/abc"
                .to_string()
        ))
    );
}

#[test]
fn without_names_the_certificates_are_looked_for() {
    let storage = AcmStorage { certificate_arns: None, force_new_import: false };
    match save(&storage, &["example.com", "www.example.com"]) {
        Ok(AcmStep::Match(_, list)) => {
            assert_eq!(list.statuses, strings(&["ISSUED", "EXPIRED"]));
            assert_eq!(list.next_token, None);
        }
        other => panic!("unexpected step {:?}", other),
    }
}

#[test]
fn search_for_no_domain_is_refused() {
    let storage = AcmStorage { certificate_arns: None, force_new_import: false };
    assert!(matches!(save(&storage, &[]), Err(CertificateRequestError::Internal(_))));
}

#[test]
fn no_match_imports_a_new_certificate() {
    let step = AcmStorage::save_matched(
        &Vec::new(),
        "CERT".to_string(),
        "CHAIN".to_string(),
        "KEY".to_string(),
    );
    assert_eq!(step, Ok(AcmStep::Import(request(None))));
    let results = AcmStorage::import_result(Ok(EAST.to_string()));
    assert_eq!(results, vec![acm(EAST)]);
}

#[test]
fn matches_are_imported_over() {
    let step = AcmStorage::save_matched(
        &strings(&[WEST, EAST]),
        "CERT".to_string(),
        "CHAIN".to_string(),
        "KEY".to_string(),
    );
    assert_eq!(
        step,
        Ok(AcmStep::Reimport(vec![
            AcmImportTask { region: "eu-west-1".to_string(), req: request(Some(WEST)) },
            AcmImportTask { region: "us-east-1".to_string(), req: request(Some(EAST)) },
        ]))
    );
}

#[test]
fn new_request_names_no_certificate() {
    let req = AcmStorage::import_new_certificate(
        "CERT".to_string(),
        "CHAIN".to_string(),
        "KEY".to_string(),
    );
    assert_eq!(req, request(None));
}

#[test]
fn failed_import_is_one_error_record() {
    let results = AcmStorage::import_result(Err("LimitExceeded".to_string()));
    assert_eq!(
        results,
        vec![CertificateStorageResult::Error(
            "Failed to import certificate: LimitExceeded".to_string()
        )]
    );
}

#[test]
fn every_outcome_becomes_one_record() {
    let outcomes = vec![
        ReimportOutcome { certificate_arn: TOKYO.to_string(), response: Ok(TOKYO.to_string()) },
        ReimportOutcome { certificate_arn: EAST.to_string(), response: Err("denied".to_string()) },
        ReimportOutcome { certificate_arn: WEST.to_string(), response: Ok(WEST.to_string()) },
    ];
    let results = AcmStorage::reimport_results(&outcomes);
    assert_eq!(
        results,
        vec![
            acm(TOKYO),
            CertificateStorageResult::Error(format!(
                "Failed to reimport certificate {}: denied",
                EAST
            )),
            acm(WEST),
        ]
    );
}

#[test]
fn failures_name_their_own_certificate_in_any_order() {
    let outcomes = vec![
        ReimportOutcome { certificate_arn: WEST.to_string(), response: Err("b".to_string()) },
        ReimportOutcome { certificate_arn: EAST.to_string(), response: Err("a".to_string()) },
    ];
    let results = AcmStorage::reimport_results(&outcomes);
    assert_eq!(results.len(), 2);
    assert_eq!(
        results[0],
        CertificateStorageResult::Error(format!("Failed to reimport certificate {}: b", WEST))
    );
    assert_eq!(
        results[1],
        CertificateStorageResult::Error(format!("Failed to reimport certificate {}: a", EAST))
    );
}

#[test]
fn no_outcome_is_no_record() {
    assert_eq!(AcmStorage::reimport_results(&Vec::new()), Vec::new());
}
