use cert_storage::error::CertificateRequestError;
use cert_storage::result::CertificateStorageResult;
use cert_storage::result::SsmParameterStorageResult;
use cert_storage::ssm::ParameterInfo;
use cert_storage::ssm::ParameterWrite;
use cert_storage::ssm::SsmParameterStorage;

fn storage() -> SsmParameterStorage {
    SsmParameterStorage { path: "/certs".to_string() }
}

fn writes() -> Vec<ParameterWrite> {
    storage()
        .save_certificate(
            &vec!["example.com".to_string(), "www.example.com".to_string()],
            "CERT".to_string(),
            "CHAIN".to_string(),
            "FULL".to_string(),
            "KEY".to_string(),
        )
        .unwrap()
}

fn written(name: &str, arn: &str) -> Result<(String, String), CertificateRequestError> {
    Ok((name.to_string(), arn.to_string()))
}

#[test]
fn save_writes_four_parameters_under_the_first_domain() {
    let writes = writes();
    let names: Vec<&str> = writes.iter().map(|w| w.name.as_str()).collect();
    assert_eq!(
        names,
        vec![
            "/certs/Certificate/example.com/Certificate",
            "/certs/Certificate/example.com/Chain",
            "/certs/Certificate/example.com/FullChain",
            "/certs/Certificate/example.com/PrivateKey",
        ]
    );
}

#[test]
fn save_describes_each_parameter() {
    let writes = writes();
    let descriptions: Vec<&str> = writes.iter().map(|w| w.description.as_str()).collect();
    assert_eq!(
        descriptions,
        vec![
            "SSL Certificate for example.com",
            "SSL Chain for example.com",
            "SSL FullChain for example.com",
            "SSL PrivateKey for example.com",
        ]
    );
}

#[test]
fn save_encrypts_only_the_private_key() {
    let writes = writes();
    let types: Vec<&str> = writes.iter().map(|w| w.parameter_type.as_str()).collect();
    assert_eq!(types, vec!["String", "String", "String", "SecureString"]);
    assert!(writes.iter().all(|w| w.overwrite));
}

#[test]
fn save_writes_each_part_as_its_value() {
    let writes = writes();
    let values: Vec<&str> = writes.iter().map(|w| w.value.as_str()).collect();
    assert_eq!(values, vec!["CERT", "CHAIN", "FULL", "KEY"]);
}

#[test]
fn save_for_no_domain_is_refused() {
    let refused = storage().save_certificate(
        &Vec::new(),
        "CERT".to_string(),
        "CHAIN".to_string(),
        "FULL".to_string(),
        "KEY".to_string(),
    );
    assert!(matches!(refused, Err(CertificateRequestError::Internal(_))));
}

#[test]
fn successful_write_is_read_back_under_its_name() {
    let write = &writes()[0];
    assert_eq!(write.after_put(Ok(())), Ok(write.name.clone()));
}

#[test]
fn failed_write_is_the_services_failure() {
    let write = &writes()[0];
    assert_eq!(
        write.after_put(Err("AccessDenied".to_string())),
        Err(CertificateRequestError::ServiceFailure("AccessDenied".to_string()))
    );
}

#[test]
fn read_back_gives_name_and_identifier() {
    let write = &writes()[3];
    let info = ParameterInfo { arn: Some("arn:aws:ssm:us-east-1:123456789012:parameter/x".to_string()) };
    assert_eq!(
        write.after_get(Ok(Some(info))),
        Ok((
            "/certs/Certificate/example.com/PrivateKey".to_string(),
            "arn:aws:ssm:us-east-1:123456789012:parameter/x".to_string()
        ))
    );
}

#[test]
fn read_back_without_parameter_is_unexpected() {
    let write = &writes()[1];
    assert_eq!(
        write.after_get(Ok(None)),
        Err(CertificateRequestError::UnexpectedAwsResponse(
            "Unable to get ARN for parameter /certs/Certificate/example.com/Chain: no parameter returned"
                .to_string()
        ))
    );
}

#[test]
fn read_back_without_identifier_is_unexpected() {
    let write = &writes()[1];
    assert_eq!(
        write.after_get(Ok(Some(ParameterInfo { arn: None }))),
        Err(CertificateRequestError::UnexpectedAwsResponse(
            "Unable to get ARN for parameter /certs/Certificate/example.com/Chain: no ARN returned"
                .to_string()
        ))
    );
}

#[test]
fn failed_read_back_is_the_services_failure() {
    let write = &writes()[2];
    let failed = write.after_get(Err("timed out".to_string()));
    assert_eq!(failed, Err(CertificateRequestError::ServiceFailure("timed out".to_string())));
    assert!(!matches!(failed, Err(CertificateRequestError::UnexpectedAwsResponse(_))));
}

#[test]
fn four_successes_make_one_record() {
    let saved = SsmParameterStorage::save_result(
        written("n1", "a1"),
        written("n2", "a2"),
        written("n3", "a3"),
        written("n4", "a4"),
    );
    assert_eq!(
        saved,
        Ok(vec![CertificateStorageResult::SsmParameter(SsmParameterStorageResult {
            cert_param: "n1".to_string(),
            chain_param: "n2".to_string(),
            fullchain_param: "n3".to_string(),
            pkey_param: "n4".to_string(),
            cert_arn: "a1".to_string(),
            chain_arn: "a2".to_string(),
            fullchain_arn: "a3".to_string(),
            pkey_arn: "a4".to_string(),
        })])
    );
}

#[test]
fn any_failure_fails_the_save() {
    let failure = CertificateRequestError::ServiceFailure("boom".to_string());
    for failing in 0..4 {
        let part = |i: usize| {
            if i == failing {
                Err(failure.clone())
            } else {
                written("n", "a")
            }
        };
        let saved = SsmParameterStorage::save_result(part(0), part(1), part(2), part(3));
        assert_eq!(saved, Err(failure.clone()));
    }
}

#[test]
fn first_failure_in_order_is_reported() {
    let saved = SsmParameterStorage::save_result(
        written("n1", "a1"),
        Err(CertificateRequestError::ServiceFailure("chain".to_string())),
        written("n3", "a3"),
        Err(CertificateRequestError::UnexpectedAwsResponse("key".to_string())),
    );
    assert_eq!(saved, Err(CertificateRequestError::ServiceFailure("chain".to_string())));
}
