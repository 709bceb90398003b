//! The parameter-store backend: a certificate is kept as four parameters
//! below a configured path.

use crate::error::CertificateRequestError;
use crate::error::ErrorView;
use crate::result::CertificateStorageResult;
use crate::result::ResultView;
use crate::result::SsmParameterResultView;
use crate::result::SsmParameterStorageResult;
use crate::result::result_views;
use crate::text::chars_of;
use crate::text::join4;
use crate::text::prefix_of;
use vstd::prelude::*;
use vstd::string::StringExecFns;

verus! {

/// Whether `c` may occur in a parameter path: a letter or digit of ASCII, one
/// of `_`, `.` and `-`, or the `/` that parts the levels.
pub open spec fn allowed_in_path(c: char) -> bool {
    ('a' <= c <= 'z') || ('A' <= c <= 'Z') || ('0' <= c <= '9') || c == '_' || c == '.' || c == '-'
        || c == '/'
}

/// Whether two `/` stand side by side somewhere in `path`.
pub open spec fn has_empty_level(path: Seq<char>) -> bool {
    exists|i: int| 0 <= i < path.len() - 1 && path[i] == '/' && #[trigger] path[i + 1] == '/'
}

/// `path` without the one `/` that may end it.
pub open spec fn without_trailing_slash(path: Seq<char>) -> Seq<char> {
    if path.len() > 0 && path.last() == '/' {
        path.drop_last()
    } else {
        path
    }
}

/// Whether `path` can be made a parameter path: it starts with `/`, holds
/// only allowed characters and no empty level, and is more than a lone `/`.
pub open spec fn path_is_acceptable(path: Seq<char>) -> bool {
    &&& path.len() > 0
    &&& path[0] == '/'
    &&& forall|i: int| 0 <= i < path.len() ==> allowed_in_path(#[trigger] path[i])
    &&& !has_empty_level(path)
    &&& without_trailing_slash(path).len() > 0
}

/// The path that is stored for `path`: the path itself without a trailing
/// `/`, where it is acceptable.
pub open spec fn sanitized_path(path: Seq<char>) -> Option<Seq<char>> {
    if path_is_acceptable(path) {
        Some(without_trailing_slash(path))
    } else {
        None
    }
}

/// Whether `path` is a parameter path in its stored form: acceptable, and
/// not ended by `/`.
pub open spec fn path_is_normal(path: Seq<char>) -> bool {
    path_is_acceptable(path) && path.last() != '/'
}

/// The stored form of a path is normal, and is its own stored form:
/// sanitizing what was sanitized changes nothing.
pub proof fn lemma_sanitized_path_is_normal(path: Seq<char>)
    requires
        sanitized_path(path) is Some,
    ensures
        path_is_normal(sanitized_path(path)->0),
        sanitized_path(sanitized_path(path)->0) == sanitized_path(path),
{
    let kept = without_trailing_slash(path);
    assert(kept[0] == path[0]);
    assert forall|i: int| 0 <= i < kept.len() implies allowed_in_path(#[trigger] kept[i]) by {
        assert(kept[i] == path[i]);
    }
    if has_empty_level(kept) {
        let i = choose|i: int|
            0 <= i < kept.len() - 1 && kept[i] == '/' && #[trigger] kept[i + 1] == '/';
        assert(path[i] == '/' && path[i + 1] == '/');
    }
    if kept.last() == '/' {
        let n = path.len() as int;
        assert(path[n - 1] == '/');
        assert(path[(n - 2) + 1] == '/');
        assert(kept[n - 2] == path[n - 2]);
    }
    assert(without_trailing_slash(kept) == kept);
}

/// Decides `allowed_in_path`.
pub fn is_allowed_in_path(c: char) -> (yes: bool)
    ensures
        yes == allowed_in_path(c),
{
    (c >= 'a' && c <= 'z') || (c >= 'A' && c <= 'Z') || (c >= '0' && c <= '9') || c == '_' || c
        == '.' || c == '-' || c == '/'
}

/// Checks `path` and gives the form in which it is stored, or nothing where
/// the path cannot be used.
pub fn validate_and_sanitize_ssm_parameter_path(path: &str) -> (sanitized: Option<String>)
    ensures
        match sanitized {
            Some(p) => Some(p@) == sanitized_path(path@),
            None => sanitized_path(path@) is None,
        },
{
    let chars = chars_of(path);
    let n = chars.len();
    if n == 0 || chars[0] != '/' {
        return None;
    }
    let mut i: usize = 0;
    while i < n
        invariant
            i <= n,
            n == chars.len(),
            chars@ == path@,
            forall|k: int| 0 <= k < i ==> allowed_in_path(#[trigger] chars[k]),
            forall|k: int|
                0 <= k < i - 1 ==> !(chars[k] == '/' && #[trigger] chars[k + 1] == '/'),
        decreases n - i,
    {
        if !is_allowed_in_path(chars[i]) {
            return None;
        }
        if i > 0 && chars[i] == '/' && chars[i - 1] == '/' {
            assert(chars[(i - 1) + 1] == '/');
            return None;
        }
        i += 1;
    }
    let kept = if chars[n - 1] == '/' {
        n - 1
    } else {
        n
    };
    if kept == 0 {
        return None;
    }
    assert(path@.take(kept as int) =~= without_trailing_slash(path@));
    Some(prefix_of(path, kept))
}

/// The four parts of a stored certificate, in the order in which they are
/// written and reported.
pub open spec fn components() -> Seq<Seq<char>> {
    seq!["Certificate"@, "Chain"@, "FullChain"@, "PrivateKey"@]
}

/// The name of the parameter that holds one part of the certificate for
/// `domain` below `path`.
pub open spec fn parameter_name(path: Seq<char>, domain: Seq<char>, component: Seq<char>) -> Seq<
    char,
> {
    path + "/Certificate/"@ + domain + "/"@ + component
}

/// The description that goes with one part of the certificate for `domain`.
pub open spec fn parameter_description(domain: Seq<char>, component: Seq<char>) -> Seq<char> {
    "SSL "@ + component + " for "@ + domain
}

/// The type under which a part is stored: encrypted or plain.
pub open spec fn parameter_type(secure: bool) -> Seq<char> {
    if secure {
        "SecureString"@
    } else {
        "String"@
    }
}

/// One parameter to write.
#[derive(Clone, Debug, PartialEq, Eq)]
pub struct ParameterWrite {
    pub name: String,
    pub description: String,
    /// Whether a parameter of this name is replaced.
    pub overwrite: bool,
    /// `SecureString` for a value that is stored encrypted, else `String`.
    pub parameter_type: String,
    pub value: String,
}

/// What the store reports of a parameter.
#[derive(Clone, Debug, PartialEq, Eq)]
pub struct ParameterInfo {
    /// The identifier of the parameter, where the store gives it.
    pub arn: Option<String>,
}

/// The write of `value` as the part `component` of the certificate for
/// `domain` below `path`, as a value of specifications.
pub open spec fn is_write_of(
    write: ParameterWrite,
    path: Seq<char>,
    domain: Seq<char>,
    component: Seq<char>,
    secure: bool,
    value: Seq<char>,
) -> bool {
    &&& write.name@ == parameter_name(path, domain, component)
    &&& write.description@ == parameter_description(domain, component)
    &&& write.overwrite
    &&& write.parameter_type@ == parameter_type(secure)
    &&& write.value@ == value
}

/// What is reported when a parameter was written and read back but the
/// answer does not identify it.
pub open spec fn unidentified(name: Seq<char>, reason: Seq<char>) -> ErrorView {
    ErrorView::UnexpectedAwsResponse("Unable to get ARN for parameter "@ + name + ": "@ + reason)
}

impl ParameterWrite {
    /// Reads the answer to the write. Where the write went through, the
    /// parameter is to be read back under the name given, since only reading
    /// tells its identifier; where it failed, the failure is the store's.
    pub fn after_put(&self, put: Result<(), String>) -> (next: Result<
        String,
        CertificateRequestError,
    >)
        ensures
            match next {
                Ok(name) => put is Ok && name@ == self.name@,
                Err(e) => put matches Err(reason) && e@ == ErrorView::ServiceFailure(reason@),
            },
    {
        match put {
            Ok(_) => Ok(self.name.clone()),
            Err(reason) => Err(CertificateRequestError::ServiceFailure(reason)),
        }
    }

    /// Reads the answer to reading the parameter back and gives its name
    /// and identifier. An answer without a parameter and a parameter
    /// without an identifier are each an unexpected response; a read that
    /// failed is the store's failure, as a failed write is.
    pub fn after_get(&self, got: Result<Option<ParameterInfo>, String>) -> (written: Result<
        (String, String),
        CertificateRequestError,
    >)
        ensures
            match got {
                Ok(Some(info)) => match info.arn {
                    Some(arn) => written matches Ok(pair) && pair.0@ == self.name@ && pair.1@
                        == arn@,
                    None => written matches Err(e) && e@ == unidentified(
                        self.name@,
                        "no ARN returned"@,
                    ),
                },
                Ok(None) => written matches Err(e) && e@ == unidentified(
                    self.name@,
                    "no parameter returned"@,
                ),
                Err(reason) => written matches Err(e) && e@ == ErrorView::ServiceFailure(reason@),
            },
    {
        match got {
            Ok(Some(info)) => match info.arn {
                Some(arn) => Ok((self.name.clone(), arn)),
                None => Err(Self::cannot_identify(&self.name, "no ARN returned")),
            },
            Ok(None) => Err(Self::cannot_identify(&self.name, "no parameter returned")),
            Err(reason) => Err(CertificateRequestError::ServiceFailure(reason)),
        }
    }

    fn cannot_identify(name: &String, reason: &str) -> (e: CertificateRequestError)
        ensures
            e@ == unidentified(name@, reason@),
    {
        CertificateRequestError::UnexpectedAwsResponse(
            join4("Unable to get ARN for parameter ", name.as_str(), ": ", reason),
        )
    }
}

/// Where the parameter store keeps certificates.
#[derive(Clone, Debug, PartialEq, Eq)]
pub struct SsmParameterStorage {
    /// The path below which the parameters are written. Once validated, it
    /// starts with `/` and does not end with one.
    pub path: String,
}

/// What is reported of a certificate for no domain.
pub open spec fn unnamed_error() -> ErrorView {
    ErrorView::Internal("no domain name to store the certificate under"@)
}

/// The four writes that store a certificate for `domain` below `path`: the
/// certificate, the chain and the full chain in plain, the private key
/// encrypted.
pub open spec fn are_writes_of(
    writes: Seq<ParameterWrite>,
    path: Seq<char>,
    domain: Seq<char>,
    cert_pem: Seq<char>,
    chain_pem: Seq<char>,
    fullchain_pem: Seq<char>,
    pkey_pem: Seq<char>,
) -> bool {
    &&& writes.len() == 4
    &&& is_write_of(writes[0], path, domain, components()[0], false, cert_pem)
    &&& is_write_of(writes[1], path, domain, components()[1], false, chain_pem)
    &&& is_write_of(writes[2], path, domain, components()[2], false, fullchain_pem)
    &&& is_write_of(writes[3], path, domain, components()[3], true, pkey_pem)
}

/// The first failure among the four writes, in the order of the parts.
pub open spec fn first_failure(
    cert: Result<(String, String), CertificateRequestError>,
    chain: Result<(String, String), CertificateRequestError>,
    fullchain: Result<(String, String), CertificateRequestError>,
    pkey: Result<(String, String), CertificateRequestError>,
) -> Option<ErrorView> {
    if cert is Err {
        Some(cert->Err_0@)
    } else if chain is Err {
        Some(chain->Err_0@)
    } else if fullchain is Err {
        Some(fullchain->Err_0@)
    } else if pkey is Err {
        Some(pkey->Err_0@)
    } else {
        None
    }
}

/// Whether `saved` is the report of a save, given what became of each of
/// the four writes: the first failure where there is one, else the one
/// record of the four parameters.
pub open spec fn is_report_of(
    saved: Result<Vec<CertificateStorageResult>, CertificateRequestError>,
    cert: Result<(String, String), CertificateRequestError>,
    chain: Result<(String, String), CertificateRequestError>,
    fullchain: Result<(String, String), CertificateRequestError>,
    pkey: Result<(String, String), CertificateRequestError>,
) -> bool {
    match first_failure(cert, chain, fullchain, pkey) {
        Some(failure) => saved matches Err(e) && e@ == failure,
        None => saved matches Ok(results) && result_views(results@) == seq![
            ResultView::SsmParameter(
                SsmParameterResultView {
                    cert_param: cert->Ok_0.0@,
                    chain_param: chain->Ok_0.0@,
                    fullchain_param: fullchain->Ok_0.0@,
                    pkey_param: pkey->Ok_0.0@,
                    cert_arn: cert->Ok_0.1@,
                    chain_arn: chain->Ok_0.1@,
                    fullchain_arn: fullchain->Ok_0.1@,
                    pkey_arn: pkey->Ok_0.1@,
                },
            ),
        ],
    }
}

impl SsmParameterStorage {
    /// Checks the path and replaces it by its stored form, which is normal.
    /// A path that cannot be used is reported as it was given, and stays.
    pub fn validate(&mut self) -> (checked: Result<(), CertificateRequestError>)
        ensures
            checked is Ok ==> path_is_normal(final(self).path@),
            match sanitized_path(old(self).path@) {
                Some(path) => checked is Ok && final(self).path@ == path,
                None => checked matches Err(e) && e@ == ErrorView::InvalidSsmParameterPath(
                    old(self).path@,
                ) && final(self).path@ == old(self).path@,
            },
    {
        match validate_and_sanitize_ssm_parameter_path(self.path.as_str()) {
            Some(path) => {
                proof {
                    lemma_sanitized_path_is_normal(self.path@);
                }
                self.path = path;
                Ok(())
            },
            None => Err(CertificateRequestError::InvalidSsmParameterPath(self.path.clone())),
        }
    }

    /// The write of one part of the certificate for `domain`.
    fn write_of(&self, domain: &String, component: &str, secure: bool, value: String) -> (write:
        ParameterWrite)
        ensures
            is_write_of(write, self.path@, domain@, component@, secure, value@),
    {
        let mut name = join4(self.path.as_str(), "/Certificate/", domain.as_str(), "/");
        name.append(component);
        let description = join4("SSL ", component, " for ", domain.as_str());
        let parameter_type = if secure {
            String::from_str("SecureString")
        } else {
            String::from_str("String")
        };
        ParameterWrite { name, description, overwrite: true, parameter_type, value }
    }

    /// The writes that store the certificate: one parameter for each of its
    /// four parts, named after the first of the domains, the private key
    /// encrypted. All four are to be issued before any is waited for. A
    /// certificate for no domain is refused.
    pub fn save_certificate(
        &self,
        domain_names: &Vec<String>,
        cert_pem: String,
        chain_pem: String,
        fullchain_pem: String,
        pkey_pem: String,
    ) -> (writes: Result<Vec<ParameterWrite>, CertificateRequestError>)
        ensures
            match writes {
                Ok(writes) => domain_names.len() > 0 && are_writes_of(
                    writes@,
                    self.path@,
                    domain_names[0]@,
                    cert_pem@,
                    chain_pem@,
                    fullchain_pem@,
                    pkey_pem@,
                ),
                Err(e) => domain_names.len() == 0 && e@ == unnamed_error(),
            },
    {
        if domain_names.len() == 0 {
            return Err(
                CertificateRequestError::Internal(
                    String::from_str("no domain name to store the certificate under"),
                ),
            );
        }
        let domain = &domain_names[0];
        let mut writes: Vec<ParameterWrite> = Vec::new();
        writes.push(self.write_of(domain, "Certificate", false, cert_pem));
        writes.push(self.write_of(domain, "Chain", false, chain_pem));
        writes.push(self.write_of(domain, "FullChain", false, fullchain_pem));
        writes.push(self.write_of(domain, "PrivateKey", true, pkey_pem));
        Ok(writes)
    }

    /// The report of a save, from what became of each of the four writes.
    /// Where all four went through, it is one record with the four names and
    /// identifiers. Where any failed, the save has failed as a whole, with the
    /// first failure in the order of the parts, and nothing is reported as
    /// stored.
    pub fn save_result(
        cert: Result<(String, String), CertificateRequestError>,
        chain: Result<(String, String), CertificateRequestError>,
        fullchain: Result<(String, String), CertificateRequestError>,
        pkey: Result<(String, String), CertificateRequestError>,
    ) -> (saved: Result<Vec<CertificateStorageResult>, CertificateRequestError>)
        ensures
            is_report_of(saved, cert, chain, fullchain, pkey),
    {
        let (cert_param, cert_arn) = match cert {
            Ok(pair) => pair,
            Err(e) => { return Err(e); },
        };
        let (chain_param, chain_arn) = match chain {
            Ok(pair) => pair,
            Err(e) => { return Err(e); },
        };
        let (fullchain_param, fullchain_arn) = match fullchain {
            Ok(pair) => pair,
            Err(e) => { return Err(e); },
        };
        let (pkey_param, pkey_arn) = match pkey {
            Ok(pair) => pair,
            Err(e) => { return Err(e); },
        };
        let record = SsmParameterStorageResult {
            cert_param,
            chain_param,
            fullchain_param,
            pkey_param,
            cert_arn,
            chain_arn,
            fullchain_arn,
            pkey_arn,
        };
        let mut results: Vec<CertificateStorageResult> = Vec::new();
        results.push(CertificateStorageResult::SsmParameter(record));
        assert(result_views(results@) =~= seq![results[0]@]);
        Ok(results)
    }
}

} // verus!
