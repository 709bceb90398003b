//! What holds of the backends whatever they are given.

use crate::acm::AcmImportTask;
use crate::acm::AcmStep;
use crate::acm::AcmStorage;
use crate::acm::ReimportOutcome;
use crate::acm::are_reimports_of;
use crate::acm::begins_import;
use crate::acm::begins_reimport;
use crate::acm::lacks_region_first;
use crate::acm::no_region_error;
use crate::acm::import_record;
use crate::acm::reimport_record;
use crate::arn::are_arn_parts;
use crate::arn::arn_is_valid;
use crate::arn::arn_of;
use crate::arn::arn_region;
use crate::arn::lemma_valid_arn_has_region;
use crate::arn::lemma_valid_arn_is_composed;
use crate::error::CertificateRequestError;
use crate::matching::ACM_TYPE_IMPORTED;
use crate::matching::Described;
use crate::matching::confirmed;
use crate::matching::confirmed_all;
use crate::result::CertificateStorageResult;
use crate::result::ResultView;
use crate::result::result_views;
use crate::ssm::is_report_of;
use crate::text::texts;
use vstd::prelude::*;

verus! {

/// Whether `message` holds `name` somewhere, character for character.
pub open spec fn mentions(message: Seq<char>, name: Seq<char>) -> bool {
    exists|at: int|
        0 <= at && at + name.len() <= message.len() && #[trigger] message.subrange(
            at,
            at + name.len(),
        ) == name
}

/// Settings that name certificates to import over and ask for a new one
/// are refused as contradictory, whatever the names are.
pub proof fn lemma_contradiction_is_refused(
    acm: AcmStorage,
    checked: Result<(), CertificateRequestError>,
)
    requires
        acm.certificate_arns is Some,
        acm.force_new_import,
        acm.is_checked_as(checked),
    ensures
        checked matches Err(e) && e@ is InvalidAcmConfiguration,
{
}

/// Settings that name a text which is not of the form
/// `arn:<partition>:acm:<region>:<account>:certificate/<id>`, with a region
/// that is known and an account of twelve digits, are refused.
pub proof fn lemma_invalid_identifier_is_refused(
    acm: AcmStorage,
    at: int,
    checked: Result<(), CertificateRequestError>,
)
    requires
        acm.arns() matches Some(arns) && 0 <= at < arns.len() && forall|
            partition: Seq<char>,
            region: Seq<char>,
            account: Seq<char>,
            id: Seq<char>,
        |
            are_arn_parts(partition, region, account, id) ==> arns[at] != #[trigger] arn_of(
                partition,
                region,
                account,
                id,
            ),
        acm.is_checked_as(checked),
    ensures
        checked matches Err(e) && e@.is_configuration(),
{
    let arn = acm.arns()->0[at];
    if arn_is_valid(arn) {
        lemma_valid_arn_is_composed(arn);
    }
}

/// Settings that were found valid name a region with each certificate:
/// importing over the certificates that they name does not fail, and is one
/// import for each.
pub proof fn lemma_valid_settings_name_regions(
    acm: AcmStorage,
    step: Result<AcmStep, CertificateRequestError>,
    domains: Seq<Seq<char>>,
    cert_pem: Seq<char>,
    chain_pem: Seq<char>,
    pkey_pem: Seq<char>,
)
    requires
        acm.is_valid(),
        acm.names_certificates(),
        acm.begins_save(step, domains, cert_pem, chain_pem, pkey_pem),
    ensures
        step matches Ok(AcmStep::Reimport(tasks)) && tasks.len() == acm.arns()->0.len(),
{
    let arns = acm.arns()->0;
    if let Err(e) = step {
        let at = choose|at: int|
            lacks_region_first(arns, at) && e@ == no_region_error(#[trigger] arns[at]);
        assert(arn_is_valid(arns[at]));
        lemma_valid_arn_has_region(arns[at]);
    }
}

/// A save with valid settings and for at least one domain begins without
/// fail, and names at least one place to write to unless it begins by
/// looking for certificates: one new certificate, or one import for each
/// certificate named, of which there is at least one.
pub proof fn lemma_valid_save_begins(
    acm: AcmStorage,
    step: Result<AcmStep, CertificateRequestError>,
    domains: Seq<Seq<char>>,
    cert_pem: Seq<char>,
    chain_pem: Seq<char>,
    pkey_pem: Seq<char>,
)
    requires
        acm.is_valid(),
        domains.len() > 0,
        acm.begins_save(step, domains, cert_pem, chain_pem, pkey_pem),
    ensures
        match step {
            Ok(AcmStep::Import(_)) => acm.force_new_import,
            Ok(AcmStep::Reimport(tasks)) => acm.names_certificates() && tasks.len() >= 1,
            Ok(AcmStep::Match(_, _)) => !acm.force_new_import && !acm.names_certificates(),
            Err(_) => false,
        },
{
    if !acm.force_new_import && acm.names_certificates() {
        lemma_valid_settings_name_regions(acm, step, domains, cert_pem, chain_pem, pkey_pem);
    }
}

/// A save that imports, new or over certificates, reports at least one
/// record, and one for each place written to: one for a new certificate,
/// one for each import over an existing one.
pub proof fn lemma_save_reports_each_target(
    step: AcmStep,
    arns: Seq<Seq<char>>,
    cert_pem: Seq<char>,
    chain_pem: Seq<char>,
    pkey_pem: Seq<char>,
    response: Result<String, String>,
    outcomes: Seq<ReimportOutcome>,
    results: Seq<ResultView>,
)
    requires
        begins_import(Ok(step), cert_pem, chain_pem, pkey_pem) || begins_reimport(
            Ok(step),
            arns,
            cert_pem,
            chain_pem,
            pkey_pem,
        ),
        match step {
            AcmStep::Import(_) => results == seq![import_record(response)],
            AcmStep::Reimport(tasks) => outcomes.len() == tasks.len() && results == Seq::new(
                outcomes.len(),
                |i: int| reimport_record(outcomes[i]),
            ),
            AcmStep::Match(_, _) => true,
        },
    ensures
        results.len() >= 1,
        match step {
            AcmStep::Import(_) => results.len() == 1,
            AcmStep::Reimport(tasks) => results.len() == tasks.len() && tasks.len()
                == arns.len(),
            AcmStep::Match(_, _) => false,
        },
{
}

/// Importing over `arns` is one import for each identifier, each for the
/// region that its own identifier names, and one record for each import,
/// whatever became of the others: the identifier that the manager reported,
/// or a message that names the certificate which the import was to go over.
pub proof fn lemma_reimport_is_one_for_one(
    tasks: Seq<AcmImportTask>,
    arns: Seq<Seq<char>>,
    cert_pem: Seq<char>,
    chain_pem: Seq<char>,
    pkey_pem: Seq<char>,
    outcomes: Seq<ReimportOutcome>,
    results: Seq<ResultView>,
)
    requires
        are_reimports_of(tasks, arns, cert_pem, chain_pem, pkey_pem),
        outcomes.len() == tasks.len(),
        results == Seq::new(outcomes.len(), |i: int| reimport_record(outcomes[i])),
    ensures
        tasks.len() == arns.len(),
        results.len() == arns.len(),
        forall|i: int|
            0 <= i < arns.len() ==> {
                &&& Some((#[trigger] tasks[i]).region@) == arn_region(arns[i])
                &&& tasks[i].req.certificate_arn matches Some(target) && target@ == arns[i]
            },
        forall|i: int|
            0 <= i < arns.len() ==> match #[trigger] results[i] {
                ResultView::Acm(arn) => outcomes[i].response matches Ok(reported) && reported@
                    == arn,
                ResultView::Error(message) => outcomes[i].response is Err && mentions(
                    message,
                    outcomes[i].certificate_arn@,
                ),
                _ => false,
            },
{
    assert forall|i: int| 0 <= i < arns.len() implies match #[trigger] results[i] {
        ResultView::Acm(arn) => outcomes[i].response matches Ok(reported) && reported@ == arn,
        ResultView::Error(message) => outcomes[i].response is Err && mentions(
            message,
            outcomes[i].certificate_arn@,
        ),
        _ => false,
    } by {
        if let Err(reason) = outcomes[i].response {
            let head = "Failed to reimport certificate "@;
            let name = outcomes[i].certificate_arn@;
            let message = head + name + ": "@ + reason@;
            assert(results[i] == ResultView::Error(message));
            let at = head.len() as int;
            assert(message.subrange(at, at + name.len()) =~= name);
        }
    }
}

/// Where the search found nothing, the save is one import of a new
/// certificate, and its report is one record.
pub proof fn lemma_no_match_is_one_import(
    step: Result<AcmStep, CertificateRequestError>,
    cert_pem: Seq<char>,
    chain_pem: Seq<char>,
    pkey_pem: Seq<char>,
    response: Result<String, String>,
    results: Seq<ResultView>,
)
    requires
        begins_import(step, cert_pem, chain_pem, pkey_pem),
        results == seq![import_record(response)],
    ensures
        step matches Ok(AcmStep::Import(request)) && request.certificate_arn is None,
        results.len() == 1,
        response is Ok ==> results[0] is Acm,
        response is Err ==> results[0] is Error,
{
}

/// A certificate is found by the search only if its description came in,
/// says that it was imported, and gives as its names the domains looked for:
/// as many names as domains, and each name as often as it is a domain.
pub proof fn lemma_match_is_exact(described: Seq<Described>, domains: Seq<Seq<char>>, arn: Seq<char>)
    requires
        confirmed_all(described, domains).contains(arn),
    ensures
        exists|i: int|
            0 <= i < described.len() && (#[trigger] described[i] matches Described::Found(detail)
                && {
                &&& detail.certificate_arn matches Some(found) && found@ == arn
                &&& detail.origin matches Some(origin) && origin@ == ACM_TYPE_IMPORTED@
                &&& detail.subject_alternative_names matches Some(names) && {
                    &&& names.len() == domains.len()
                    &&& forall|name: Seq<char>|
                        texts(names@).to_multiset().count(name) == domains.to_multiset().count(name)
                }
            }),
    decreases described.len(),
{
    let pick = |d: Described| confirmed(d, domains);
    if described.len() > 0 {
        let rest = described.drop_last();
        let last = described.last();
        if confirmed(last, domains) == Some(arn) {
            let detail = last->Found_0;
            let names = detail.subject_alternative_names->0;
            texts(names@).to_multiset_ensures();
            domains.to_multiset_ensures();
            assert(described[described.len() - 1] == last);
        } else {
            assert(rest.filter_map(pick).contains(arn)) by {
                let found = described.filter_map(pick);
                let k = choose|k: int| 0 <= k < found.len() && found[k] == arn;
                if confirmed(last, domains) is Some {
                    assert(found == rest.filter_map(pick) + seq![confirmed(last, domains)->0]);
                    assert(k < rest.filter_map(pick).len());
                    assert(rest.filter_map(pick)[k] == arn);
                } else {
                    assert(found == rest.filter_map(pick));
                }
            }
            lemma_match_is_exact(rest, domains, arn);
            let i = choose|i: int|
                0 <= i < rest.len() && (#[trigger] rest[i] matches Described::Found(detail) && {
                    &&& detail.certificate_arn matches Some(found) && found@ == arn
                    &&& detail.origin matches Some(origin) && origin@ == ACM_TYPE_IMPORTED@
                    &&& detail.subject_alternative_names matches Some(names) && {
                        &&& names.len() == domains.len()
                        &&& forall|name: Seq<char>|
                            texts(names@).to_multiset().count(name) == domains.to_multiset().count(
                                name,
                            )
                    }
                });
            assert(described[i] == rest[i]);
        }
    }
}

/// Where any of the four writes failed, the save has failed, and where all
/// went through, its report is one record.
pub proof fn lemma_parameters_are_all_or_nothing(
    saved: Result<Vec<CertificateStorageResult>, CertificateRequestError>,
    cert: Result<(String, String), CertificateRequestError>,
    chain: Result<(String, String), CertificateRequestError>,
    fullchain: Result<(String, String), CertificateRequestError>,
    pkey: Result<(String, String), CertificateRequestError>,
)
    requires
        is_report_of(saved, cert, chain, fullchain, pkey),
    ensures
        saved is Err <==> (cert is Err || chain is Err || fullchain is Err || pkey is Err),
        saved matches Ok(results) ==> results.len() == 1 && results[0] is SsmParameter,
{
    if let Ok(results) = saved {
        assert(result_views(results@).len() == 1);
        assert(result_views(results@)[0] == results[0]@);
    }
}

} // verus!
