//! Finding the managed certificates that already stand for a list of domains,
//! so that a renewed certificate replaces them instead of adding to them.
//!
//! The scan lists the certificates page by page, keeps those issued for the
//! first of the domains, has each of these described, and settles on the
//! imported ones whose names are the requested domains. The caller makes the
//! calls; the scan says which call comes next and reads the answers.

use crate::error::CertificateRequestError;
use crate::error::ErrorView;
use crate::names::have_same_names;
use crate::names::same_names;
use crate::text::clone_strings;
use crate::text::reads;
use crate::text::texts;
use vstd::prelude::*;
use vstd::string::StringExecFns;

verus! {

/// The status of a certificate that was issued and is in force.
pub const ACM_STATUS_ISSUED: &'static str = "ISSUED";

/// The status of a certificate that was issued and has run out.
pub const ACM_STATUS_EXPIRED: &'static str = "EXPIRED";

/// The origin of a certificate that was brought in from outside.
pub const ACM_TYPE_IMPORTED: &'static str = "IMPORTED";

/// One certificate as a listing shows it.
#[derive(Clone, Debug, PartialEq, Eq)]
pub struct CertificateSummary {
    /// The identifier of the certificate, where the listing gives it.
    pub certificate_arn: Option<String>,
    /// The first of the certificate's names, where the listing gives it.
    pub domain_name: Option<String>,
}

/// One page of a listing.
#[derive(Clone, Debug, PartialEq, Eq)]
pub struct CertificatePage {
    pub summaries: Vec<CertificateSummary>,
    /// Where the next page starts, if there is one.
    pub next_token: Option<String>,
}

/// A request for one page of the listing.
#[derive(Clone, Debug, PartialEq, Eq)]
pub struct ListRequest {
    /// The statuses that a listed certificate may have.
    pub statuses: Vec<String>,
    pub next_token: Option<String>,
}

/// One certificate as its description shows it.
#[derive(Clone, Debug, PartialEq, Eq)]
pub struct CertificateDetail {
    /// The identifier of the certificate, where the description gives it.
    pub certificate_arn: Option<String>,
    /// How the certificate came to the manager, where the description says.
    pub origin: Option<String>,
    /// All the names that the certificate is good for.
    pub subject_alternative_names: Option<Vec<String>>,
}

/// What asking for one certificate's description came to.
#[derive(Clone, Debug, PartialEq, Eq)]
pub enum Described {
    /// The call failed; the text says how.
    Failed(String),
    /// The service answered without a certificate.
    Absent,
    Found(CertificateDetail),
}

/// What the scan needs next.
#[derive(Clone, Debug, PartialEq, Eq)]
pub enum ScanStep {
    /// Another page of the listing.
    List(ListRequest),
    /// The description of each of these certificates, in any order.
    Describe(Vec<String>),
}

/// What is reported of a search for no domains.
pub open spec fn no_domains_error() -> ErrorView {
    ErrorView::Internal("no domain names to match certificates against"@)
}

/// The statuses that the scan asks the listing for.
pub open spec fn listed_statuses() -> Seq<Seq<char>> {
    seq![ACM_STATUS_ISSUED@, ACM_STATUS_EXPIRED@]
}

/// Whether `summary` is listed under the name `primary`.
pub open spec fn is_listed_under(summary: CertificateSummary, primary: Seq<char>) -> bool {
    summary.domain_name matches Some(name) && name@ == primary
}

/// The identifier of `summary` if it is listed under the name `primary`.
pub open spec fn candidate(summary: CertificateSummary, primary: Seq<char>) -> Option<Seq<char>> {
    match summary.certificate_arn {
        Some(arn) => if is_listed_under(summary, primary) {
            Some(arn@)
        } else {
            None
        },
        None => None,
    }
}

/// Whether each certificate in `summaries` that is listed under the name
/// `primary` has an identifier.
pub open spec fn candidates_are_identified(
    summaries: Seq<CertificateSummary>,
    primary: Seq<char>,
) -> bool {
    forall|i: int|
        0 <= i < summaries.len() && is_listed_under(#[trigger] summaries[i], primary)
            ==> summaries[i].certificate_arn is Some
}

/// The identifiers of the certificates in `summaries` that are listed under
/// the name `primary`, in the order of the listing.
pub open spec fn page_candidates(summaries: Seq<CertificateSummary>, primary: Seq<char>) -> Seq<
    Seq<char>,
> {
    summaries.filter_map(|s: CertificateSummary| candidate(s, primary))
}

/// Whether the described certificate stands for `domains`: it was imported,
/// and its names are these domains, each as often, in whatever order.
pub open spec fn detail_matches(detail: CertificateDetail, domains: Seq<Seq<char>>) -> bool {
    &&& detail.origin matches Some(origin) && origin@ == ACM_TYPE_IMPORTED@
    &&& detail.subject_alternative_names matches Some(names) && same_names(texts(names@), domains)
}

/// The identifier that a description contributes to the scan's result: that
/// of a described certificate that matches. A failed call and an empty answer
/// contribute nothing.
pub open spec fn confirmed(described: Described, domains: Seq<Seq<char>>) -> Option<Seq<char>> {
    match described {
        Described::Found(detail) => match detail.certificate_arn {
            Some(arn) => if detail_matches(detail, domains) {
                Some(arn@)
            } else {
                None
            },
            None => None,
        },
        _ => None,
    }
}

/// Whether each described certificate that matches has an identifier.
pub open spec fn matches_are_identified(described: Seq<Described>, domains: Seq<Seq<char>>) -> bool {
    forall|i: int|
        0 <= i < described.len() ==> (#[trigger] described[i] matches Described::Found(detail)
            ==> (detail_matches(detail, domains) ==> detail.certificate_arn is Some))
}

/// The identifiers of the matching certificates among `described`, in the
/// order in which the descriptions came in.
pub open spec fn confirmed_all(described: Seq<Described>, domains: Seq<Seq<char>>) -> Seq<
    Seq<char>,
> {
    described.filter_map(|d: Described| confirmed(d, domains))
}

/// A scan in progress: the domains looked for and the candidates found on the
/// pages read so far.
#[derive(Clone, Debug, PartialEq, Eq)]
pub struct MatchScan {
    domain_names: Vec<String>,
    candidates: Vec<String>,
}

impl MatchScan {
    /// The domains looked for.
    pub closed spec fn domains(&self) -> Seq<Seq<char>> {
        texts(self.domain_names@)
    }

    /// The candidates found so far.
    pub closed spec fn candidates(&self) -> Seq<Seq<char>> {
        texts(self.candidates@)
    }

    /// A scan always looks for at least one domain.
    pub open spec fn wf(&self) -> bool {
        self.domains().len() > 0
    }

    /// The request for a page that starts at `next_token`.
    fn list_request(next_token: Option<String>) -> (request: ListRequest)
        ensures
            texts(request.statuses@) == listed_statuses(),
            request.next_token == next_token,
    {
        let mut statuses: Vec<String> = Vec::new();
        statuses.push(String::from_str(ACM_STATUS_ISSUED));
        statuses.push(String::from_str(ACM_STATUS_EXPIRED));
        assert(texts(statuses@) =~= listed_statuses());
        ListRequest { statuses, next_token }
    }

    /// Begins a scan for `domain_names` and asks for the first page of issued
    /// and expired certificates. A scan for no domains is refused.
    pub fn start(domain_names: &Vec<String>) -> (begun: Result<
        (MatchScan, ListRequest),
        CertificateRequestError,
    >)
        ensures
            match begun {
                Ok((scan, request)) => {
                    &&& domain_names.len() > 0
                    &&& scan.wf()
                    &&& scan.domains() == texts(domain_names@)
                    &&& scan.candidates() == Seq::<Seq<char>>::empty()
                    &&& texts(request.statuses@) == listed_statuses()
                    &&& request.next_token is None
                },
                Err(e) => domain_names.len() == 0 && e@ == no_domains_error(),
            },
    {
        if domain_names.len() == 0 {
            return Err(
                CertificateRequestError::Internal(
                    String::from_str("no domain names to match certificates against"),
                ),
            );
        }
        let scan = MatchScan { domain_names: clone_strings(domain_names), candidates: Vec::new() };
        assert(scan.candidates() =~= Seq::<Seq<char>>::empty());
        Ok((scan, Self::list_request(None)))
    }

    /// Whether each certificate on `page` that is listed under the first of
    /// the domains has its identifier, so that the page can be read.
    pub fn identifies_candidates(&self, page: &CertificatePage) -> (yes: bool)
        requires
            self.wf(),
        ensures
            yes == candidates_are_identified(page.summaries@, self.domains()[0]),
    {
        let ghost primary = self.domains()[0];
        let mut i: usize = 0;
        while i < page.summaries.len()
            invariant
                i <= page.summaries.len(),
                self.domain_names.len() > 0,
                primary == self.domain_names[0]@,
                forall|k: int|
                    0 <= k < i && is_listed_under(#[trigger] page.summaries[k], primary)
                        ==> page.summaries[k].certificate_arn is Some,
            decreases page.summaries.len() - i,
        {
            let summary = &page.summaries[i];
            let listed = match &summary.domain_name {
                Some(name) => *name == self.domain_names[0],
                None => false,
            };
            if listed && summary.certificate_arn.is_none() {
                assert(is_listed_under(page.summaries[i as int], primary));
                return false;
            }
            i += 1;
        }
        true
    }

    /// Reads the answer to a request for a page. The certificates on it that
    /// are listed under the first of the domains join the candidates. Where
    /// the page names a successor, that page is asked for with the same
    /// statuses. Otherwise, and where the listing failed, the listing is over
    /// and the candidates found are to be described: a page that cannot be
    /// read holds no candidate and ends no request. Each certificate that is
    /// listed under the first of the domains must have its identifier, which
    /// `identifies_candidates` tells.
    pub fn page(&mut self, listed: Result<CertificatePage, String>) -> (step: ScanStep)
        requires
            old(self).wf(),
            listed matches Ok(page) ==> candidates_are_identified(
                page.summaries@,
                old(self).domains()[0],
            ),
        ensures
            final(self).wf(),
            final(self).domains() == old(self).domains(),
            final(self).candidates() == old(self).candidates() + (match listed {
                Ok(page) => page_candidates(page.summaries@, old(self).domains()[0]),
                Err(_) => Seq::empty(),
            }),
            match step {
                ScanStep::List(request) => {
                    &&& listed matches Ok(page)
                    &&& page.next_token matches Some(token)
                    &&& request.next_token matches Some(t)
                    &&& t@ == token@
                    &&& texts(request.statuses@) == listed_statuses()
                },
                ScanStep::Describe(arns) => {
                    &&& !(listed matches Ok(page) && page.next_token is Some)
                    &&& texts(arns@) == final(self).candidates()
                },
            },
    {
        match listed {
            Err(_) => {
                assert(self.candidates() + Seq::<Seq<char>>::empty() =~= self.candidates());
                ScanStep::Describe(clone_strings(&self.candidates))
            },
            Ok(page) => {
                let ghost primary = self.domains()[0];
                let ghost found = self.candidates();
                let ghost pick = |s: CertificateSummary| candidate(s, primary);
                let mut i: usize = 0;
                assert(page.summaries@.take(0).filter_map(pick) =~= Seq::<Seq<char>>::empty());
                assert(found + Seq::<Seq<char>>::empty() =~= found);
                while i < page.summaries.len()
                    invariant
                        i <= page.summaries.len(),
                        self.domain_names == old(self).domain_names,
                        self.domain_names.len() > 0,
                        primary == self.domain_names[0]@,
                        pick == |s: CertificateSummary| candidate(s, primary),
                        candidates_are_identified(page.summaries@, primary),
                        texts(self.candidates@) == found + page.summaries@.take(i as int).filter_map(
                            pick,
                        ),
                    decreases page.summaries.len() - i,
                {
                    proof {
                        page.summaries@.lemma_filter_map_take_succ(pick, i as int);
                    }
                    let ghost before = texts(self.candidates@);
                    let summary = &page.summaries[i];
                    match &summary.domain_name {
                        Some(name) => {
                            if *name == self.domain_names[0] {
                                assert(is_listed_under(page.summaries[i as int], primary));
                                let arn = summary.certificate_arn.as_ref().unwrap();
                                self.candidates.push(arn.clone());
                                assert(texts(self.candidates@) =~= before.push(arn@));
                            }
                        },
                        None => {},
                    }
                    assert(texts(self.candidates@) =~= found + page.summaries@.take(i + 1).filter_map(
                        pick,
                    ));
                    i += 1;
                }
                assert(page.summaries@.take(page.summaries.len() as int) =~= page.summaries@);
                match page.next_token {
                    Some(token) => ScanStep::List(Self::list_request(Some(token))),
                    None => ScanStep::Describe(clone_strings(&self.candidates)),
                }
            },
        }
    }

    /// Whether the described certificate stands for the domains of the scan.
    fn matches(&self, detail: &CertificateDetail) -> (yes: bool)
        ensures
            yes == detail_matches(*detail, self.domains()),
    {
        let imported = match &detail.origin {
            Some(origin) => reads(origin, ACM_TYPE_IMPORTED),
            None => false,
        };
        if !imported {
            return false;
        }
        match &detail.subject_alternative_names {
            Some(names) => have_same_names(names, &self.domain_names),
            None => false,
        }
    }

    /// Whether each described certificate that stands for the domains of the
    /// scan has its identifier, so that the descriptions can be read.
    pub fn identifies_matches(&self, described: &Vec<Described>) -> (yes: bool)
        ensures
            yes == matches_are_identified(described@, self.domains()),
    {
        let ghost domains = self.domains();
        let mut i: usize = 0;
        while i < described.len()
            invariant
                i <= described.len(),
                domains == self.domains(),
                forall|k: int|
                    0 <= k < i ==> (#[trigger] described[k] matches Described::Found(detail) ==> (
                    detail_matches(detail, domains) ==> detail.certificate_arn is Some)),
            decreases described.len() - i,
        {
            match &described[i] {
                Described::Found(detail) => {
                    if detail.certificate_arn.is_none() && self.matches(detail) {
                        return false;
                    }
                },
                _ => {},
            }
            i += 1;
        }
        true
    }

    /// Reads the descriptions of the candidates and gives the identifiers of
    /// those that stand for the domains of the scan, in the order in which
    /// the descriptions came in. Each described certificate that stands for
    /// the domains must have its identifier, which `identifies_matches`
    /// tells.
    pub fn matching_certificates(&self, described: &Vec<Described>) -> (arns: Vec<String>)
        requires
            matches_are_identified(described@, self.domains()),
        ensures
            texts(arns@) == confirmed_all(described@, self.domains()),
    {
        let ghost domains = self.domains();
        let ghost pick = |d: Described| confirmed(d, domains);
        let mut arns: Vec<String> = Vec::new();
        let mut i: usize = 0;
        assert(described@.take(0).filter_map(pick) =~= Seq::<Seq<char>>::empty());
        assert(texts(arns@) =~= Seq::<Seq<char>>::empty());
        while i < described.len()
            invariant
                i <= described.len(),
                domains == self.domains(),
                pick == |d: Described| confirmed(d, domains),
                matches_are_identified(described@, domains),
                texts(arns@) == described@.take(i as int).filter_map(pick),
            decreases described.len() - i,
        {
            proof {
                described@.lemma_filter_map_take_succ(pick, i as int);
            }
            let ghost before = texts(arns@);
            match &described[i] {
                Described::Found(detail) => {
                    if self.matches(detail) {
                        let arn = detail.certificate_arn.as_ref().unwrap();
                        arns.push(arn.clone());
                        assert(texts(arns@) =~= before.push(arn@));
                    }
                },
                _ => {},
            }
            assert(texts(arns@) =~= described@.take(i + 1).filter_map(pick));
            i += 1;
        }
        assert(described@.take(described.len() as int) =~= described@);
        arns
    }
}

} // verus!
