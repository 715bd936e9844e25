use vstd::prelude::*;

use crate::dates::{iso_date_text, normalize_iso_date};
use crate::text::{concat, opt_view, owned};
use vstd::string::StrSliceExecFns;

verus! {

/// Error type for organization operations.
#[derive(Debug, Clone, PartialEq, Eq)]
pub enum OrganizationError {
    Database(String),
    Network(String),
    NotInitialized,
}

/// The text that a OrganizationError displays.
pub open spec fn organization_error_text(e: OrganizationError) -> Seq<char> {
    match e {
        OrganizationError::Database(s) => "Organization error: "@ + s@,
        OrganizationError::Network(s) => "Network error: "@ + s@,
        OrganizationError::NotInitialized => "Organization service not initialized"@,
    }
}

impl OrganizationError {
    /// The text this error displays.
    pub fn message(&self) -> (r: String)
        ensures
            r@ == organization_error_text(*self),
    {
        match self {
            OrganizationError::Database(s) => concat("Organization error: ", s.as_str()),
            OrganizationError::Network(s) => concat("Network error: ", s.as_str()),
            OrganizationError::NotInitialized => owned("Organization service not initialized"),
        }
    }
}

} // verus!

verus! {

/// Counts of an RFP lead import.
#[derive(Debug, Clone, Copy, PartialEq, Eq)]
pub struct RfpImportResult {
    pub imported: i32,
    pub skipped: i32,
    pub failed: i32,
}


/// Stage of a sales prospect, in pipeline order.
#[derive(Debug, Clone, Copy, PartialEq, Eq, Structural)]
pub enum ProspectStage {
    Lead,
    Qualified,
    Contacted,
    Proposal,
    Negotiation,
    Won,
    Lost,
}

/// An organization (a client or a lead's company).
#[derive(Debug, Clone, PartialEq, Eq)]
pub struct Organization {
    pub id: String,
    pub name: String,
    pub description: Option<String>,
    pub website: Option<String>,
    pub contact_name: Option<String>,
    pub contact_email: Option<String>,
    pub contact_phone: Option<String>,
    pub contact_role: Option<String>,
    pub created_at: String,
    pub updated_at: String,
}

/// A sales prospect of an organization.
#[derive(Debug, Clone, PartialEq, Eq)]
pub struct Prospect {
    pub id: String,
    pub organization_id: String,
    pub name: String,
    pub description: Option<String>,
    pub stage: ProspectStage,
    pub value: Option<String>,
    pub contact_name: Option<String>,
    pub contact_email: Option<String>,
    pub contact_role: Option<String>,
    pub source_url: Option<String>,
    pub closing_date: Option<String>,
    pub created_at: String,
    pub updated_at: String,
}

/// Messages sent from asynchronous organization operations back to the UI thread.
#[derive(Debug)]
pub enum OrganizationServiceMessage {
    OrganizationsLoaded(Result<Vec<Organization>, OrganizationError>),
    ProspectsLoaded(Result<Vec<Prospect>, OrganizationError>),
    ProspectStageUpdated(Result<(), OrganizationError>),
    LinkedProjectsLoaded(Result<Vec<String>, OrganizationError>),
    /// Result of an RFP lead import: its counts and the organization's
    /// prospects after it.
    RfpImportDone(Result<(RfpImportResult, Vec<Prospect>), OrganizationError>),
}

/// The RFP metadata of a search hit.
#[derive(Debug, Clone, PartialEq, Eq)]
pub struct RfpMetadata {
    pub title: Option<String>,
    pub closing_date: Option<String>,
    pub organization_name: Option<String>,
    pub contact_email: Option<String>,
}

/// A hit of the RFP search.
#[derive(Debug, Clone, PartialEq, Eq)]
pub struct RfpHit {
    pub id: String,
    pub title: String,
    pub url: String,
    pub snippet: Option<String>,
    pub rfp: Option<RfpMetadata>,
}

/// Whether `s` parses as an absolute URL, as `url::Url::parse` reads it.
pub uninterp spec fn url_parses(s: Seq<char>) -> bool;

/// Whether `s` is a valid absolute URL.
///
/// Calls `url::Url::parse`; whether it succeeds depends on the text alone.
#[verifier::external_body]
pub(crate) fn url_is_valid(s: &str) -> (r: bool)
    ensures
        r == url_parses(s@),
{
    url::Url::parse(s).is_ok()
}

/// `Some(s)` for a non-empty text, `None` for an empty one.
pub open spec fn non_empty(s: Seq<char>) -> Option<Seq<char>> {
    if s.len() == 0 { None } else { Some(s) }
}

/// The text of an optional string, empty when absent.
pub open spec fn or_empty(o: Option<String>) -> Seq<char> {
    match o {
        Some(s) => s@,
        None => Seq::empty(),
    }
}

/// The name of the prospect made from a hit: the RFP title when there is a
/// non-empty one, else the hit's title.
pub open spec fn hit_name(hit: RfpHit) -> Seq<char> {
    match hit.rfp {
        Some(r) => match r.title {
            Some(t) => if t@.len() > 0 { t@ } else { hit.title@ },
            None => hit.title@,
        },
        None => hit.title@,
    }
}

/// `p` is the Lead-stage prospect of organization `org_id` made at `now`
/// from `hit`, where `rfp_description` and `budget` are the description
/// and budget text derived from the hit's RFP metadata.
pub open spec fn prospect_of_hit(p: Prospect, org_id: Seq<char>, hit: RfpHit, rfp_description: Seq<char>, budget: Seq<char>, now: Seq<char>) -> bool {
    &&& p.id@ == "nc-"@ + hit.id@
    &&& p.organization_id@ == org_id
    &&& p.name@ == hit_name(hit)
    &&& opt_view(p.description) == non_empty(match hit.rfp {
        Some(_) => rfp_description,
        None => or_empty(hit.snippet),
    })
    &&& p.stage == ProspectStage::Lead
    &&& opt_view(p.value) == non_empty(match hit.rfp {
        Some(_) => budget,
        None => Seq::empty(),
    })
    &&& opt_view(p.contact_name) == non_empty(match hit.rfp {
        Some(r) => or_empty(r.organization_name),
        None => Seq::empty(),
    })
    &&& opt_view(p.contact_email) == non_empty(match hit.rfp {
        Some(r) => or_empty(r.contact_email),
        None => Seq::empty(),
    })
    &&& p.contact_role is None
    &&& opt_view(p.source_url) == (if url_parses(hit.url@) { Some(hit.url@) } else { None })
    &&& opt_view(p.closing_date) == match hit.rfp {
        Some(r) => match r.closing_date {
            Some(d) => iso_date_text(d@),
            None => None,
        },
        None => None,
    }
    &&& p.created_at@ == now
    &&& p.updated_at@ == now
}

/// A copy of an optional string.
fn copy_opt(o: &Option<String>) -> (r: String)
    ensures
        r@ == or_empty(*o),
{
    match o {
        Some(s) => owned(s.as_str()),
        None => String::new(),
    }
}

/// `Some` of a non-empty text, `None` for an empty one.
fn some_if_non_empty(s: String) -> (r: Option<String>)
    ensures
        opt_view(r) == non_empty(s@),
{
    if s.as_str().unicode_len() == 0 { None } else { Some(s) }
}

/// The prospect an RFP search hit becomes: a Lead of `org_id` created at
/// `now`.  `rfp_description` and `budget` are the description and budget
/// text derived from the hit's RFP metadata (unused without it).  Also
/// returns whether the hit had no RFP metadata and so counts as skipped.
pub fn prospect_from_hit(org_id: &str, hit: &RfpHit, rfp_description: &str, budget: &str, now: &str) -> (r: (Prospect, bool))
    ensures
        prospect_of_hit(r.0, org_id@, *hit, rfp_description@, budget@, now@),
        r.1 == hit.rfp is None,
{
    let name = match &hit.rfp {
        Some(rfp) => match &rfp.title {
            Some(t) => if t.as_str().unicode_len() > 0 { owned(t.as_str()) } else { owned(hit.title.as_str()) },
            None => owned(hit.title.as_str()),
        },
        None => owned(hit.title.as_str()),
    };
    let (description, skipped) = match &hit.rfp {
        Some(_) => (owned(rfp_description), false),
        None => (copy_opt(&hit.snippet), true),
    };
    let source_url = if url_is_valid(hit.url.as_str()) { Some(owned(hit.url.as_str())) } else { None };
    let closing_date = match &hit.rfp {
        Some(rfp) => match &rfp.closing_date {
            Some(d) => normalize_iso_date(d.as_str()),
            None => None,
        },
        None => None,
    };
    let (value, contact_name, contact_email) = match &hit.rfp {
        Some(rfp) => (owned(budget), copy_opt(&rfp.organization_name), copy_opt(&rfp.contact_email)),
        None => (String::new(), String::new(), String::new()),
    };
    let p = Prospect {
        id: concat("nc-", hit.id.as_str()),
        organization_id: owned(org_id),
        name,
        description: some_if_non_empty(description),
        stage: ProspectStage::Lead,
        value: some_if_non_empty(value),
        contact_name: some_if_non_empty(contact_name),
        contact_email: some_if_non_empty(contact_email),
        contact_role: None,
        source_url,
        closing_date,
        created_at: owned(now),
        updated_at: owned(now),
    };
    (p, skipped)
}

/// The prospects an import stores, one per search hit and in the hits'
/// order: the prospect the hit becomes (with the description and budget
/// text derived from its RFP metadata, `derived[i]` for `hits[i]`) and
/// whether the hit counts as skipped.
pub fn prospects_from_hits(org_id: &str, hits: &Vec<RfpHit>, derived: &Vec<(String, String)>, now: &str) -> (r: Vec<(Prospect, bool)>)
    requires
        derived@.len() == hits@.len(),
    ensures
        r@.len() == hits@.len(),
        forall|i: int| 0 <= i < hits@.len() ==> {
            &&& prospect_of_hit((#[trigger] r@[i]).0, org_id@, hits@[i], derived@[i].0@, derived@[i].1@, now@)
            &&& r@[i].1 == (hits@[i].rfp is None)
        },
{
    let mut out: Vec<(Prospect, bool)> = Vec::new();
    let mut i: usize = 0;
    while i < hits.len()
        invariant
            i <= hits@.len(),
            derived@.len() == hits@.len(),
            out@.len() == i,
            forall|k: int| 0 <= k < i ==> {
                &&& prospect_of_hit((#[trigger] out@[k]).0, org_id@, hits@[k], derived@[k].0@, derived@[k].1@, now@)
                &&& out@[k].1 == (hits@[k].rfp is None)
            },
        decreases hits@.len() - i,
    {
        let pair = prospect_from_hit(org_id, &hits[i], derived[i].0.as_str(), derived[i].1.as_str(), now);
        out.push(pair);
        i = i + 1;
    }
    out
}

/// The outcome of each hit of an import, as `tally_rfp_import` counts them:
/// whether it was skipped (from the planned prospects) and whether storing
/// its prospect succeeded (`stored[i]` for the `i`-th).
pub fn import_outcomes(planned: &Vec<(Prospect, bool)>, stored: &Vec<bool>) -> (r: Vec<(bool, bool)>)
    requires
        stored@.len() == planned@.len(),
    ensures
        r@.len() == planned@.len(),
        forall|i: int| 0 <= i < planned@.len() ==> #[trigger] r@[i] == (planned@[i].1, stored@[i]),
{
    let mut out: Vec<(bool, bool)> = Vec::new();
    let mut i: usize = 0;
    while i < planned.len()
        invariant
            i <= planned@.len(),
            stored@.len() == planned@.len(),
            out@.len() == i,
            forall|k: int| 0 <= k < i ==> #[trigger] out@[k] == (planned@[k].1, stored@[k]),
        decreases planned@.len() - i,
    {
        out.push((planned[i].1, stored[i]));
        i = i + 1;
    }
    out
}

/// How many of the outcomes satisfy `f`.
pub open spec fn count_where(s: Seq<(bool, bool)>, f: spec_fn((bool, bool)) -> bool) -> int
    decreases s.len(),
{
    if s.len() == 0 {
        0
    } else {
        count_where(s.drop_last(), f) + if f(s.last()) { 1int } else { 0int }
    }
}

proof fn lemma_count_where_bounded(s: Seq<(bool, bool)>, f: spec_fn((bool, bool)) -> bool)
    ensures
        0 <= count_where(s, f) <= s.len(),
    decreases s.len(),
{
    if s.len() > 0 {
        lemma_count_where_bounded(s.drop_last(), f);
    }
}

/// The counts of an import from the outcome of each hit: whether it had no
/// RFP metadata (skipped; it is still stored) and whether storing it
/// succeeded (imported) or failed.
pub fn tally_rfp_import(outcomes: &Vec<(bool, bool)>) -> (r: RfpImportResult)
    requires
        outcomes@.len() <= i32::MAX,
    ensures
        r.skipped == count_where(outcomes@, |o: (bool, bool)| o.0),
        r.imported == count_where(outcomes@, |o: (bool, bool)| o.1),
        r.failed == count_where(outcomes@, |o: (bool, bool)| !o.1),
        r.imported + r.failed == outcomes@.len(),
        r.skipped <= outcomes@.len(),
{
    proof {
        law_import_counts_cover_every_hit(outcomes@);
    }
    let mut r = RfpImportResult { imported: 0, skipped: 0, failed: 0 };
    let mut i: usize = 0;
    while i < outcomes.len()
        invariant
            i <= outcomes@.len() <= i32::MAX,
            count_where(outcomes@, |o: (bool, bool)| o.1) + count_where(outcomes@, |o: (bool, bool)| !o.1) == outcomes@.len(),
            0 <= count_where(outcomes@, |o: (bool, bool)| o.0) <= outcomes@.len(),
            r.skipped == count_where(outcomes@.subrange(0, i as int), |o: (bool, bool)| o.0),
            r.imported == count_where(outcomes@.subrange(0, i as int), |o: (bool, bool)| o.1),
            r.failed == count_where(outcomes@.subrange(0, i as int), |o: (bool, bool)| !o.1),
        decreases outcomes@.len() - i,
    {
        let ghost pre = outcomes@.subrange(0, i as int);
        proof {
            lemma_count_where_bounded(pre, |o: (bool, bool)| o.0);
            lemma_count_where_bounded(pre, |o: (bool, bool)| o.1);
            lemma_count_where_bounded(pre, |o: (bool, bool)| !o.1);
            assert(outcomes@.subrange(0, i + 1).drop_last() =~= pre);
        }
        let (skipped, stored) = outcomes[i];
        if skipped {
            r.skipped = r.skipped + 1;
        }
        if stored {
            r.imported = r.imported + 1;
        } else {
            r.failed = r.failed + 1;
        }
        i = i + 1;
    }
    assert(outcomes@.subrange(0, outcomes@.len() as int) =~= outcomes@);
    r
}

/// The result of an import once the organization's prospects are listed
/// again: the counts with the prospects, or the listing's failure as a
/// database error.
pub fn finish_rfp_import(counts: RfpImportResult, listing: Result<Vec<Prospect>, String>) -> (r: Result<(RfpImportResult, Vec<Prospect>), OrganizationError>)
    ensures
        match listing {
            Ok(ps) => r == Ok::<(RfpImportResult, Vec<Prospect>), OrganizationError>((counts, ps)),
            Err(e) => r == Err::<(RfpImportResult, Vec<Prospect>), OrganizationError>(OrganizationError::Database(e)),
        },
{
    match listing {
        Ok(ps) => Ok((counts, ps)),
        Err(e) => Err(OrganizationError::Database(e)),
    }
}

/// Every hit of an import is counted exactly once as imported or failed,
/// and no more hits are skipped than there are.
pub proof fn law_import_counts_cover_every_hit(outcomes: Seq<(bool, bool)>)
    ensures
        count_where(outcomes, |o: (bool, bool)| o.1) + count_where(outcomes, |o: (bool, bool)| !o.1)
            == outcomes.len(),
        0 <= count_where(outcomes, |o: (bool, bool)| o.0) <= outcomes.len(),
    decreases outcomes.len(),
{
    lemma_count_where_bounded(outcomes, |o: (bool, bool)| o.0);
    if outcomes.len() > 0 {
        law_import_counts_cover_every_hit(outcomes.drop_last());
    }
}

} // verus!
