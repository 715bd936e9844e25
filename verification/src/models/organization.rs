use vstd::prelude::*;
use vstd::string::StrSliceExecFns;

use crate::models::project::shows;
use crate::models::{valid_index, UiMessage};
use crate::services::organization::{
    Organization, OrganizationServiceMessage, ProspectStage,
};
use crate::stamp::{is_rfc3339_timestamp, is_v4_uuid_text, new_uuid_v4, now_rfc3339};
use crate::text::{concat, decimal_text, i64_to_string, opt_string, opt_view, optional_text, owned, trim, trim_spec};

verus! {

/// Number of prospects of an organization in each stage.
#[derive(Debug, Clone, Copy, PartialEq, Eq, Structural)]
pub struct ProspectCounts {
    pub lead: i32,
    pub qualified: i32,
    pub contacted: i32,
    pub proposal: i32,
    pub negotiation: i32,
    pub won: i32,
    pub lost: i32,
}

/// No prospect in any stage.
pub open spec fn no_prospects() -> ProspectCounts {
    ProspectCounts { lead: 0, qualified: 0, contacted: 0, proposal: 0, negotiation: 0, won: 0, lost: 0 }
}

/// `c` with the count of `stage` set to `n`.
pub open spec fn with_stage_count(c: ProspectCounts, stage: ProspectStage, n: i32) -> ProspectCounts {
    match stage {
        ProspectStage::Lead => ProspectCounts { lead: n, ..c },
        ProspectStage::Qualified => ProspectCounts { qualified: n, ..c },
        ProspectStage::Contacted => ProspectCounts { contacted: n, ..c },
        ProspectStage::Proposal => ProspectCounts { proposal: n, ..c },
        ProspectStage::Negotiation => ProspectCounts { negotiation: n, ..c },
        ProspectStage::Won => ProspectCounts { won: n, ..c },
        ProspectStage::Lost => ProspectCounts { lost: n, ..c },
    }
}

/// The counts read from `(stage, count)` pairs, starting from zero; a stage
/// listed twice keeps its last count.
pub open spec fn stage_counts_from(s: Seq<(ProspectStage, i32)>) -> ProspectCounts
    decreases s.len(),
{
    if s.len() == 0 {
        no_prospects()
    } else {
        with_stage_count(stage_counts_from(s.drop_last()), s.last().0, s.last().1)
    }
}

/// The number of prospects over all stages.
pub open spec fn prospect_total(c: ProspectCounts) -> int {
    c.lead + c.qualified + c.contacted + c.proposal + c.negotiation + c.won + c.lost
}

/// The total fits in an `i32` (summing the counts does not overflow).
pub open spec fn total_fits(c: ProspectCounts) -> bool {
    &&& i32::MIN <= c.lead + c.qualified <= i32::MAX
    &&& i32::MIN <= c.lead + c.qualified + c.contacted <= i32::MAX
    &&& i32::MIN <= c.lead + c.qualified + c.contacted + c.proposal <= i32::MAX
    &&& i32::MIN <= c.lead + c.qualified + c.contacted + c.proposal + c.negotiation <= i32::MAX
    &&& i32::MIN <= c.lead + c.qualified + c.contacted + c.proposal + c.negotiation + c.won <= i32::MAX
    &&& i32::MIN <= prospect_total(c) <= i32::MAX
}

/// The JSON object of the counts with their total.
pub open spec fn prospect_counts_json(c: ProspectCounts) -> Seq<char> {
    "{\"lead\":"@ + decimal_text(c.lead as int)
        + ",\"qualified\":"@ + decimal_text(c.qualified as int)
        + ",\"contacted\":"@ + decimal_text(c.contacted as int)
        + ",\"proposal\":"@ + decimal_text(c.proposal as int)
        + ",\"negotiation\":"@ + decimal_text(c.negotiation as int)
        + ",\"won\":"@ + decimal_text(c.won as int)
        + ",\"lost\":"@ + decimal_text(c.lost as int)
        + ",\"total\":"@ + decimal_text(prospect_total(c)) + "}"@
}

impl ProspectCounts {
    /// No prospect in any stage.
    pub fn zero() -> (r: Self)
        ensures
            r == no_prospects(),
    {
        ProspectCounts { lead: 0, qualified: 0, contacted: 0, proposal: 0, negotiation: 0, won: 0, lost: 0 }
    }

    /// The counts read from `(stage, count)` pairs, as the store reports them.
    pub fn from_stage_counts(counts: &[(ProspectStage, i32)]) -> (r: Self)
        ensures
            r == stage_counts_from(counts@),
    {
        let mut r = ProspectCounts::zero();
        let mut i: usize = 0;
        while i < counts.len()
            invariant
                i <= counts@.len(),
                r == stage_counts_from(counts@.subrange(0, i as int)),
            decreases counts@.len() - i,
        {
            let (stage, n) = counts[i];
            match stage {
                ProspectStage::Lead => r.lead = n,
                ProspectStage::Qualified => r.qualified = n,
                ProspectStage::Contacted => r.contacted = n,
                ProspectStage::Proposal => r.proposal = n,
                ProspectStage::Negotiation => r.negotiation = n,
                ProspectStage::Won => r.won = n,
                ProspectStage::Lost => r.lost = n,
            }
            assert(counts@.subrange(0, i + 1).drop_last() =~= counts@.subrange(0, i as int));
            i = i + 1;
        }
        assert(counts@.subrange(0, counts@.len() as int) =~= counts@);
        r
    }

    /// The number of prospects over all stages.
    pub fn total(&self) -> (r: i32)
        requires
            total_fits(*self),
        ensures
            r == prospect_total(*self),
    {
        self.lead + self.qualified + self.contacted + self.proposal + self.negotiation + self.won + self.lost
    }

    /// The counts and their total as a JSON object.
    pub fn to_json(&self) -> (r: String)
        requires
            total_fits(*self),
        ensures
            r@ == prospect_counts_json(*self),
    {
        let mut s = owned("{\"lead\":");
        s = concat(s.as_str(), i64_to_string(self.lead as i64).as_str());
        s = concat(s.as_str(), ",\"qualified\":");
        s = concat(s.as_str(), i64_to_string(self.qualified as i64).as_str());
        s = concat(s.as_str(), ",\"contacted\":");
        s = concat(s.as_str(), i64_to_string(self.contacted as i64).as_str());
        s = concat(s.as_str(), ",\"proposal\":");
        s = concat(s.as_str(), i64_to_string(self.proposal as i64).as_str());
        s = concat(s.as_str(), ",\"negotiation\":");
        s = concat(s.as_str(), i64_to_string(self.negotiation as i64).as_str());
        s = concat(s.as_str(), ",\"won\":");
        s = concat(s.as_str(), i64_to_string(self.won as i64).as_str());
        s = concat(s.as_str(), ",\"lost\":");
        s = concat(s.as_str(), i64_to_string(self.lost as i64).as_str());
        s = concat(s.as_str(), ",\"total\":");
        s = concat(s.as_str(), i64_to_string(self.total() as i64).as_str());
        concat(s.as_str(), "}")
    }
}

/// What an organization model step asks of the caller.
#[derive(Debug, Clone, Copy, PartialEq, Eq, Structural)]
pub struct OrgEffect {
    /// The prospect counts are to be reloaded from the store.
    pub reload_counts: bool,
    pub organizations_changed: bool,
}

/// The fields of an organization as the form hands them over.
#[derive(Debug, Clone)]
pub struct OrganizationForm {
    pub name: String,
    pub description: String,
    pub website: String,
    pub contact_name: String,
    pub contact_email: String,
    pub contact_phone: String,
    pub contact_role: String,
}

/// `org` holds the form's fields: the trimmed name, and each optional field
/// trimmed and absent when blank.
pub open spec fn holds_form(org: Organization, form: OrganizationForm) -> bool {
    &&& org.name@ == trim_spec(form.name@)
    &&& opt_view(org.description) == optional_text(form.description@)
    &&& opt_view(org.website) == optional_text(form.website@)
    &&& opt_view(org.contact_name) == optional_text(form.contact_name@)
    &&& opt_view(org.contact_email) == optional_text(form.contact_email@)
    &&& opt_view(org.contact_phone) == optional_text(form.contact_phone@)
    &&& opt_view(org.contact_role) == optional_text(form.contact_role@)
}

/// State of the organization list.
#[derive(Debug, Clone)]
pub struct OrganizationModel {
    pub loading: bool,
    pub error_message: UiMessage,
    pub organizations: Vec<Organization>,
    /// Prospect counts of each organization, in the order of
    /// `organizations`; `None` where the store could not count them.
    pub counts: Vec<Option<ProspectCounts>>,
    /// Whether the organization store is attached.
    pub has_store: bool,
}

/// The model after attaching the store on first use.
pub open spec fn org_initialized(old: OrganizationModel, store_available: bool) -> OrganizationModel {
    if old.has_store { old } else { OrganizationModel { has_store: store_available, ..old } }
}

/// The organization built from `form`, with the given id and timestamps.
fn organization_from(form: &OrganizationForm, id: String, created_at: String, updated_at: String) -> (r: Organization)
    requires
        trim_spec(form.name@).len() > 0,
    ensures
        holds_form(r, *form),
        r.id == id,
        r.created_at == created_at,
        r.updated_at == updated_at,
{
    Organization {
        id,
        name: owned(trim(form.name.as_str())),
        description: opt_string(form.description.as_str()),
        website: opt_string(form.website.as_str()),
        contact_name: opt_string(form.contact_name.as_str()),
        contact_email: opt_string(form.contact_email.as_str()),
        contact_phone: opt_string(form.contact_phone.as_str()),
        contact_role: opt_string(form.contact_role.as_str()),
        created_at,
        updated_at,
    }
}

impl OrganizationModel {
    /// Every organization has its slot of prospect counts.
    pub open spec fn well_formed(&self) -> bool {
        self.counts@.len() == self.organizations@.len()
    }

    /// An empty model.
    pub fn new() -> (r: Self)
        ensures
            r.well_formed(),
            !r.loading && !r.has_store,
            r.error_message == UiMessage::Empty,
            r.organizations@.len() == 0,
    {
        OrganizationModel {
            loading: false,
            error_message: UiMessage::Empty,
            organizations: Vec::new(),
            counts: Vec::new(),
            has_store: false,
        }
    }

    /// Attach the store on first use, if the services offer one.
    pub fn ensure_initialized(&mut self, store_available: bool)
        ensures
            *final(self) == org_initialized(*old(self), store_available),
    {
        if !self.has_store {
            self.has_store = store_available;
        }
    }

    /// The organization at `index`, if the index is valid.
    pub fn get_org(&self, index: i32) -> (r: Option<&Organization>)
        ensures
            valid_index(index, self.organizations@.len()) ==> r == Some(&self.organizations@[index as int]),
            !valid_index(index, self.organizations@.len()) ==> r is None,
    {
        if index < 0 || index as usize >= self.organizations.len() {
            None
        } else {
            Some(&self.organizations[index as usize])
        }
    }

    /// Load the organizations listed by the store (`listing`, consulted only
    /// when a store is attached; `Err` carries the error's user message).
    pub fn fetch_organizations(&mut self, store_available: bool, listing: Result<Vec<Organization>, String>) -> (e: OrgEffect)
        requires
            old(self).well_formed(),
        ensures
            final(self).well_formed(),
            ({
                let m = org_initialized(*old(self), store_available);
                if !m.has_store {
                    &&& shows(final(self).error_message, "Organization store not initialized"@)
                    &&& *final(self) == (OrganizationModel { error_message: final(self).error_message, ..m })
                    &&& e == (OrgEffect { reload_counts: false, organizations_changed: false })
                } else {
                    match listing {
                        Ok(orgs) => {
                            &&& final(self).organizations@ == orgs@
                            &&& forall|i: int| 0 <= i < final(self).counts@.len() ==> #[trigger] final(self).counts@[i] is None
                            &&& *final(self) == (OrganizationModel {
                                loading: false,
                                error_message: UiMessage::Empty,
                                organizations: final(self).organizations,
                                counts: final(self).counts,
                                ..m
                            })
                            &&& e == (OrgEffect { reload_counts: true, organizations_changed: true })
                        },
                        Err(msg) => {
                            &&& shows(final(self).error_message, msg@)
                            &&& *final(self) == (OrganizationModel { loading: false, error_message: final(self).error_message, ..m })
                            &&& e == (OrgEffect { reload_counts: false, organizations_changed: false })
                        },
                    }
                }
            }),
    {
        self.ensure_initialized(store_available);
        if !self.has_store {
            self.error_message = UiMessage::Text(owned("Organization store not initialized"));
            return OrgEffect { reload_counts: false, organizations_changed: false };
        }
        self.loading = true;
        self.error_message = UiMessage::Empty;
        match listing {
            Ok(orgs) => {
                let n = orgs.len();
                let mut counts: Vec<Option<ProspectCounts>> = Vec::new();
                let mut i: usize = 0;
                while i < n
                    invariant
                        i <= n,
                        counts@.len() == i,
                        forall|k: int| 0 <= k < i ==> #[trigger] counts@[k] is None,
                    decreases n - i,
                {
                    counts.push(None);
                    i = i + 1;
                }
                self.organizations = orgs;
                self.counts = counts;
                self.loading = false;
                OrgEffect { reload_counts: true, organizations_changed: true }
            },
            Err(msg) => {
                self.error_message = UiMessage::Text(msg);
                self.loading = false;
                OrgEffect { reload_counts: false, organizations_changed: false }
            },
        }
    }

    /// Replace the prospect counts with what the store reports for each
    /// organization (`Err` where it could not count them).  Without a store
    /// nothing changes.
    pub fn load_prospect_counts(&mut self, per: Vec<Result<Vec<(ProspectStage, i32)>, String>>)
        requires
            old(self).well_formed(),
        ensures
            final(self).well_formed(),
            !old(self).has_store ==> *final(self) == *old(self),
            old(self).has_store ==> {
                &&& *final(self) == (OrganizationModel { counts: final(self).counts, ..*old(self) })
                &&& forall|i: int| 0 <= i < final(self).counts@.len() ==> #[trigger] final(self).counts@[i] == (
                    if i < per@.len() && per@[i] is Ok {
                        Some(stage_counts_from(per@[i]->Ok_0@))
                    } else {
                        None
                    })
            },
    {
        if !self.has_store {
            return;
        }
        let n = self.organizations.len();
        let mut out: Vec<Option<ProspectCounts>> = Vec::new();
        let mut i: usize = 0;
        while i < n
            invariant
                n == self.organizations@.len(),
                i <= n,
                out@.len() == i,
                forall|k: int| 0 <= k < i ==> #[trigger] out@[k] == (if k < per@.len() && per@[k] is Ok {
                    Some(stage_counts_from(per@[k]->Ok_0@))
                } else {
                    None
                }),
            decreases n - i,
        {
            if i < per.len() {
                match &per[i] {
                    Ok(c) => out.push(Some(ProspectCounts::from_stage_counts(c.as_slice()))),
                    Err(_) => out.push(None),
                }
            } else {
                out.push(None);
            }
            i = i + 1;
        }
        self.counts = out;
    }

    /// Number of organizations.
    pub fn row_count(&self) -> (r: i32)
        ensures
            r == self.organizations@.len() as i32,
    {
        self.organizations.len() as i32
    }

    /// Id of the organization at `index`; empty for an invalid index.
    pub fn get_id(&self, index: i32) -> (r: String)
        ensures
            valid_index(index, self.organizations@.len()) ==> r@ == self.organizations@[index as int].id@,
            !valid_index(index, self.organizations@.len()) ==> r@.len() == 0,
    {
        match self.get_org(index) {
            Some(o) => owned(o.id.as_str()),
            None => String::new(),
        }
    }

    /// Name of the organization at `index`; empty for an invalid index.
    pub fn get_name(&self, index: i32) -> (r: String)
        ensures
            valid_index(index, self.organizations@.len()) ==> r@ == self.organizations@[index as int].name@,
            !valid_index(index, self.organizations@.len()) ==> r@.len() == 0,
    {
        match self.get_org(index) {
            Some(o) => owned(o.name.as_str()),
            None => String::new(),
        }
    }

    /// Description of the organization at `index`; empty when invalid or absent.
    pub fn get_description(&self, index: i32) -> (r: String)
        ensures
            valid_index(index, self.organizations@.len()) ==> (self.organizations@[index as int].description matches Some(d) ==> r@ == d@),
            !(valid_index(index, self.organizations@.len()) && self.organizations@[index as int].description is Some) ==> r@.len() == 0,
    {
        match self.get_org(index) {
            Some(o) => match &o.description {
                Some(d) => owned(d.as_str()),
                None => String::new(),
            },
            None => String::new(),
        }
    }

    /// Website of the organization at `index`; empty when invalid or absent.
    pub fn get_website(&self, index: i32) -> (r: String)
        ensures
            valid_index(index, self.organizations@.len()) ==> (self.organizations@[index as int].website matches Some(d) ==> r@ == d@),
            !(valid_index(index, self.organizations@.len()) && self.organizations@[index as int].website is Some) ==> r@.len() == 0,
    {
        match self.get_org(index) {
            Some(o) => match &o.website {
                Some(d) => owned(d.as_str()),
                None => String::new(),
            },
            None => String::new(),
        }
    }

    /// Contact name of the organization at `index`; empty when invalid or absent.
    pub fn get_contact_name(&self, index: i32) -> (r: String)
        ensures
            valid_index(index, self.organizations@.len()) ==> (self.organizations@[index as int].contact_name matches Some(d) ==> r@ == d@),
            !(valid_index(index, self.organizations@.len()) && self.organizations@[index as int].contact_name is Some) ==> r@.len() == 0,
    {
        match self.get_org(index) {
            Some(o) => match &o.contact_name {
                Some(d) => owned(d.as_str()),
                None => String::new(),
            },
            None => String::new(),
        }
    }

    /// Contact e-mail of the organization at `index`; empty when invalid or absent.
    pub fn get_contact_email(&self, index: i32) -> (r: String)
        ensures
            valid_index(index, self.organizations@.len()) ==> (self.organizations@[index as int].contact_email matches Some(d) ==> r@ == d@),
            !(valid_index(index, self.organizations@.len()) && self.organizations@[index as int].contact_email is Some) ==> r@.len() == 0,
    {
        match self.get_org(index) {
            Some(o) => match &o.contact_email {
                Some(d) => owned(d.as_str()),
                None => String::new(),
            },
            None => String::new(),
        }
    }

    /// The prospect counts of the organization at `index` as JSON; all zero
    /// for an invalid index or unknown counts.
    pub fn get_prospect_counts(&self, index: i32) -> (r: String)
        requires
            self.well_formed(),
            valid_index(index, self.organizations@.len()) ==> (self.counts@[index as int] matches Some(c) ==> total_fits(c)),
        ensures
            valid_index(index, self.organizations@.len()) ==> (self.counts@[index as int] matches Some(c) ==> r@ == prospect_counts_json(c)),
            !(valid_index(index, self.organizations@.len()) && self.counts@[index as int] is Some) ==> r@ == prospect_counts_json(no_prospects()),
    {
        if index < 0 || index as usize >= self.organizations.len() {
            return ProspectCounts::zero().to_json();
        }
        match self.counts[index as usize] {
            Some(c) => c.to_json(),
            None => ProspectCounts::zero().to_json(),
        }
    }

    /// Check a new organization and make the record to store: a fresh id,
    /// the form's fields and the current time as both timestamps.  Returns
    /// `None` with the reason in the error message when the name is blank or
    /// there is no store.
    pub fn create_organization(&mut self, form: &OrganizationForm, store_available: bool) -> (r: Option<Organization>)
        ensures
            ({
                let m = org_initialized(*old(self), store_available);
                if trim_spec(form.name@).len() == 0 {
                    &&& r is None
                    &&& shows(final(self).error_message, "Organization name cannot be empty"@)
                    &&& *final(self) == (OrganizationModel { error_message: final(self).error_message, ..m })
                } else if !m.has_store {
                    &&& r is None
                    &&& shows(final(self).error_message, "Organization store not initialized"@)
                    &&& *final(self) == (OrganizationModel { error_message: final(self).error_message, ..m })
                } else {
                    &&& *final(self) == m
                    &&& r matches Some(org) && holds_form(org, *form) && org.id@.len() == 36 && org.created_at@ == org.updated_at@
                        && is_v4_uuid_text(org.id@) && is_rfc3339_timestamp(org.created_at@)
                }
            }),
    {
        self.ensure_initialized(store_available);
        if trim(form.name.as_str()).unicode_len() == 0 {
            self.error_message = UiMessage::Text(owned("Organization name cannot be empty"));
            return None;
        }
        if !self.has_store {
            self.error_message = UiMessage::Text(owned("Organization store not initialized"));
            return None;
        }
        let now = now_rfc3339();
        let created = owned(now.as_str());
        Some(organization_from(form, new_uuid_v4(), created, now))
    }

    /// Apply the store's answer to saving a new organization (`Err` carries
    /// the error's user message): on success it is listed with zero counts.
    pub fn organization_created(&mut self, org: Organization, result: Result<(), String>) -> (e: OrgEffect)
        requires
            old(self).well_formed(),
        ensures
            final(self).well_formed(),
            match result {
                Ok(()) => {
                    &&& final(self).organizations@ == old(self).organizations@.push(org)
                    &&& final(self).counts@ == old(self).counts@.push(Some(no_prospects()))
                    &&& *final(self) == (OrganizationModel { organizations: final(self).organizations, counts: final(self).counts, ..*old(self) })
                    &&& e == (OrgEffect { reload_counts: false, organizations_changed: true })
                },
                Err(msg) => {
                    &&& shows(final(self).error_message, msg@)
                    &&& *final(self) == (OrganizationModel { error_message: final(self).error_message, ..*old(self) })
                    &&& e == (OrgEffect { reload_counts: false, organizations_changed: false })
                },
            },
    {
        match result {
            Ok(()) => {
                self.organizations.push(org);
                self.counts.push(Some(ProspectCounts::zero()));
                OrgEffect { reload_counts: false, organizations_changed: true }
            },
            Err(msg) => {
                self.error_message = UiMessage::Text(msg);
                OrgEffect { reload_counts: false, organizations_changed: false }
            },
        }
    }

    /// Check an edit of the organization at `index` and make the record to
    /// store: same id and creation time, the form's fields, and the current
    /// time as the update time.  Returns `None` with the reason in the error
    /// message for an invalid index, a missing store or a blank name (in
    /// that order of checking).
    pub fn update_organization(&mut self, index: i32, form: &OrganizationForm) -> (r: Option<Organization>)
        ensures
            if !valid_index(index, old(self).organizations@.len()) {
                &&& r is None
                &&& shows(final(self).error_message, "Organization not found"@)
                &&& *final(self) == (OrganizationModel { error_message: final(self).error_message, ..*old(self) })
            } else if !old(self).has_store {
                &&& r is None
                &&& shows(final(self).error_message, "Organization store not initialized"@)
                &&& *final(self) == (OrganizationModel { error_message: final(self).error_message, ..*old(self) })
            } else if trim_spec(form.name@).len() == 0 {
                &&& r is None
                &&& shows(final(self).error_message, "Organization name cannot be empty"@)
                &&& *final(self) == (OrganizationModel { error_message: final(self).error_message, ..*old(self) })
            } else {
                &&& *final(self) == *old(self)
                &&& r matches Some(org) && {
                    let before = old(self).organizations@[index as int];
                    &&& holds_form(org, *form)
                    &&& org.id@ == before.id@
                    &&& org.created_at@ == before.created_at@
                    &&& is_rfc3339_timestamp(org.updated_at@)
                }
            },
    {
        let (id, created_at) = match self.get_org(index) {
            Some(o) => (owned(o.id.as_str()), owned(o.created_at.as_str())),
            None => {
                self.error_message = UiMessage::Text(owned("Organization not found"));
                return None;
            },
        };
        if !self.has_store {
            self.error_message = UiMessage::Text(owned("Organization store not initialized"));
            return None;
        }
        if trim(form.name.as_str()).unicode_len() == 0 {
            self.error_message = UiMessage::Text(owned("Organization name cannot be empty"));
            return None;
        }
        Some(organization_from(form, id, created_at, now_rfc3339()))
    }

    /// Apply the store's answer to saving the edit of the organization at
    /// `index` (`Err` carries the error's user message).
    pub fn organization_updated(&mut self, index: i32, org: Organization, result: Result<(), String>) -> (e: OrgEffect)
        requires
            old(self).well_formed(),
            valid_index(index, old(self).organizations@.len()),
        ensures
            final(self).well_formed(),
            match result {
                Ok(()) => {
                    &&& final(self).organizations@ == old(self).organizations@.update(index as int, org)
                    &&& *final(self) == (OrganizationModel { organizations: final(self).organizations, ..*old(self) })
                    &&& e == (OrgEffect { reload_counts: false, organizations_changed: true })
                },
                Err(msg) => {
                    &&& shows(final(self).error_message, msg@)
                    &&& *final(self) == (OrganizationModel { error_message: final(self).error_message, ..*old(self) })
                    &&& e == (OrgEffect { reload_counts: false, organizations_changed: false })
                },
            },
    {
        match result {
            Ok(()) => {
                self.organizations.set(index as usize, org);
                OrgEffect { reload_counts: false, organizations_changed: true }
            },
            Err(msg) => {
                self.error_message = UiMessage::Text(msg);
                OrgEffect { reload_counts: false, organizations_changed: false }
            },
        }
    }

    /// Apply the store's answer to deleting the organization at `index`
    /// (`Err` carries the error's user message).  Without a valid index or
    /// a store nothing was asked and nothing changes.
    pub fn delete_organization(&mut self, index: i32, result: Result<(), String>) -> (e: OrgEffect)
        requires
            old(self).well_formed(),
        ensures
            final(self).well_formed(),
            !(old(self).has_store && valid_index(index, old(self).organizations@.len()))
                ==> *final(self) == *old(self) && e == (OrgEffect { reload_counts: false, organizations_changed: false }),
            old(self).has_store && valid_index(index, old(self).organizations@.len()) ==> match result {
                Ok(()) => {
                    &&& final(self).organizations@ == old(self).organizations@.remove(index as int)
                    &&& final(self).counts@ == old(self).counts@.remove(index as int)
                    &&& *final(self) == (OrganizationModel { organizations: final(self).organizations, counts: final(self).counts, ..*old(self) })
                    &&& e == (OrgEffect { reload_counts: false, organizations_changed: true })
                },
                Err(msg) => {
                    &&& shows(final(self).error_message, msg@)
                    &&& *final(self) == (OrganizationModel { error_message: final(self).error_message, ..*old(self) })
                    &&& e == (OrgEffect { reload_counts: false, organizations_changed: false })
                },
            },
    {
        let quiet = OrgEffect { reload_counts: false, organizations_changed: false };
        if !self.has_store || index < 0 || index as usize >= self.organizations.len() {
            return quiet;
        }
        match result {
            Ok(()) => {
                self.organizations.remove(index as usize);
                self.counts.remove(index as usize);
                OrgEffect { reload_counts: false, organizations_changed: true }
            },
            Err(msg) => {
                self.error_message = UiMessage::Text(msg);
                quiet
            },
        }
    }

    /// Receive a message from the organization channel.  Organization
    /// operations run synchronously against the local store, so any message
    /// is dropped and the model is unchanged.
    pub fn poll_channel(&self, msg: Option<OrganizationServiceMessage>) {
    }
}

} // verus!
