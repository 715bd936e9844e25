use vstd::prelude::*;
use vstd::string::StrSliceExecFns;

use crate::json::lists::{
    decode_json_string_body, plain_json_body, int_list_to_json, json_int_list, json_quoted, json_string_body,
    json_string_list, quote_json, string_list_to_json,
};
use crate::models::project::shows;
use crate::models::{valid_index, UiMessage};
use crate::services::organization::{
    organization_error_text, OrganizationError, OrganizationServiceMessage,
    Prospect, ProspectStage, RfpImportResult,
};
use crate::stamp::{new_uuid_v4, now_rfc3339};
use crate::text::{
    concat, concat3, decimal_text, i64_to_string, opt_string, opt_view, optional_text, owned, str_eq,
    trim, trim_spec,
};

verus! {

/// The name a stage is shown under.
pub open spec fn stage_display(s: ProspectStage) -> Seq<char> {
    match s {
        ProspectStage::Lead => "Lead"@,
        ProspectStage::Qualified => "Qualified"@,
        ProspectStage::Contacted => "Contacted"@,
        ProspectStage::Proposal => "Proposal"@,
        ProspectStage::Negotiation => "Negotiation"@,
        ProspectStage::Won => "Won"@,
        ProspectStage::Lost => "Lost"@,
    }
}

/// The name a stage is stored and exchanged under (its snake_case name).
pub open spec fn stage_key(s: ProspectStage) -> Seq<char> {
    match s {
        ProspectStage::Lead => "lead"@,
        ProspectStage::Qualified => "qualified"@,
        ProspectStage::Contacted => "contacted"@,
        ProspectStage::Proposal => "proposal"@,
        ProspectStage::Negotiation => "negotiation"@,
        ProspectStage::Won => "won"@,
        ProspectStage::Lost => "lost"@,
    }
}

/// The stage a stored name denotes.
pub open spec fn stage_of_key(k: Seq<char>) -> Option<ProspectStage> {
    if k == "lead"@ {
        Some(ProspectStage::Lead)
    } else if k == "qualified"@ {
        Some(ProspectStage::Qualified)
    } else if k == "contacted"@ {
        Some(ProspectStage::Contacted)
    } else if k == "proposal"@ {
        Some(ProspectStage::Proposal)
    } else if k == "negotiation"@ {
        Some(ProspectStage::Negotiation)
    } else if k == "won"@ {
        Some(ProspectStage::Won)
    } else if k == "lost"@ {
        Some(ProspectStage::Lost)
    } else {
        None
    }
}

/// The stage a stage string from the view denotes: the string is read as
/// the body of a JSON string, and anything that is not a stage name means
/// `Lead`.
pub open spec fn stage_of_text(s: Seq<char>) -> ProspectStage {
    match json_string_body(s) {
        Some(k) => match stage_of_key(k) {
            Some(st) => st,
            None => ProspectStage::Lead,
        },
        None => ProspectStage::Lead,
    }
}

impl ProspectStage {
    /// The name this stage is shown under.
    pub fn display_name(&self) -> (r: &'static str)
        ensures
            r@ == stage_display(*self),
    {
        proof {
            reveal_strlit("Lead");
            reveal_strlit("Qualified");
            reveal_strlit("Contacted");
            reveal_strlit("Proposal");
            reveal_strlit("Negotiation");
            reveal_strlit("Won");
            reveal_strlit("Lost");
        }
        match self {
            ProspectStage::Lead => "Lead",
            ProspectStage::Qualified => "Qualified",
            ProspectStage::Contacted => "Contacted",
            ProspectStage::Proposal => "Proposal",
            ProspectStage::Negotiation => "Negotiation",
            ProspectStage::Won => "Won",
            ProspectStage::Lost => "Lost",
        }
    }
}

/// The stage names hold no quote, backslash or control character.
proof fn lemma_stage_keys_plain(k: Seq<char>)
    requires
        stage_of_key(k) is Some,
    ensures
        plain_json_body(k),
{
    reveal_strlit("lead");
    reveal_strlit("qualified");
    reveal_strlit("contacted");
    reveal_strlit("proposal");
    reveal_strlit("negotiation");
    reveal_strlit("won");
    reveal_strlit("lost");
    assert forall|i: int| 0 <= i < k.len() implies #[trigger] k[i] != '"' && k[i] != '\\' && (k[i] as u32) >= 0x20 by {
        assert('a' <= k[i] <= 'z');
    }
}

/// The stage a stage string from the view denotes; unknown strings mean
/// `Lead`.  A stored stage name reads as its stage.
pub fn parse_stage(s: &str) -> (r: ProspectStage)
    ensures
        r == stage_of_text(s@),
        stage_of_key(s@) matches Some(st) ==> r == st,
{
    proof {
        if stage_of_key(s@) is Some {
            lemma_stage_keys_plain(s@);
        }
    }
    let k = match decode_json_string_body(s) {
        Some(k) => k,
        None => return ProspectStage::Lead,
    };
    let k = k.as_str();
    if str_eq(k, "lead") {
        ProspectStage::Lead
    } else if str_eq(k, "qualified") {
        ProspectStage::Qualified
    } else if str_eq(k, "contacted") {
        ProspectStage::Contacted
    } else if str_eq(k, "proposal") {
        ProspectStage::Proposal
    } else if str_eq(k, "negotiation") {
        ProspectStage::Negotiation
    } else if str_eq(k, "won") {
        ProspectStage::Won
    } else if str_eq(k, "lost") {
        ProspectStage::Lost
    } else {
        ProspectStage::Lead
    }
}

/// The positions, in order, of the prospects in stage `stage`.
pub open spec fn stage_positions(ps: Seq<Prospect>, stage: ProspectStage) -> Seq<i32>
    decreases ps.len(),
{
    if ps.len() == 0 {
        Seq::empty()
    } else {
        let rest = stage_positions(ps.drop_last(), stage);
        if ps.last().stage == stage {
            rest.push((ps.len() - 1) as i32)
        } else {
            rest
        }
    }
}

/// The JSON object reporting the counts of an import, with its keys in
/// alphabetical order.
pub open spec fn import_counts_json(c: RfpImportResult) -> Seq<char> {
    "{\"failed\":"@ + decimal_text(c.failed as int) + ",\"imported\":"@ + decimal_text(c.imported as int)
        + ",\"skipped\":"@ + decimal_text(c.skipped as int) + "}"@
}

/// The JSON object an import call answers with: the numbers of hits
/// imported and skipped.
pub open spec fn import_reply_json(c: RfpImportResult) -> Seq<char> {
    "{\"imported\":"@ + decimal_text(c.imported as int) + ",\"skipped\":"@ + decimal_text(c.skipped as int) + "}"@
}

/// The JSON object an import call answers with.
fn import_reply(c: RfpImportResult) -> (r: String)
    ensures
        r@ == import_reply_json(c),
{
    let mut s = owned("{\"imported\":");
    s = concat(s.as_str(), i64_to_string(c.imported as i64).as_str());
    s = concat(s.as_str(), ",\"skipped\":");
    s = concat(s.as_str(), i64_to_string(c.skipped as i64).as_str());
    concat(s.as_str(), "}")
}

/// The editable fields of a prospect as the form hands them over.
#[derive(Debug, Clone)]
pub struct ProspectForm {
    pub name: String,
    pub description: String,
    pub value: String,
    pub contact_name: String,
    pub contact_email: String,
    pub contact_role: String,
}

/// `p` holds the form's fields: the trimmed name, and each optional field
/// trimmed and absent when blank.
pub open spec fn holds_prospect_form(p: Prospect, form: ProspectForm) -> bool {
    &&& p.name@ == trim_spec(form.name@)
    &&& opt_view(p.description) == optional_text(form.description@)
    &&& opt_view(p.value) == optional_text(form.value@)
    &&& opt_view(p.contact_name) == optional_text(form.contact_name@)
    &&& opt_view(p.contact_email) == optional_text(form.contact_email@)
    &&& opt_view(p.contact_role) == optional_text(form.contact_role@)
}

/// `p` keeps what an edit does not touch from `before`: id, organization,
/// stage, source, closing date and creation time.
pub open spec fn keeps_record(p: Prospect, before: Prospect) -> bool {
    &&& p.id@ == before.id@
    &&& p.organization_id@ == before.organization_id@
    &&& p.stage == before.stage
    &&& opt_view(p.source_url) == opt_view(before.source_url)
    &&& opt_view(p.closing_date) == opt_view(before.closing_date)
    &&& p.created_at@ == before.created_at@
}

/// State of the prospect pipeline of one organization.
#[derive(Debug, Clone)]
pub struct ProspectModel {
    pub loading: bool,
    pub error_message: UiMessage,
    pub organization_id: String,
    /// JSON report of the last lead import.
    pub import_result: String,
    /// Bumped on every change, so that bindings re-read the list.
    pub prospect_revision: i32,
    pub prospects: Vec<Prospect>,
    /// Whether the organization store is attached.
    pub has_store: bool,
}

/// The model after attaching the store on first use.
pub open spec fn prospect_initialized(old: ProspectModel, store_available: bool) -> ProspectModel {
    if old.has_store { old } else { ProspectModel { has_store: store_available, ..old } }
}

/// `new` is `old` with its revision bumped (the `prospects_changed` signal).
pub open spec fn bumped(old: ProspectModel, new: ProspectModel) -> bool {
    new.prospect_revision == old.prospect_revision + 1
}

/// The prospect built from the form's fields, keeping what the form does
/// not edit from `base`.
fn prospect_from_form(form: &ProspectForm, base: Prospect, updated_at: String) -> (r: Prospect)
    requires
        trim_spec(form.name@).len() > 0,
    ensures
        holds_prospect_form(r, *form),
        r == (Prospect {
            name: r.name,
            description: r.description,
            value: r.value,
            contact_name: r.contact_name,
            contact_email: r.contact_email,
            contact_role: r.contact_role,
            updated_at,
            ..base
        }),
{
    Prospect {
        name: owned(trim(form.name.as_str())),
        description: opt_string(form.description.as_str()),
        value: opt_string(form.value.as_str()),
        contact_name: opt_string(form.contact_name.as_str()),
        contact_email: opt_string(form.contact_email.as_str()),
        contact_role: opt_string(form.contact_role.as_str()),
        updated_at,
        ..base
    }
}

impl ProspectModel {
    /// An empty model.
    pub fn new() -> (r: Self)
        ensures
            !r.loading && !r.has_store,
            r.error_message == UiMessage::Empty,
            r.organization_id@.len() == 0,
            r.import_result@.len() == 0,
            r.prospect_revision == 0,
            r.prospects@.len() == 0,
    {
        ProspectModel {
            loading: false,
            error_message: UiMessage::Empty,
            organization_id: String::new(),
            import_result: String::new(),
            prospect_revision: 0,
            prospects: Vec::new(),
            has_store: false,
        }
    }

    /// Attach the store on first use, if the services offer one.
    pub fn ensure_initialized(&mut self, store_available: bool)
        ensures
            *final(self) == prospect_initialized(*old(self), store_available),
    {
        if !self.has_store {
            self.has_store = store_available;
        }
    }

    /// Bump the revision counter: the list changed.
    fn notify_prospects_changed(&mut self)
        requires
            old(self).prospect_revision < i32::MAX,
        ensures
            *final(self) == (ProspectModel { prospect_revision: (old(self).prospect_revision + 1) as i32, ..*old(self) }),
    {
        self.prospect_revision = self.prospect_revision + 1;
    }

    /// Load the prospects of `organization_id` listed by the store
    /// (`listing`, consulted only with a store attached; `Err` carries the
    /// error's user message).  Returns whether the list changed.
    pub fn load_prospects(&mut self, organization_id: &str, store_available: bool, listing: Result<Vec<Prospect>, String>) -> (changed: bool)
        requires
            old(self).prospect_revision < i32::MAX,
        ensures
            final(self).organization_id@ == organization_id@,
            ({
                let m = ProspectModel { organization_id: final(self).organization_id, ..prospect_initialized(*old(self), store_available) };
                if !m.has_store {
                    &&& !changed
                    &&& shows(final(self).error_message, "Organization store not initialized"@)
                    &&& *final(self) == (ProspectModel { error_message: final(self).error_message, ..m })
                } else {
                    match listing {
                        Ok(ps) => {
                            &&& changed
                            &&& *final(self) == (ProspectModel {
                                loading: false,
                                error_message: UiMessage::Empty,
                                prospects: ps,
                                prospect_revision: (m.prospect_revision + 1) as i32,
                                ..m
                            })
                        },
                        Err(msg) => {
                            &&& !changed
                            &&& shows(final(self).error_message, msg@)
                            &&& *final(self) == (ProspectModel { loading: false, error_message: final(self).error_message, ..m })
                        },
                    }
                }
            }),
    {
        self.ensure_initialized(store_available);
        self.organization_id = owned(organization_id);
        if !self.has_store {
            self.error_message = UiMessage::Text(owned("Organization store not initialized"));
            return false;
        }
        self.loading = true;
        self.error_message = UiMessage::Empty;
        match listing {
            Ok(ps) => {
                self.prospects = ps;
                self.loading = false;
                self.notify_prospects_changed();
                true
            },
            Err(msg) => {
                self.error_message = UiMessage::Text(msg);
                self.loading = false;
                false
            },
        }
    }

    /// Number of prospects.
    pub fn prospect_count(&self) -> (r: i32)
        ensures
            r == self.prospects@.len() as i32,
    {
        self.prospects.len() as i32
    }

    /// The prospect at `index`, if the index is valid.
    pub fn get_prospect(&self, index: i32) -> (r: Option<&Prospect>)
        ensures
            valid_index(index, self.prospects@.len()) ==> r == Some(&self.prospects@[index as int]),
            !valid_index(index, self.prospects@.len()) ==> r is None,
    {
        if index < 0 || index as usize >= self.prospects.len() {
            None
        } else {
            Some(&self.prospects[index as usize])
        }
    }

    /// Id of the prospect at `index`; empty for an invalid index.
    pub fn get_prospect_id(&self, index: i32) -> (r: String)
        ensures
            valid_index(index, self.prospects@.len()) ==> r@ == self.prospects@[index as int].id@,
            !valid_index(index, self.prospects@.len()) ==> r@.len() == 0,
    {
        match self.get_prospect(index) {
            Some(p) => owned(p.id.as_str()),
            None => String::new(),
        }
    }

    /// Name of the prospect at `index`; empty for an invalid index.
    pub fn get_prospect_name(&self, index: i32) -> (r: String)
        ensures
            valid_index(index, self.prospects@.len()) ==> r@ == self.prospects@[index as int].name@,
            !valid_index(index, self.prospects@.len()) ==> r@.len() == 0,
    {
        match self.get_prospect(index) {
            Some(p) => owned(p.name.as_str()),
            None => String::new(),
        }
    }

    /// Shown stage of the prospect at `index`; empty for an invalid index.
    pub fn get_prospect_stage(&self, index: i32) -> (r: String)
        ensures
            valid_index(index, self.prospects@.len()) ==> r@ == stage_display(self.prospects@[index as int].stage),
            !valid_index(index, self.prospects@.len()) ==> r@.len() == 0,
    {
        match self.get_prospect(index) {
            Some(p) => owned(p.stage.display_name()),
            None => String::new(),
        }
    }

    /// Creation time of the prospect at `index`; empty for an invalid index.
    pub fn get_prospect_created_at(&self, index: i32) -> (r: String)
        ensures
            valid_index(index, self.prospects@.len()) ==> r@ == self.prospects@[index as int].created_at@,
            !valid_index(index, self.prospects@.len()) ==> r@.len() == 0,
    {
        match self.get_prospect(index) {
            Some(p) => owned(p.created_at.as_str()),
            None => String::new(),
        }
    }

    /// Description of the prospect at `index`; empty when invalid or absent.
    pub fn get_prospect_description(&self, index: i32) -> (r: String)
        ensures
            valid_index(index, self.prospects@.len()) ==> (self.prospects@[index as int].description matches Some(d) ==> r@ == d@),
            !(valid_index(index, self.prospects@.len()) && self.prospects@[index as int].description is Some) ==> r@.len() == 0,
    {
        match self.get_prospect(index) {
            Some(p) => match &p.description {
                Some(d) => owned(d.as_str()),
                None => String::new(),
            },
            None => String::new(),
        }
    }

    /// Value of the prospect at `index`; empty when invalid or absent.
    pub fn get_prospect_value(&self, index: i32) -> (r: String)
        ensures
            valid_index(index, self.prospects@.len()) ==> (self.prospects@[index as int].value matches Some(d) ==> r@ == d@),
            !(valid_index(index, self.prospects@.len()) && self.prospects@[index as int].value is Some) ==> r@.len() == 0,
    {
        match self.get_prospect(index) {
            Some(p) => match &p.value {
                Some(d) => owned(d.as_str()),
                None => String::new(),
            },
            None => String::new(),
        }
    }

    /// Contact name of the prospect at `index`; empty when invalid or absent.
    pub fn get_prospect_contact_name(&self, index: i32) -> (r: String)
        ensures
            valid_index(index, self.prospects@.len()) ==> (self.prospects@[index as int].contact_name matches Some(d) ==> r@ == d@),
            !(valid_index(index, self.prospects@.len()) && self.prospects@[index as int].contact_name is Some) ==> r@.len() == 0,
    {
        match self.get_prospect(index) {
            Some(p) => match &p.contact_name {
                Some(d) => owned(d.as_str()),
                None => String::new(),
            },
            None => String::new(),
        }
    }

    /// Contact e-mail of the prospect at `index`; empty when invalid or absent.
    pub fn get_prospect_contact_email(&self, index: i32) -> (r: String)
        ensures
            valid_index(index, self.prospects@.len()) ==> (self.prospects@[index as int].contact_email matches Some(d) ==> r@ == d@),
            !(valid_index(index, self.prospects@.len()) && self.prospects@[index as int].contact_email is Some) ==> r@.len() == 0,
    {
        match self.get_prospect(index) {
            Some(p) => match &p.contact_email {
                Some(d) => owned(d.as_str()),
                None => String::new(),
            },
            None => String::new(),
        }
    }

    /// The positions of the prospects in the stage `stage` names.
    fn positions_in_stage(&self, stage: ProspectStage) -> (r: Vec<i32>)
        requires
            self.prospects@.len() <= i32::MAX,
        ensures
            r@ == stage_positions(self.prospects@, stage),
    {
        let mut r: Vec<i32> = Vec::new();
        let mut i: usize = 0;
        while i < self.prospects.len()
            invariant
                i <= self.prospects@.len() <= i32::MAX,
                r@ == stage_positions(self.prospects@.subrange(0, i as int), stage),
            decreases self.prospects@.len() - i,
        {
            let ghost before = self.prospects@.subrange(0, i as int);
            assert(self.prospects@.subrange(0, i + 1).drop_last() =~= before);
            if self.prospects[i].stage == stage {
                r.push(i as i32);
            }
            i = i + 1;
        }
        assert(self.prospects@.subrange(0, self.prospects@.len() as int) =~= self.prospects@);
        r
    }

    /// The positions of the prospects in the stage `stage` names, as a JSON
    /// array.
    pub fn prospects_for_stage(&self, stage: &str) -> (r: String)
        requires
            self.prospects@.len() <= i32::MAX,
        ensures
            r@ == json_int_list(stage_positions(self.prospects@, stage_of_text(stage@))),
    {
        let target = parse_stage(stage);
        let positions = self.positions_in_stage(target);
        int_list_to_json(&positions)
    }

    /// Number of prospects in the stage `stage` names.
    pub fn count_for_stage(&self, stage: &str) -> (r: i32)
        requires
            self.prospects@.len() <= i32::MAX,
        ensures
            r == stage_positions(self.prospects@, stage_of_text(stage@)).len(),
    {
        let target = parse_stage(stage);
        let positions = self.positions_in_stage(target);
        proof {
            lemma_positions_len(self.prospects@, target);
        }
        positions.len() as i32
    }

    /// The id of the prospect at `index` when the store is attached: the
    /// prospect a store operation on `index` acts on.
    pub fn stored_prospect_id(&self, index: i32) -> (r: Option<String>)
        ensures
            self.has_store && valid_index(index, self.prospects@.len()) ==> (r matches Some(id) && id@ == self.prospects@[index as int].id@),
            !(self.has_store && valid_index(index, self.prospects@.len())) ==> r is None,
    {
        if !self.has_store {
            return None;
        }
        match self.get_prospect(index) {
            Some(p) => Some(owned(p.id.as_str())),
            None => None,
        }
    }

    /// Apply the store's answer to moving the prospect at `index` to the
    /// stage `new_stage` names (`Err` carries the error's user message).
    /// Without a valid index or a store nothing was asked and nothing
    /// changes.
    pub fn move_prospect(&mut self, index: i32, new_stage: &str, result: Result<(), String>) -> (changed: bool)
        requires
            old(self).prospect_revision < i32::MAX,
        ensures
            !(old(self).has_store && valid_index(index, old(self).prospects@.len())) ==> !changed && *final(self) == *old(self),
            old(self).has_store && valid_index(index, old(self).prospects@.len()) ==> match result {
                Ok(()) => {
                    &&& changed
                    &&& final(self).prospects@ == old(self).prospects@.update(index as int, Prospect {
                        stage: stage_of_text(new_stage@),
                        ..old(self).prospects@[index as int]
                    })
                    &&& *final(self) == (ProspectModel {
                        prospects: final(self).prospects,
                        prospect_revision: (old(self).prospect_revision + 1) as i32,
                        ..*old(self)
                    })
                },
                Err(msg) => {
                    &&& !changed
                    &&& shows(final(self).error_message, msg@)
                    &&& *final(self) == (ProspectModel { error_message: final(self).error_message, ..*old(self) })
                },
            },
    {
        if !self.has_store || index < 0 || index as usize >= self.prospects.len() {
            return false;
        }
        let stage = parse_stage(new_stage);
        match result {
            Ok(()) => {
                let i = index as usize;
                let mut p = self.prospects.remove(i);
                p.stage = stage;
                self.prospects.insert(i, p);
                assert(self.prospects@ =~= old(self).prospects@.update(index as int, Prospect {
                    stage: stage_of_text(new_stage@),
                    ..old(self).prospects@[index as int]
                }));
                self.notify_prospects_changed();
                true
            },
            Err(msg) => {
                self.error_message = UiMessage::Text(msg);
                false
            },
        }
    }

    /// Check a new prospect of organization `org_id` and make the record to
    /// store: a fresh id, the form's fields, the stage `stage` names, no
    /// source or closing date, and the current time as both timestamps.
    pub fn create_prospect(&mut self, org_id: &str, form: &ProspectForm, stage: &str, store_available: bool) -> (r: Option<Prospect>)
        ensures
            ({
                let m = prospect_initialized(*old(self), store_available);
                if trim_spec(form.name@).len() == 0 {
                    &&& r is None
                    &&& shows(final(self).error_message, "Prospect name cannot be empty"@)
                    &&& *final(self) == (ProspectModel { error_message: final(self).error_message, ..m })
                } else if !m.has_store {
                    &&& r is None
                    &&& shows(final(self).error_message, "Organization store not initialized"@)
                    &&& *final(self) == (ProspectModel { error_message: final(self).error_message, ..m })
                } else {
                    &&& *final(self) == m
                    &&& r matches Some(p) && {
                        &&& holds_prospect_form(p, *form)
                        &&& p.id@.len() == 36
                        &&& p.organization_id@ == org_id@
                        &&& p.stage == stage_of_text(stage@)
                        &&& p.source_url is None
                        &&& p.closing_date is None
                        &&& p.created_at@ == p.updated_at@
                    }
                }
            }),
    {
        self.ensure_initialized(store_available);
        if trim(form.name.as_str()).unicode_len() == 0 {
            self.error_message = UiMessage::Text(owned("Prospect name cannot be empty"));
            return None;
        }
        if !self.has_store {
            self.error_message = UiMessage::Text(owned("Organization store not initialized"));
            return None;
        }
        let now = now_rfc3339();
        let base = Prospect {
            id: new_uuid_v4(),
            organization_id: owned(org_id),
            name: String::new(),
            description: None,
            stage: parse_stage(stage),
            value: None,
            contact_name: None,
            contact_email: None,
            contact_role: None,
            source_url: None,
            closing_date: None,
            created_at: owned(now.as_str()),
            updated_at: String::new(),
        };
        Some(prospect_from_form(form, base, now))
    }

    /// Apply the store's answer to saving a new prospect (`Err` carries the
    /// error's user message).
    pub fn prospect_created(&mut self, p: Prospect, result: Result<(), String>) -> (changed: bool)
        requires
            old(self).prospect_revision < i32::MAX,
        ensures
            match result {
                Ok(()) => {
                    &&& changed
                    &&& final(self).prospects@ == old(self).prospects@.push(p)
                    &&& *final(self) == (ProspectModel {
                        prospects: final(self).prospects,
                        prospect_revision: (old(self).prospect_revision + 1) as i32,
                        ..*old(self)
                    })
                },
                Err(msg) => {
                    &&& !changed
                    &&& shows(final(self).error_message, msg@)
                    &&& *final(self) == (ProspectModel { error_message: final(self).error_message, ..*old(self) })
                },
            },
    {
        match result {
            Ok(()) => {
                self.prospects.push(p);
                self.notify_prospects_changed();
                true
            },
            Err(msg) => {
                self.error_message = UiMessage::Text(msg);
                false
            },
        }
    }

    /// Check an edit of the prospect at `index` and make the record to
    /// store: the form's fields, the current time as update time, and
    /// everything else kept.  Checks, in order: a valid index, a store, a
    /// name.
    pub fn update_prospect(&mut self, index: i32, form: &ProspectForm) -> (r: Option<Prospect>)
        ensures
            if !valid_index(index, old(self).prospects@.len()) {
                &&& r is None
                &&& shows(final(self).error_message, "Prospect not found"@)
                &&& *final(self) == (ProspectModel { error_message: final(self).error_message, ..*old(self) })
            } else if !old(self).has_store {
                &&& r is None
                &&& shows(final(self).error_message, "Organization store not initialized"@)
                &&& *final(self) == (ProspectModel { error_message: final(self).error_message, ..*old(self) })
            } else if trim_spec(form.name@).len() == 0 {
                &&& r is None
                &&& shows(final(self).error_message, "Prospect name cannot be empty"@)
                &&& *final(self) == (ProspectModel { error_message: final(self).error_message, ..*old(self) })
            } else {
                &&& *final(self) == *old(self)
                &&& r matches Some(p) && {
                    let before = old(self).prospects@[index as int];
                    &&& holds_prospect_form(p, *form)
                    &&& keeps_record(p, before)
                }
            },
    {
        if index < 0 || index as usize >= self.prospects.len() {
            self.error_message = UiMessage::Text(owned("Prospect not found"));
            return None;
        }
        if !self.has_store {
            self.error_message = UiMessage::Text(owned("Organization store not initialized"));
            return None;
        }
        if trim(form.name.as_str()).unicode_len() == 0 {
            self.error_message = UiMessage::Text(owned("Prospect name cannot be empty"));
            return None;
        }
        let kept = &self.prospects[index as usize];
        let copy = Prospect {
            id: owned(kept.id.as_str()),
            organization_id: owned(kept.organization_id.as_str()),
            name: String::new(),
            description: None,
            stage: kept.stage,
            value: None,
            contact_name: None,
            contact_email: None,
            contact_role: None,
            source_url: match &kept.source_url {
                Some(u) => Some(owned(u.as_str())),
                None => None,
            },
            closing_date: match &kept.closing_date {
                Some(d) => Some(owned(d.as_str())),
                None => None,
            },
            created_at: owned(kept.created_at.as_str()),
            updated_at: String::new(),
        };
        Some(prospect_from_form(form, copy, now_rfc3339()))
    }

    /// Apply the store's answer to saving the edit of the prospect at
    /// `index` (`Err` carries the error's user message).
    pub fn prospect_updated(&mut self, index: i32, p: Prospect, result: Result<(), String>) -> (changed: bool)
        requires
            old(self).prospect_revision < i32::MAX,
            valid_index(index, old(self).prospects@.len()),
        ensures
            match result {
                Ok(()) => {
                    &&& changed
                    &&& final(self).prospects@ == old(self).prospects@.update(index as int, p)
                    &&& *final(self) == (ProspectModel {
                        prospects: final(self).prospects,
                        prospect_revision: (old(self).prospect_revision + 1) as i32,
                        ..*old(self)
                    })
                },
                Err(msg) => {
                    &&& !changed
                    &&& shows(final(self).error_message, msg@)
                    &&& *final(self) == (ProspectModel { error_message: final(self).error_message, ..*old(self) })
                },
            },
    {
        match result {
            Ok(()) => {
                self.prospects.set(index as usize, p);
                self.notify_prospects_changed();
                true
            },
            Err(msg) => {
                self.error_message = UiMessage::Text(msg);
                false
            },
        }
    }

    /// Apply the store's answer to deleting the prospect at `index` (`Err`
    /// carries the error's user message).  Without a valid index or a store
    /// nothing was asked and nothing changes.
    pub fn delete_prospect(&mut self, index: i32, result: Result<(), String>) -> (changed: bool)
        requires
            old(self).prospect_revision < i32::MAX,
        ensures
            !(old(self).has_store && valid_index(index, old(self).prospects@.len())) ==> !changed && *final(self) == *old(self),
            old(self).has_store && valid_index(index, old(self).prospects@.len()) ==> match result {
                Ok(()) => {
                    &&& changed
                    &&& final(self).prospects@ == old(self).prospects@.remove(index as int)
                    &&& *final(self) == (ProspectModel {
                        prospects: final(self).prospects,
                        prospect_revision: (old(self).prospect_revision + 1) as i32,
                        ..*old(self)
                    })
                },
                Err(msg) => {
                    &&& !changed
                    &&& shows(final(self).error_message, msg@)
                    &&& *final(self) == (ProspectModel { error_message: final(self).error_message, ..*old(self) })
                },
            },
    {
        if !self.has_store || index < 0 || index as usize >= self.prospects.len() {
            return false;
        }
        match result {
            Ok(()) => {
                self.prospects.remove(index as usize);
                self.notify_prospects_changed();
                true
            },
            Err(msg) => {
                self.error_message = UiMessage::Text(msg);
                false
            },
        }
    }

    /// Whether a link operation on the organization's projects is asked of
    /// the store: an organization is selected and the store is attached.
    pub fn links_available(&self) -> (r: bool)
        ensures
            r == (self.organization_id@.len() > 0 && self.has_store),
    {
        self.organization_id.as_str().unicode_len() > 0 && self.has_store
    }

    /// The projects linked to the organization as a JSON array of ids.
    /// `listing` is what the store lists; `[]` is shown without an
    /// organization or store, or when the listing failed.
    pub fn linked_projects(&self, listing: Result<Vec<String>, String>) -> (r: String)
        ensures
            self.organization_id@.len() > 0 && self.has_store && listing is Ok
                ==> r@ == json_string_list(listing->Ok_0@.map_values(|s: String| s@)),
            !(self.organization_id@.len() > 0 && self.has_store && listing is Ok) ==> r@ == "[]"@,
    {
        if !self.links_available() {
            return owned("[]");
        }
        match listing {
            Ok(ids) => string_list_to_json(&ids),
            Err(_) => owned("[]"),
        }
    }

    /// Apply the store's answer to linking or unlinking a project (`Err`
    /// carries the error's user message).  Without an organization or a
    /// store nothing was asked and nothing changes.
    pub fn project_link_changed(&mut self, result: Result<(), String>) -> (changed: bool)
        requires
            old(self).prospect_revision < i32::MAX,
        ensures
            !(old(self).organization_id@.len() > 0 && old(self).has_store) ==> !changed && *final(self) == *old(self),
            old(self).organization_id@.len() > 0 && old(self).has_store ==> match result {
                Ok(()) => changed && *final(self) == (ProspectModel {
                    prospect_revision: (old(self).prospect_revision + 1) as i32,
                    ..*old(self)
                }),
                Err(msg) => {
                    &&& !changed
                    &&& shows(final(self).error_message, msg@)
                    &&& *final(self) == (ProspectModel { error_message: final(self).error_message, ..*old(self) })
                },
            },
    {
        if !self.links_available() {
            return false;
        }
        match result {
            Ok(()) => {
                self.notify_prospects_changed();
                true
            },
            Err(msg) => {
                self.error_message = UiMessage::Text(msg);
                false
            },
        }
    }

    /// Apply the store's answer to linking a project to the organization.
    pub fn link_project(&mut self, result: Result<(), String>) -> (changed: bool)
        requires
            old(self).prospect_revision < i32::MAX,
        ensures
            !(old(self).organization_id@.len() > 0 && old(self).has_store) ==> !changed && *final(self) == *old(self),
            old(self).organization_id@.len() > 0 && old(self).has_store ==> match result {
                Ok(()) => changed && bumped(*old(self), *final(self)) && *final(self) == (ProspectModel {
                    prospect_revision: final(self).prospect_revision,
                    ..*old(self)
                }),
                Err(msg) => !changed && shows(final(self).error_message, msg@)
                    && *final(self) == (ProspectModel { error_message: final(self).error_message, ..*old(self) }),
            },
    {
        self.project_link_changed(result)
    }

    /// Apply the store's answer to unlinking a project from the organization.
    pub fn unlink_project(&mut self, result: Result<(), String>) -> (changed: bool)
        requires
            old(self).prospect_revision < i32::MAX,
        ensures
            !(old(self).organization_id@.len() > 0 && old(self).has_store) ==> !changed && *final(self) == *old(self),
            old(self).organization_id@.len() > 0 && old(self).has_store ==> match result {
                Ok(()) => changed && bumped(*old(self), *final(self)) && *final(self) == (ProspectModel {
                    prospect_revision: final(self).prospect_revision,
                    ..*old(self)
                }),
                Err(msg) => !changed && shows(final(self).error_message, msg@)
                    && *final(self) == (ProspectModel { error_message: final(self).error_message, ..*old(self) }),
            },
    {
        self.project_link_changed(result)
    }

    /// Import RFP leads for `organization_id`.  The result is the JSON the
    /// caller is shown: `{"imported":N,"skipped":M}` with the counts of this
    /// import, or `{"error":...}`.  `outcome` is what the import gave when
    /// it has run (the prospects listed after it, or its error); the model
    /// then shows it as `poll_channel` would.  Without an outcome the import
    /// is still to run: the model waits for it, the result is
    /// `{"pending":true}`, and the second part of the result says that the
    /// import is to be started, its outcome to come through `poll_channel`.
    pub fn import_rfp_leads(
        &mut self,
        organization_id: &str,
        channel_ready: bool,
        outcome: Option<Result<(RfpImportResult, Vec<Prospect>), OrganizationError>>,
    ) -> (r: (String, bool))
        requires
            old(self).prospect_revision < i32::MAX,
        ensures
            if organization_id@.len() == 0 {
                &&& r.0@ == "{\"error\":\"organization_id is required\"}"@ && !r.1
                &&& shows(final(self).error_message, "Organization ID is required"@)
                &&& *final(self) == (ProspectModel { error_message: final(self).error_message, ..*old(self) })
            } else if !channel_ready {
                &&& r.0@ == "{\"error\":\"service channel not ready\"}"@ && !r.1
                &&& shows(final(self).error_message, "Service channel not ready"@)
                &&& *final(self) == (ProspectModel { error_message: final(self).error_message, ..*old(self) })
            } else {
                match outcome {
                    None => {
                        &&& r.0@ == "{\"pending\":true}"@ && r.1
                        &&& final(self).import_result@.len() == 0
                        &&& *final(self) == (ProspectModel {
                            loading: true,
                            error_message: UiMessage::Empty,
                            import_result: final(self).import_result,
                            ..*old(self)
                        })
                    },
                    Some(Ok((counts, ps))) => {
                        &&& r.0@ == import_reply_json(counts) && !r.1
                        &&& final(self).import_result@ == import_counts_json(counts)
                        &&& *final(self) == (ProspectModel {
                            loading: false,
                            error_message: UiMessage::Empty,
                            prospects: ps,
                            prospect_revision: (old(self).prospect_revision + 1) as i32,
                            import_result: final(self).import_result,
                            ..*old(self)
                        })
                    },
                    Some(Err(e)) => {
                        &&& r.0@ == "{\"error\":"@ + json_quoted(organization_error_text(e)) + "}"@ && !r.1
                        &&& shows(final(self).error_message, "Failed to import leads: "@ + organization_error_text(e))
                        &&& final(self).import_result@ == r.0@
                        &&& *final(self) == (ProspectModel {
                            loading: false,
                            error_message: final(self).error_message,
                            import_result: final(self).import_result,
                            ..*old(self)
                        })
                    },
                }
            },
    {
        if organization_id.unicode_len() == 0 {
            self.error_message = UiMessage::Text(owned("Organization ID is required"));
            return (owned("{\"error\":\"organization_id is required\"}"), false);
        }
        if !channel_ready {
            self.error_message = UiMessage::Text(owned("Service channel not ready"));
            return (owned("{\"error\":\"service channel not ready\"}"), false);
        }
        self.loading = true;
        self.error_message = UiMessage::Empty;
        self.import_result = String::new();
        match outcome {
            None => (owned("{\"pending\":true}"), true),
            Some(Ok((counts, ps))) => {
                let reply = import_reply(counts);
                self.poll_channel(OrganizationServiceMessage::RfpImportDone(Ok((counts, ps))));
                (reply, false)
            },
            Some(Err(e)) => {
                self.poll_channel(OrganizationServiceMessage::RfpImportDone(Err(e)));
                (owned(self.import_result.as_str()), false)
            },
        }
    }

    /// Apply a message from the organization service.  Only the completion
    /// of a lead import is handled: on success the prospects are replaced
    /// and the counts reported; on failure the error is shown and reported.
    /// Returns whether the list changed.
    pub fn poll_channel(&mut self, msg: OrganizationServiceMessage) -> (changed: bool)
        requires
            old(self).prospect_revision < i32::MAX,
        ensures
            match msg {
                OrganizationServiceMessage::RfpImportDone(Ok((counts, ps))) => {
                    &&& changed
                    &&& final(self).import_result@ == import_counts_json(counts)
                    &&& *final(self) == (ProspectModel {
                        loading: false,
                        prospects: ps,
                        prospect_revision: (old(self).prospect_revision + 1) as i32,
                        import_result: final(self).import_result,
                        ..*old(self)
                    })
                },
                OrganizationServiceMessage::RfpImportDone(Err(e)) => {
                    &&& !changed
                    &&& shows(final(self).error_message, "Failed to import leads: "@ + organization_error_text(e))
                    &&& final(self).import_result@ == "{\"error\":"@ + json_quoted(organization_error_text(e)) + "}"@
                    &&& *final(self) == (ProspectModel {
                        loading: false,
                        error_message: final(self).error_message,
                        import_result: final(self).import_result,
                        ..*old(self)
                    })
                },
                _ => !changed && *final(self) == *old(self),
            },
    {
        match msg {
            OrganizationServiceMessage::RfpImportDone(Ok((counts, ps))) => {
                self.loading = false;
                self.prospects = ps;
                self.notify_prospects_changed();
                let mut report = owned("{\"failed\":");
                report = concat(report.as_str(), i64_to_string(counts.failed as i64).as_str());
                report = concat(report.as_str(), ",\"imported\":");
                report = concat(report.as_str(), i64_to_string(counts.imported as i64).as_str());
                report = concat(report.as_str(), ",\"skipped\":");
                report = concat(report.as_str(), i64_to_string(counts.skipped as i64).as_str());
                self.import_result = concat(report.as_str(), "}");
                true
            },
            OrganizationServiceMessage::RfpImportDone(Err(e)) => {
                self.loading = false;
                let text = e.message();
                self.error_message = UiMessage::Text(concat("Failed to import leads: ", text.as_str()));
                self.import_result = concat3("{\"error\":", quote_json(text.as_str()).as_str(), "}");
                false
            },
            _ => false,
        }
    }
}

/// The number of positions is at most the number of prospects.
proof fn lemma_positions_len(ps: Seq<Prospect>, stage: ProspectStage)
    ensures
        stage_positions(ps, stage).len() <= ps.len(),
    decreases ps.len(),
{
    if ps.len() > 0 {
        lemma_positions_len(ps.drop_last(), stage);
    }
}

/// Every prospect sits in exactly one stage: the numbers of prospects in
/// the seven stages add up to the number of prospects.
pub proof fn law_stages_partition_prospects(ps: Seq<Prospect>)
    ensures
        stage_positions(ps, ProspectStage::Lead).len() + stage_positions(ps, ProspectStage::Qualified).len()
            + stage_positions(ps, ProspectStage::Contacted).len() + stage_positions(ps, ProspectStage::Proposal).len()
            + stage_positions(ps, ProspectStage::Negotiation).len() + stage_positions(ps, ProspectStage::Won).len()
            + stage_positions(ps, ProspectStage::Lost).len() == ps.len(),
    decreases ps.len(),
{
    if ps.len() > 0 {
        law_stages_partition_prospects(ps.drop_last());
    }
}

/// Moving the prospect at `i` to another stage takes it out of its old
/// stage and puts it into the new one; every other stage keeps its count.
pub proof fn law_move_shifts_one_prospect(ps: Seq<Prospect>, i: int, moved: Prospect)
    requires
        0 <= i < ps.len(),
        moved.stage != ps[i].stage,
    ensures
        stage_positions(ps.update(i, moved), moved.stage).len() == stage_positions(ps, moved.stage).len() + 1,
        stage_positions(ps.update(i, moved), ps[i].stage).len() + 1 == stage_positions(ps, ps[i].stage).len(),
        forall|s: ProspectStage| s != moved.stage && s != ps[i].stage ==> #[trigger] stage_positions(
            ps.update(i, moved), s).len() == stage_positions(ps, s).len(),
    decreases ps.len(),
{
    let after = ps.update(i, moved);
    if i == ps.len() - 1 {
        assert(after.drop_last() =~= ps.drop_last());
    } else {
        law_move_shifts_one_prospect(ps.drop_last(), i, moved);
        assert(after.drop_last() =~= ps.drop_last().update(i, moved));
    }
    assert forall|s: ProspectStage| s != moved.stage && s != ps[i].stage implies #[trigger] stage_positions(
        after, s).len() == stage_positions(ps, s).len() by {
        if i < ps.len() - 1 {
            assert(stage_positions(ps.drop_last().update(i, moved), s).len() == stage_positions(ps.drop_last(), s).len());
        }
    }
}

/// Reading the stored name of a stage gives that stage back: for every
/// stage, `parse_stage` of its snake_case name (`lead`, `qualified`,
/// `contacted`, `proposal`, `negotiation`, `won`, `lost`) is the stage, and
/// different stages have different names.
pub proof fn law_stage_names_read_back(st: ProspectStage, other: ProspectStage, r: ProspectStage)
    requires
        r == stage_of_text(stage_key(st)),
        stage_of_key(stage_key(st)) matches Some(x) ==> r == x,
    ensures
        r == st,
        st != other ==> stage_key(st) != stage_key(other),
{
    reveal_strlit("lead");
    reveal_strlit("qualified");
    reveal_strlit("contacted");
    reveal_strlit("proposal");
    reveal_strlit("negotiation");
    reveal_strlit("won");
    reveal_strlit("lost");
    let a = stage_key(st);
    let b = stage_key(other);
    assert("lead"@[1] != "lost"@[1]);
    assert("lead"@.len() != "qualified"@.len() && "lead"@.len() != "contacted"@.len());
    assert("qualified"@[0] != "contacted"@[0]);
    assert("proposal"@.len() != "lead"@.len() && "proposal"@.len() != "qualified"@.len() && "proposal"@.len() != "contacted"@.len());
    assert("negotiation"@.len() != "lead"@.len() && "negotiation"@.len() != "qualified"@.len() && "negotiation"@.len() != "contacted"@.len() && "negotiation"@.len() != "proposal"@.len());
    assert("won"@.len() != "lead"@.len() && "won"@.len() != "qualified"@.len() && "won"@.len() != "contacted"@.len() && "won"@.len() != "proposal"@.len() && "won"@.len() != "negotiation"@.len());
    assert("lost"@.len() != "qualified"@.len() && "lost"@.len() != "contacted"@.len() && "lost"@.len() != "proposal"@.len() && "lost"@.len() != "negotiation"@.len() && "lost"@.len() != "won"@.len());
    assert(stage_of_key(a) == Some(st));
    if st != other && a.len() == b.len() {
        assert(a[0] != b[0] || a[1] != b[1]);
    }
}

/// A stage is shown under its stored name with the first letter capital:
/// the same letters after the first, and the first one its capital form.
pub proof fn law_stage_display_capitalises_key(st: ProspectStage)
    ensures
        stage_display(st).len() == stage_key(st).len(),
        stage_display(st).drop_first() == stage_key(st).drop_first(),
        'a' <= stage_key(st)[0] <= 'z',
        stage_display(st)[0] as u32 + 32 == stage_key(st)[0] as u32,
{
    reveal_strlit("lead");
    reveal_strlit("qualified");
    reveal_strlit("contacted");
    reveal_strlit("proposal");
    reveal_strlit("negotiation");
    reveal_strlit("won");
    reveal_strlit("lost");
    reveal_strlit("Lead");
    reveal_strlit("Qualified");
    reveal_strlit("Contacted");
    reveal_strlit("Proposal");
    reveal_strlit("Negotiation");
    reveal_strlit("Won");
    reveal_strlit("Lost");
    assert(stage_display(st).drop_first() =~= stage_key(st).drop_first());
}

} // verus!
