use myme::models::organization::{OrganizationForm, OrganizationModel, ProspectCounts};
use myme::models::prospect::{parse_stage, ProspectForm, ProspectModel};
use myme::models::UiMessage;
use myme::services::organization::{
    finish_rfp_import, import_outcomes, prospect_from_hit, prospects_from_hits, tally_rfp_import, Organization, OrganizationError,
    OrganizationServiceMessage, Prospect, ProspectStage, RfpHit, RfpImportResult, RfpMetadata,
};

fn text(s: &str) -> UiMessage {
    UiMessage::Text(s.to_string())
}

fn org(id: &str, name: &str) -> Organization {
    Organization {
        id: id.to_string(),
        name: name.to_string(),
        description: None,
        website: None,
        contact_name: None,
        contact_email: None,
        contact_phone: None,
        contact_role: None,
        created_at: "2024-01-01T00:00:00Z".to_string(),
        updated_at: "2024-01-01T00:00:00Z".to_string(),
    }
}

fn org_form(name: &str) -> OrganizationForm {
    OrganizationForm {
        name: name.to_string(),
        description: " Makers of things ".to_string(),
        website: "".to_string(),
        contact_name: "Ada".to_string(),
        contact_email: "  ".to_string(),
        contact_phone: "555".to_string(),
        contact_role: "".to_string(),
    }
}

fn prospect(id: &str, name: &str, stage: ProspectStage) -> Prospect {
    Prospect {
        id: id.to_string(),
        organization_id: "o1".to_string(),
        name: name.to_string(),
        description: None,
        stage,
        value: None,
        contact_name: None,
        contact_email: None,
        contact_role: None,
        source_url: None,
        closing_date: None,
        created_at: "2024-01-01T00:00:00Z".to_string(),
        updated_at: "2024-01-01T00:00:00Z".to_string(),
    }
}

fn prospect_form(name: &str) -> ProspectForm {
    ProspectForm {
        name: name.to_string(),
        description: "".to_string(),
        value: " $10k ".to_string(),
        contact_name: "".to_string(),
        contact_email: "b@example.com".to_string(),
        contact_role: "".to_string(),
    }
}

#[test]
fn stage_names() {
    assert_eq!(parse_stage("won"), ProspectStage::Won);
    assert_eq!(parse_stage("negotiation"), ProspectStage::Negotiation);
    assert_eq!(parse_stage("Won"), ProspectStage::Lead);
    assert_eq!(parse_stage("nonsense"), ProspectStage::Lead);
    assert_eq!(ProspectStage::Qualified.display_name(), "Qualified");
}

#[test]
fn prospect_counts_with_total() {
    let c = ProspectCounts::from_stage_counts(&[(ProspectStage::Lead, 2), (ProspectStage::Won, 1)]);
    assert_eq!(c.total(), 3);
    assert_eq!(
        c.to_json(),
        r#"{"lead":2,"qualified":0,"contacted":0,"proposal":0,"negotiation":0,"won":1,"lost":0,"total":3}"#
    );
    assert_eq!(ProspectCounts::zero().total(), 0);
}

#[test]
fn organizations_lifecycle() {
    let mut m = OrganizationModel::new();
    let e = m.fetch_organizations(false, Ok(vec![]));
    assert!(!e.organizations_changed);
    assert_eq!(m.error_message, text("Organization store not initialized"));

    let e = m.fetch_organizations(true, Ok(vec![org("o1", "Acme")]));
    assert!(e.reload_counts && e.organizations_changed);
    assert_eq!(m.row_count(), 1);
    assert_eq!(m.get_name(0), "Acme");
    assert_eq!(m.get_name(1), "");
    m.load_prospect_counts(vec![Ok(vec![(ProspectStage::Proposal, 4)])]);
    assert_eq!(
        m.get_prospect_counts(0),
        r#"{"lead":0,"qualified":0,"contacted":0,"proposal":4,"negotiation":0,"won":0,"lost":0,"total":4}"#
    );

    assert!(m.create_organization(&org_form("   "), true).is_none());
    assert_eq!(m.error_message, text("Organization name cannot be empty"));
    let o = m.create_organization(&org_form(" Globex "), true).unwrap();
    assert_eq!(o.name, "Globex");
    assert_eq!(o.description.as_deref(), Some("Makers of things"));
    assert_eq!(o.website, None);
    assert_eq!(o.contact_email, None);
    assert_eq!(o.contact_phone.as_deref(), Some("555"));
    assert_eq!(o.id.len(), 36);
    let e = m.organization_created(o, Ok(()));
    assert!(e.organizations_changed);
    assert_eq!(m.row_count(), 2);
    assert_eq!(m.get_contact_name(1), "Ada");

    assert!(m.update_organization(9, &org_form("x")).is_none());
    assert_eq!(m.error_message, text("Organization not found"));
    let updated = m.update_organization(0, &org_form("Acme Corp")).unwrap();
    assert_eq!(updated.id, "o1");
    assert_eq!(updated.created_at, "2024-01-01T00:00:00Z");
    let e = m.organization_updated(0, updated, Ok(()));
    assert!(e.organizations_changed);
    assert_eq!(m.get_name(0), "Acme Corp");

    let e = m.delete_organization(0, Err("in use".to_string()));
    assert!(!e.organizations_changed);
    assert_eq!(m.error_message, text("in use"));
    let e = m.delete_organization(0, Ok(()));
    assert!(e.organizations_changed);
    assert_eq!(m.row_count(), 1);
    assert_eq!(m.get_name(0), "Globex");
}

#[test]
fn prospect_pipeline() {
    let mut m = ProspectModel::new();
    assert!(!m.load_prospects("o1", false, Ok(vec![])));
    assert_eq!(m.error_message, text("Organization store not initialized"));
    let ps = vec![
        prospect("p1", "A", ProspectStage::Lead),
        prospect("p2", "B", ProspectStage::Won),
        prospect("p3", "C", ProspectStage::Lead),
    ];
    assert!(m.load_prospects("o1", true, Ok(ps)));
    let rev = m.prospect_revision;
    assert_eq!(m.prospect_count(), 3);
    assert_eq!(m.count_for_stage("lead"), 2);
    assert_eq!(m.prospects_for_stage("lead"), "[0,2]");
    assert_eq!(m.prospects_for_stage("lost"), "[]");
    assert_eq!(m.get_prospect_stage(1), "Won");

    assert!(m.move_prospect(0, "qualified", Ok(())));
    assert_eq!(m.prospect_revision, rev + 1);
    assert_eq!(m.get_prospect_stage(0), "Qualified");
    assert_eq!(m.count_for_stage("lead"), 1);
    assert!(!m.move_prospect(0, "won", Err("locked".to_string())));
    assert_eq!(m.error_message, text("locked"));
    assert_eq!(m.get_prospect_stage(0), "Qualified");
    assert!(!m.move_prospect(10, "won", Ok(())));
}

#[test]
fn prospect_records() {
    let mut m = ProspectModel::new();
    m.load_prospects("o1", true, Ok(vec![prospect("p1", "A", ProspectStage::Contacted)]));
    assert!(m.create_prospect("o1", &prospect_form(" "), "lead", true).is_none());
    assert_eq!(m.error_message, text("Prospect name cannot be empty"));
    let p = m.create_prospect("o1", &prospect_form(" Deal "), "proposal", true).unwrap();
    assert_eq!(p.name, "Deal");
    assert_eq!(p.stage, ProspectStage::Proposal);
    assert_eq!(p.value.as_deref(), Some("$10k"));
    assert_eq!(p.description, None);
    assert_eq!(p.contact_email.as_deref(), Some("b@example.com"));
    assert_eq!(p.organization_id, "o1");
    assert!(m.prospect_created(p, Ok(())));
    assert_eq!(m.prospect_count(), 2);

    let edited = m.update_prospect(0, &prospect_form("A2")).unwrap();
    assert_eq!(edited.id, "p1");
    assert_eq!(edited.stage, ProspectStage::Contacted);
    assert_eq!(edited.name, "A2");
    assert!(m.prospect_updated(0, edited, Ok(())));
    assert_eq!(m.get_prospect_name(0), "A2");
    assert!(m.delete_prospect(0, Ok(())));
    assert_eq!(m.prospect_count(), 1);
    assert_eq!(m.get_prospect_name(0), "Deal");
}

#[test]
fn project_links() {
    let mut m = ProspectModel::new();
    assert!(!m.links_available());
    assert_eq!(m.linked_projects(Ok(vec!["p".to_string()])), "[]");
    m.load_prospects("o1", true, Ok(vec![]));
    assert!(m.links_available());
    assert_eq!(m.linked_projects(Ok(vec!["p1".to_string(), "p2".to_string()])), r#"["p1","p2"]"#);
    assert_eq!(m.linked_projects(Err("x".to_string())), "[]");
    let rev = m.prospect_revision;
    assert!(m.link_project(Ok(())));
    assert!(!m.unlink_project(Err("nope".to_string())));
    assert_eq!(m.prospect_revision, rev + 1);
    assert_eq!(m.error_message, text("nope"));
}

#[test]
fn lead_import() {
    let mut m = ProspectModel::new();
    let (status, start) = m.import_rfp_leads("", true, None);
    assert_eq!(status, r#"{"error":"organization_id is required"}"#);
    assert!(!start);
    assert_eq!(m.error_message, text("Organization ID is required"));
    let (status, start) = m.import_rfp_leads("o1", false, None);
    assert_eq!(status, r#"{"error":"service channel not ready"}"#);
    assert!(!start);
    let (status, start) = m.import_rfp_leads("o1", true, None);
    assert_eq!(status, r#"{"pending":true}"#);
    assert!(start);
    assert!(m.loading);

    let counts = tally_rfp_import(&vec![(false, true), (true, true), (false, false)]);
    assert_eq!(counts, RfpImportResult { imported: 2, skipped: 1, failed: 1 });
    let done = finish_rfp_import(counts, Ok(vec![prospect("nc-1", "X", ProspectStage::Lead)]));
    assert!(m.poll_channel(OrganizationServiceMessage::RfpImportDone(done)));
    assert_eq!(m.import_result, r#"{"failed":1,"imported":2,"skipped":1}"#);
    assert_eq!(m.prospect_count(), 1);
    assert!(!m.loading);

    m.import_rfp_leads("o1", true, None);
    let failed = finish_rfp_import(counts, Err("disk".to_string()));
    assert_eq!(failed, Err(OrganizationError::Database("disk".to_string())));
    assert!(!m.poll_channel(OrganizationServiceMessage::RfpImportDone(failed)));
    assert!(matches!(m.error_message, UiMessage::Text(ref t) if t.starts_with("Failed to import leads: ")));
}

#[test]
fn lead_import_answers_with_its_counts() {
    let mut m = ProspectModel::new();
    let counts = tally_rfp_import(&vec![(false, true), (true, true), (false, false)]);
    let done = finish_rfp_import(counts, Ok(vec![prospect("nc-1", "X", ProspectStage::Lead)]));
    let rev = m.prospect_revision;
    let (status, start) = m.import_rfp_leads("o1", true, Some(done));
    assert_eq!(status, r#"{"imported":2,"skipped":1}"#);
    assert!(!start);
    assert!(!m.loading);
    assert_eq!(m.import_result, r#"{"failed":1,"imported":2,"skipped":1}"#);
    assert_eq!(m.prospect_count(), 1);
    assert_eq!(m.prospect_revision, rev + 1);
    assert_eq!(m.error_message, UiMessage::Empty);

    let failed = finish_rfp_import(counts, Err("disk".to_string()));
    let (status, start) = m.import_rfp_leads("o1", true, Some(failed));
    assert!(!start);
    assert!(status.starts_with(r#"{"error":"#), "{status}");
    assert_eq!(status, m.import_result);
    assert!(matches!(m.error_message, UiMessage::Text(ref t) if t.starts_with("Failed to import leads: ")));
    assert_eq!(m.prospect_count(), 1);

    // Without an organization the outcome is not looked at.
    let (status, _) = m.import_rfp_leads("", true, Some(Err(OrganizationError::Database("x".to_string()))));
    assert_eq!(status, r#"{"error":"organization_id is required"}"#);
}

#[test]
fn hits_become_leads() {
    let hit = RfpHit {
        id: "42".to_string(),
        title: "Page title".to_string(),
        url: "https://example.gov/rfp/42".to_string(),
        snippet: Some("snippet".to_string()),
        rfp: Some(RfpMetadata {
            title: Some("Road repair".to_string()),
            closing_date: Some("2024-03-05".to_string()),
            organization_name: Some("City".to_string()),
            contact_email: None,
        }),
    };
    let (p, skipped) = prospect_from_hit("o1", &hit, "Repair of roads", "$1M", "2024-01-01T00:00:00Z");
    assert!(!skipped);
    assert_eq!(p.id, "nc-42");
    assert_eq!(p.name, "Road repair");
    assert_eq!(p.stage, ProspectStage::Lead);
    assert_eq!(p.description.as_deref(), Some("Repair of roads"));
    assert_eq!(p.value.as_deref(), Some("$1M"));
    assert_eq!(p.contact_name.as_deref(), Some("City"));
    assert_eq!(p.contact_email, None);
    assert_eq!(p.source_url.as_deref(), Some("https://example.gov/rfp/42"));
    assert_eq!(p.closing_date.as_deref(), Some("2024-03-05"));
    assert_eq!(p.created_at, "2024-01-01T00:00:00Z");

    let plain = RfpHit {
        id: "7".to_string(),
        title: "Just a page".to_string(),
        url: "not a url".to_string(),
        snippet: None,
        rfp: None,
    };
    let (p, skipped) = prospect_from_hit("o1", &plain, "ignored", "ignored", "now");
    assert!(skipped);
    assert_eq!(p.name, "Just a page");
    assert_eq!(p.description, None);
    assert_eq!(p.value, None);
    assert_eq!(p.source_url, None);
    assert_eq!(p.closing_date, None);
}

#[test]
fn every_hit_is_planned_and_counted() {
    let with_rfp = RfpHit {
        id: "1".to_string(),
        title: "One".to_string(),
        url: "https://example.gov/1".to_string(),
        snippet: None,
        rfp: Some(RfpMetadata { title: None, closing_date: None, organization_name: None, contact_email: None }),
    };
    let plain = RfpHit { id: "2".to_string(), title: "Two".to_string(), url: "x".to_string(), snippet: Some("s".to_string()), rfp: None };
    let derived = vec![("About one".to_string(), "$5".to_string()), (String::new(), String::new())];
    let planned = prospects_from_hits("o1", &vec![with_rfp, plain], &derived, "now");
    assert_eq!(planned.len(), 2);
    assert_eq!(planned[0].0.id, "nc-1");
    assert_eq!(planned[0].0.description.as_deref(), Some("About one"));
    assert!(!planned[0].1);
    assert_eq!(planned[1].0.id, "nc-2");
    assert_eq!(planned[1].0.description.as_deref(), Some("s"));
    assert!(planned[1].1);

    let outcomes = import_outcomes(&planned, &vec![true, false]);
    assert_eq!(outcomes, vec![(false, true), (true, false)]);
    let counts = tally_rfp_import(&outcomes);
    assert_eq!(counts, RfpImportResult { imported: 1, skipped: 1, failed: 1 });
    assert_eq!(counts.imported + counts.failed, 2);
}
