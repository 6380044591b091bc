use truerepublic::fixtures::{
    default_domain_members_response, default_domain_response, default_issue_response,
    default_purge_schedule_response, default_treasury_response,
};

#[test]
fn test_default_domain_response_fields() {
    let r = default_domain_response("garden");
    assert_eq!(r.name, "garden");
    assert_eq!(r.admin, "cosmos1admin");
    assert_eq!(r.member_count, 10);
    assert_eq!(r.treasury, "1000000");
    assert_eq!(r.issue_count, 3);
    assert_eq!(r.merkle_root.as_deref(), Some("0xabcdef1234567890"));
    assert_eq!(r.total_payouts, 5000);
    assert!(r.options.admin_electable);
    assert!(!r.options.anyone_can_join);
    assert!(!r.options.only_admin_issues);
    assert!(!r.options.coin_burn_required);
    assert_eq!(r.options.voting_mode, 0);
}

#[test]
fn test_default_domain_members_names() {
    let r = default_domain_members_response("garden", 13);
    assert_eq!(r.domain_name, "garden");
    assert_eq!(r.members.len(), 13);
    assert_eq!(r.members[0], "cosmos1member0");
    assert_eq!(r.members[9], "cosmos1member9");
    assert_eq!(r.members[12], "cosmos1member12");
    let empty = default_domain_members_response("garden", 0);
    assert!(empty.members.is_empty());
}

#[test]
fn test_default_issue_response_suggestions() {
    let r = default_issue_response("roads", 3);
    assert_eq!(r.name, "roads");
    assert_eq!(r.stones, 42);
    assert_eq!(r.suggestion_count, 3);
    assert_eq!(r.creation_date, 1_700_000_000);
    assert!(r.external_link.is_none());
    assert_eq!(r.suggestions.len(), 3);
    assert_eq!(r.suggestions[2].name, "suggestion2");
    assert_eq!(r.suggestions[2].creator, "cosmos1member2");
    assert_eq!(r.suggestions[2].stones, 12);
    assert_eq!(r.suggestions[2].color, "green");
    assert_eq!(r.suggestions[2].score, 7);
}

#[test]
fn test_default_purge_schedule_fields() {
    let r = default_purge_schedule_response("garden");
    assert_eq!(r.domain_name, "garden");
    assert_eq!(r.next_purge_time, 1_700_086_400);
    assert_eq!(r.purge_interval, 604_800);
    assert_eq!(r.announcement_lead, 86_400);
}

#[test]
fn test_default_treasury_fields() {
    let r = default_treasury_response("garden", "250000");
    assert_eq!(r.domain_name, "garden");
    assert_eq!(r.amount, "250000");
}
