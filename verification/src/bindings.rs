//! Messages and queries the chain understands, and the response shapes
//! its query handlers return. These are plain data: the host attaches
//! its own serialization at the boundary.
use vstd::prelude::*;

verus! {

/// Custom messages a contract can send to the chain.
#[derive(Clone, Debug, PartialEq)]
pub enum TrueRepublicMsg {
    PlaceStoneOnIssue { domain_name: String, issue_name: String },
    PlaceStoneOnSuggestion { domain_name: String, issue_name: String, suggestion_name: String },
    CastElectionVote {
        domain_name: String,
        issue_name: String,
        candidate_name: String,
        choice: i32,
    },
    DepositToDomain { domain_name: String, amount: String },
    WithdrawFromDomain { domain_name: String, recipient: String, amount: String },
}

/// Custom queries the chain answers.
#[derive(Clone, Debug, PartialEq)]
pub enum TrueRepublicQuery {
    Domain { name: String },
    DomainMembers { domain_name: String },
    Issue { domain_name: String, issue_name: String },
    Suggestion { domain_name: String, issue_name: String, suggestion_name: String },
    PurgeSchedule { domain_name: String },
    Nullifier { domain_name: String, nullifier_hex: String },
    DomainTreasury { domain_name: String },
}

/// Answer to a domain query.
#[derive(Clone, Debug, PartialEq)]
pub struct DomainResponse {
    pub name: String,
    pub admin: String,
    pub member_count: i64,
    pub treasury: String,
    pub issue_count: i64,
    pub merkle_root: Option<String>,
    pub total_payouts: i64,
    pub options: DomainOptionsResponse,
}

/// Governance options of a domain.
#[derive(Clone, Debug, PartialEq)]
pub struct DomainOptionsResponse {
    pub admin_electable: bool,
    pub anyone_can_join: bool,
    pub only_admin_issues: bool,
    pub coin_burn_required: bool,
    pub voting_mode: i32,
}

/// Answer to a domain-members query.
#[derive(Clone, Debug, PartialEq)]
pub struct DomainMembersResponse {
    pub domain_name: String,
    pub members: Vec<String>,
}

/// Answer to an issue query.
#[derive(Clone, Debug, PartialEq)]
pub struct IssueResponse {
    pub name: String,
    pub stones: i64,
    pub suggestion_count: i64,
    pub suggestions: Vec<SuggestionBrief>,
    pub creation_date: i64,
    pub external_link: Option<String>,
}

/// One suggestion, as listed inside an issue.
#[derive(Clone, Debug, PartialEq)]
pub struct SuggestionBrief {
    pub name: String,
    pub creator: String,
    pub stones: i64,
    pub color: String,
    pub score: i64,
}

/// Answer to a suggestion query.
#[derive(Clone, Debug, PartialEq)]
pub struct SuggestionResponse {
    pub name: String,
    pub creator: String,
    pub stones: i64,
    pub color: String,
    pub rating_count: i64,
    pub score: i64,
    pub dwell_time: i64,
    pub creation_date: i64,
    pub external_link: Option<String>,
    pub delete_votes: i64,
}

/// Answer to a purge-schedule query.
#[derive(Clone, Debug, PartialEq)]
pub struct PurgeScheduleResponse {
    pub domain_name: String,
    pub next_purge_time: i64,
    pub purge_interval: i64,
    pub announcement_lead: i64,
}

/// Answer to a nullifier query.
#[derive(Clone, Debug, PartialEq)]
pub struct NullifierResponse {
    pub used: bool,
}

/// Answer to a domain-treasury query.
#[derive(Clone, Debug, PartialEq)]
pub struct DomainTreasuryResponse {
    pub domain_name: String,
    pub amount: String,
}

} // verus!
