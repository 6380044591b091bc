//! Deterministic sample responses for the chain's query shapes, used by
//! mock query handlers in tests. Generated names carry decimal indices,
//! so the builders come with an exact account of every string they make.
use vstd::prelude::*;
use crate::bindings::{
    DomainMembersResponse, DomainOptionsResponse, DomainResponse, DomainTreasuryResponse,
    IssueResponse, PurgeScheduleResponse, SuggestionBrief,
};

verus! {

/// The character for one decimal digit.
pub open spec fn digit_char(d: int) -> char {
    if d == 0 {
        '0'
    } else if d == 1 {
        '1'
    } else if d == 2 {
        '2'
    } else if d == 3 {
        '3'
    } else if d == 4 {
        '4'
    } else if d == 5 {
        '5'
    } else if d == 6 {
        '6'
    } else if d == 7 {
        '7'
    } else if d == 8 {
        '8'
    } else {
        '9'
    }
}

/// The decimal rendering of a non-negative number, most significant
/// digit first, without leading zeros (a lone zero for zero).
pub open spec fn decimal_digits(n: int) -> Seq<char>
    decreases n,
{
    if n < 10 {
        seq![digit_char(n)]
    } else {
        decimal_digits(n / 10).push(digit_char(n % 10))
    }
}

/// Append the decimal rendering of `n`.
fn push_decimal(s: &mut String, n: u64)
    ensures
        final(s)@ == old(s)@ + decimal_digits(n as int),
    decreases n,
{
    if n >= 10 {
        push_decimal(s, n / 10);
    }
    let d = (n % 10) as usize;
    let digits = "0123456789";
    proof {
        reveal_strlit("0123456789");
    }
    let c = digits.substring_ascii(d, d + 1);
    proof {
        assert(c@ =~= seq![digit_char((n % 10) as int)]);
    }
    s.append(c);
}

/// The name of the sample member with index `i`.
pub open spec fn member_name_chars(i: int) -> Seq<char> {
    "cosmos1member"@ + decimal_digits(i)
}

/// The name of the sample suggestion with index `i`.
pub open spec fn suggestion_name_chars(i: int) -> Seq<char> {
    "suggestion"@ + decimal_digits(i)
}

/// The name of the sample member with index `i`, as an owned string.
fn member_name(i: u64) -> (r: String)
    ensures
        r@ == member_name_chars(i as int),
{
    let mut s = "cosmos1member".to_owned();
    push_decimal(&mut s, i);
    s
}

/// The name of the sample suggestion with index `i`, as an owned string.
fn suggestion_name(i: u64) -> (r: String)
    ensures
        r@ == suggestion_name_chars(i as int),
{
    let mut s = "suggestion".to_owned();
    push_decimal(&mut s, i);
    s
}

/// A domain answer with fixed sample figures and options.
pub fn default_domain_response(name: &str) -> (r: DomainResponse)
    ensures
        r.name@ == name@,
        r.admin@ == "cosmos1admin"@,
        r.member_count == 10,
        r.treasury@ == "1000000"@,
        r.issue_count == 3,
        r.merkle_root matches Some(m) && m@ == "0xabcdef1234567890"@,
        r.total_payouts == 5000,
        r.options == (DomainOptionsResponse {
            admin_electable: true,
            anyone_can_join: false,
            only_admin_issues: false,
            coin_burn_required: false,
            voting_mode: 0,
        }),
{
    DomainResponse {
        name: name.to_owned(),
        admin: "cosmos1admin".to_owned(),
        member_count: 10,
        treasury: "1000000".to_owned(),
        issue_count: 3,
        merkle_root: Some("0xabcdef1234567890".to_owned()),
        total_payouts: 5000,
        options: DomainOptionsResponse {
            admin_electable: true,
            anyone_can_join: false,
            only_admin_issues: false,
            coin_burn_required: false,
            voting_mode: 0,
        },
    }
}

/// A member list of the requested size, with numbered sample names.
pub fn default_domain_members_response(name: &str, count: usize) -> (r: DomainMembersResponse)
    ensures
        r.domain_name@ == name@,
        r.members@.len() == count,
        forall|i: int| 0 <= i < count ==> (#[trigger] r.members@[i])@ == member_name_chars(i),
{
    let mut members: Vec<String> = Vec::new();
    let mut i: usize = 0;
    while i < count
        invariant
            0 <= i <= count,
            members@.len() == i,
            forall|j: int| 0 <= j < i ==> (#[trigger] members@[j])@ == member_name_chars(j),
        decreases count - i,
    {
        members.push(member_name(i as u64));
        i = i + 1;
    }
    DomainMembersResponse { domain_name: name.to_owned(), members }
}

/// An issue answer with the requested number of numbered sample
/// suggestions, each with figures derived from its index.
pub fn default_issue_response(name: &str, suggestion_count: usize) -> (r: IssueResponse)
    requires
        suggestion_count + 10 <= i64::MAX,
    ensures
        r.name@ == name@,
        r.stones == 42,
        r.suggestion_count == suggestion_count as i64,
        r.creation_date == 1700000000,
        r.external_link is None,
        r.suggestions@.len() == suggestion_count,
        forall|i: int|
            0 <= i < suggestion_count ==> {
                let s = #[trigger] r.suggestions@[i];
                &&& s.name@ == suggestion_name_chars(i)
                &&& s.creator@ == member_name_chars(i)
                &&& s.stones == 10 + i
                &&& s.color@ == "green"@
                &&& s.score == 5 + i
            },
{
    let mut suggestions: Vec<SuggestionBrief> = Vec::new();
    let mut i: usize = 0;
    while i < suggestion_count
        invariant
            0 <= i <= suggestion_count,
            suggestion_count + 10 <= i64::MAX,
            suggestions@.len() == i,
            forall|j: int|
                0 <= j < i ==> {
                    let s = #[trigger] suggestions@[j];
                    &&& s.name@ == suggestion_name_chars(j)
                    &&& s.creator@ == member_name_chars(j)
                    &&& s.stones == 10 + j
                    &&& s.color@ == "green"@
                    &&& s.score == 5 + j
                },
        decreases suggestion_count - i,
    {
        suggestions.push(
            SuggestionBrief {
                name: suggestion_name(i as u64),
                creator: member_name(i as u64),
                stones: 10 + i as i64,
                color: "green".to_owned(),
                score: 5 + i as i64,
            },
        );
        i = i + 1;
    }
    IssueResponse {
        name: name.to_owned(),
        stones: 42,
        suggestion_count: suggestion_count as i64,
        suggestions,
        creation_date: 1700000000,
        external_link: None,
    }
}

/// A purge schedule one week apart with a one-day announcement lead.
pub fn default_purge_schedule_response(name: &str) -> (r: PurgeScheduleResponse)
    ensures
        r.domain_name@ == name@,
        r.next_purge_time == 1700086400,
        r.purge_interval == 604800,
        r.announcement_lead == 86400,
{
    PurgeScheduleResponse {
        domain_name: name.to_owned(),
        next_purge_time: 1700086400,
        purge_interval: 604800,
        announcement_lead: 86400,
    }
}

/// A treasury answer echoing the given amount.
pub fn default_treasury_response(name: &str, amount: &str) -> (r: DomainTreasuryResponse)
    ensures
        r.domain_name@ == name@,
        r.amount@ == amount@,
{
    DomainTreasuryResponse { domain_name: name.to_owned(), amount: amount.to_owned() }
}

} // verus!
