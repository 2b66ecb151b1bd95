//! Prompt requests and the rules they are checked against.

use crate::text::{decimal, is_blank, push_decimal, trim};
use vstd::prelude::*;
use vstd::string::StringExecFns;

verus! {

/// Whether a request must carry a system prompt.
#[derive(Debug, Clone, Copy, PartialEq, Eq, Structural)]
pub enum SystemRule {
    /// A blank system prompt is an issue.
    Required,
    /// A blank system prompt is accepted and left out of what is sent on.
    Optional,
}

/// A system instruction and the user's query.
#[derive(Debug, Clone, PartialEq, Eq)]
pub struct PromptItem {
    pub system: String,
    pub user: String,
}

/// The single-prompt request body.
#[derive(Debug, Clone, PartialEq, Eq)]
pub struct PromptsRequest {
    pub prompts: PromptItem,
}

/// `outcome` reports exactly `issues`: success when there are none, and
/// otherwise the whole list in order.
pub open spec fn reports(outcome: Result<(), Vec<String>>, issues: Seq<Seq<char>>) -> bool {
    match outcome {
        Ok(_) => issues.len() == 0,
        Err(found) => issues.len() > 0 && found.deep_view() == issues,
    }
}

impl PromptsRequest {
    /// The issues of this request under `rule`, in reporting order.
    pub open spec fn issues_under(&self, rule: SystemRule) -> Seq<Seq<char>> {
        let system: Seq<Seq<char>> = if rule == SystemRule::Required && is_blank(
            self.prompts.system@,
        ) {
            seq!["prompts.system is empty"@]
        } else {
            Seq::empty()
        };
        let user: Seq<Seq<char>> = if is_blank(self.prompts.user@) {
            seq!["prompts.user is empty"@]
        } else {
            Seq::empty()
        };
        system + user
    }

    /// The issues of this request when the system prompt is required.
    pub open spec fn issues(&self) -> Seq<Seq<char>> {
        self.issues_under(SystemRule::Required)
    }

    /// Checks the request under `rule` and reports every issue at once.
    pub fn validate_with(&self, rule: SystemRule) -> (outcome: Result<(), Vec<String>>)
        ensures
            reports(outcome, self.issues_under(rule)),
    {
        let mut issues: Vec<String> = Vec::new();
        if rule == SystemRule::Required && trim(self.prompts.system.as_str()).is_empty() {
            issues.push(String::from_str("prompts.system is empty"));
        }
        if trim(self.prompts.user.as_str()).is_empty() {
            issues.push(String::from_str("prompts.user is empty"));
        }
        assert(issues.deep_view() =~= self.issues_under(rule));
        if issues.is_empty() {
            Ok(())
        } else {
            Err(issues)
        }
    }

    /// Checks the request with the system prompt required.
    pub fn validate(&self) -> (outcome: Result<(), Vec<String>>)
        ensures
            reports(outcome, self.issues()),
    {
        self.validate_with(SystemRule::Required)
    }
}

/// One entry of the list-shaped request body.
#[derive(Debug, Clone, PartialEq, Eq)]
pub struct PromptListItem {
    pub id: u64,
    pub prompt: String,
}

/// The list-shaped request body.
#[derive(Debug, Clone, PartialEq, Eq)]
pub struct PromptListRequest {
    pub prompts: Vec<PromptListItem>,
}

/// The issue raised when the entry in position `expected` carries `actual`.
pub open spec fn id_mismatch(expected: nat, actual: nat) -> Seq<char> {
    "expected id "@ + decimal(expected) + " but got "@ + decimal(actual)
}

/// The issue raised when the entry with the given id has a blank prompt.
pub open spec fn empty_prompt(id: nat) -> Seq<char> {
    "id "@ + decimal(id) + " has empty prompt"@
}

/// The issues of one entry that stands in the 1-based position `expected`.
pub open spec fn item_issues(item: PromptListItem, expected: nat) -> Seq<Seq<char>> {
    let id: Seq<Seq<char>> = if item.id != expected {
        seq![id_mismatch(expected, item.id as nat)]
    } else {
        Seq::empty()
    };
    let prompt: Seq<Seq<char>> = if is_blank(item.prompt@) {
        seq![empty_prompt(item.id as nat)]
    } else {
        Seq::empty()
    };
    id + prompt
}

/// The issues of the entries in array order.
pub open spec fn list_issues(items: Seq<PromptListItem>) -> Seq<Seq<char>>
    decreases items.len(),
{
    if items.len() == 0 {
        Seq::empty()
    } else {
        list_issues(items.drop_last()) + item_issues(items.last(), items.len())
    }
}

/// The entry in position `i` carries the id `i + 1` and a prompt that is not
/// blank.
pub open spec fn entry_in_order(items: Seq<PromptListItem>, i: int) -> bool {
    items[i].id == i + 1 && !is_blank(items[i].prompt@)
}

impl PromptListRequest {
    /// The issues of this request, in reporting order.
    pub open spec fn issues(&self) -> Seq<Seq<char>> {
        if self.prompts@.len() == 0 {
            seq!["prompts must not be empty"@]
        } else {
            list_issues(self.prompts@)
        }
    }

    /// Checks every entry and reports all issues at once.
    pub fn validate(&self) -> (outcome: Result<(), Vec<String>>)
        ensures
            reports(outcome, self.issues()),
    {
        let mut issues: Vec<String> = Vec::new();
        if self.prompts.len() == 0 {
            issues.push(String::from_str("prompts must not be empty"));
            assert(issues.deep_view() =~= self.issues());
            return Err(issues);
        }
        let mut i: usize = 0;
        while i < self.prompts.len()
            invariant
                i <= self.prompts.len(),
                issues.deep_view() == list_issues(self.prompts@.take(i as int)),
            decreases self.prompts.len() - i,
        {
            let item = &self.prompts[i];
            let expected: u64 = (i + 1) as u64;
            let ghost before = issues.deep_view();
            if item.id != expected {
                let mut text = String::from_str("expected id ");
                push_decimal(&mut text, expected);
                text.append(" but got ");
                push_decimal(&mut text, item.id);
                issues.push(text);
            }
            if trim(item.prompt.as_str()).is_empty() {
                let mut text = String::from_str("id ");
                push_decimal(&mut text, item.id);
                text.append(" has empty prompt");
                issues.push(text);
            }
            proof {
                let seen = self.prompts@.take(i + 1);
                assert(seen.drop_last() =~= self.prompts@.take(i as int));
                assert(seen.last() == *item);
                assert(issues.deep_view() =~= before + item_issues(*item, (i + 1) as nat));
            }
            i = i + 1;
        }
        proof {
            assert(self.prompts@.take(self.prompts.len() as int) =~= self.prompts@);
        }
        if issues.is_empty() {
            Ok(())
        } else {
            Err(issues)
        }
    }
}

/// A list with at least one entry passes validation exactly when its ids run
/// 1, 2, 3, ... in array order and no prompt is blank.
pub proof fn lemma_list_accepted_iff_in_order(request: PromptListRequest)
    requires
        request.prompts@.len() > 0,
    ensures
        request.issues().len() == 0 <==> forall|i: int|
            0 <= i < request.prompts@.len() ==> entry_in_order(request.prompts@, i),
{
    lemma_list_issues_none_iff_in_order(request.prompts@);
}

/// No entry of `items` raises an issue exactly when every entry is in order.
pub proof fn lemma_list_issues_none_iff_in_order(items: Seq<PromptListItem>)
    ensures
        list_issues(items).len() == 0 <==> forall|i: int|
            0 <= i < items.len() ==> entry_in_order(items, i),
    decreases items.len(),
{
    if items.len() > 0 {
        let front = items.drop_last();
        let last = items.len() - 1;
        lemma_list_issues_none_iff_in_order(front);
        if list_issues(items).len() == 0 {
            assert forall|i: int| 0 <= i < items.len() implies entry_in_order(items, i) by {
                if i < last {
                    assert(entry_in_order(front, i));
                }
            }
        }
        if forall|i: int| 0 <= i < items.len() ==> entry_in_order(items, i) {
            assert forall|i: int| 0 <= i < front.len() implies entry_in_order(front, i) by {
                assert(entry_in_order(items, i));
            }
            assert(entry_in_order(items, last));
        }
    }
}

/// Validation reads the request and nothing else: two runs on the same
/// request report the same issues.
pub proof fn lemma_validation_repeats(
    request: PromptsRequest,
    rule: SystemRule,
    first: Result<(), Vec<String>>,
    second: Result<(), Vec<String>>,
)
    requires
        reports(first, request.issues_under(rule)),
        reports(second, request.issues_under(rule)),
    ensures
        first is Ok <==> second is Ok,
        first is Err ==> first->Err_0.deep_view() == second->Err_0.deep_view(),
{
}

/// The same for list-shaped requests.
pub proof fn lemma_list_validation_repeats(
    request: PromptListRequest,
    first: Result<(), Vec<String>>,
    second: Result<(), Vec<String>>,
)
    requires
        reports(first, request.issues()),
        reports(second, request.issues()),
    ensures
        first is Ok <==> second is Ok,
        first is Err ==> first->Err_0.deep_view() == second->Err_0.deep_view(),
{
}

} // verus!
