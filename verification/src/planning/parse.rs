//! Reading the model's replies of the planning phase.
//!
//! A reply's JSON payload is located, decoded into the plain records below
//! (by the caller, with a JSON decoder), and the records are turned into
//! approaches and plans here.

use vstd::prelude::*;
use vstd::string::StringSliceAdditionalSpecFns;

use crate::planning::approach::{Approach, ApproachOptions};
use crate::planning::error::PlanningError;
use crate::planning::plan::{Complexity, FileModification, FileSpec, Plan};
use crate::response::{extract_json, json_payload, quoted, quoted_len, quoting_message, trim_slice};
use crate::text::{chars_of, eq_lit, owned, lowercased, to_lowercase, trim};

verus! {

broadcast use vstd::string::group_string_axioms;

/// The complexity a label names: "low" and "high" in any case, anything
/// else medium.
pub open spec fn complexity_of_label(label: Seq<char>) -> Complexity {
    if lowercased(label) == "low"@ {
        Complexity::Low
    } else if lowercased(label) == "high"@ {
        Complexity::High
    } else {
        Complexity::Medium
    }
}

/// A label that lowercases to neither "low" nor "high" (such as "medium" in
/// any case) reads as Medium, and the three labels "low", "medium" and
/// "high" read as three different complexities: Low, Medium and High.
pub proof fn lemma_complexity_labels(label: Seq<char>)
    ensures
        lowercased(label) != "low"@ && lowercased(label) != "high"@ ==> complexity_of_label(label)
            == Complexity::Medium,
        lowercased(label) == "medium"@ ==> complexity_of_label(label) == Complexity::Medium,
        complexity_of_label("low"@) == Complexity::Low,
        complexity_of_label("medium"@) == Complexity::Medium,
        complexity_of_label("high"@) == Complexity::High,
{
    reveal_strlit("low");
    reveal_strlit("medium");
    reveal_strlit("high");
    crate::text::lemma_lowercase_fixed("low"@);
    crate::text::lemma_lowercase_fixed("medium"@);
    crate::text::lemma_lowercase_fixed("high"@);
    assert("medium"@.len() != "low"@.len());
    assert("medium"@.len() != "high"@.len());
    assert("low"@.len() != "high"@.len());
}

/// Reads a complexity label.
pub fn complexity_from_label(label: &str) -> (c: Complexity)
    ensures
        c == complexity_of_label(label@),
{
    let lower = to_lowercase(label);
    let lc = chars_of(lower.as_str());
    if eq_lit(lc.as_slice(), "low") {
        Complexity::Low
    } else if eq_lit(lc.as_slice(), "high") {
        Complexity::High
    } else {
        Complexity::Medium
    }
}

/// One approach as the model describes it.
#[derive(Debug, Clone)]
pub struct ApproachData {
    pub id: String,
    pub name: String,
    pub description: String,
    pub pros: Vec<String>,
    pub cons: Vec<String>,
    /// "low", "medium" or "high"
    pub complexity: String,
    pub recommended: bool,
}

/// The approach a described approach stands for.
pub open spec fn approach_of(d: ApproachData) -> Approach {
    Approach {
        id: d.id,
        name: d.name,
        description: d.description,
        pros: d.pros,
        cons: d.cons,
        complexity: complexity_of_label(d.complexity@),
        recommended: d.recommended,
    }
}

/// The id of the last recommended approach among `ds`, if any.
pub open spec fn last_recommended_id(ds: Seq<ApproachData>) -> Option<Seq<char>>
    decreases ds.len(),
{
    if ds.len() == 0 {
        None
    } else if ds.last().recommended {
        Some(ds.last().id@)
    } else {
        last_recommended_id(ds.drop_last())
    }
}

/// The approach a described approach stands for, with its complexity read.
pub fn approach_from_data(d: ApproachData) -> (a: Approach)
    ensures
        a == approach_of(d),
{
    let complexity = complexity_from_label(d.complexity.as_str());
    Approach {
        id: d.id,
        name: d.name,
        description: d.description,
        pros: d.pros,
        cons: d.cons,
        complexity,
        recommended: d.recommended,
    }
}

/// Builds the options from the described approaches, in order.
pub fn approaches_from_data(data: Vec<ApproachData>) -> (r: ApproachOptions)
    ensures
        r.approaches@.len() == data@.len(),
        forall|i: int| 0 <= i < data@.len() ==> r.approaches@[i] == approach_of(#[trigger] data@[i]),
        (match r.recommended_id {
            Some(id) => Some(id@),
            None => None,
        }) == last_recommended_id(data@),
{
    let ghost all = data@;
    let n = data.len();
    let mut rest = data;
    let mut options = ApproachOptions::new();
    let mut i: usize = 0;
    while rest.len() > 0
        invariant
            i + rest@.len() == all.len(),
            all.len() == n,
            rest@ == all.skip(i as int),
            options.approaches@.len() == i,
            forall|j: int| 0 <= j < i ==> options.approaches@[j] == approach_of(#[trigger] all[j]),
            (match options.recommended_id {
                Some(id) => Some(id@),
                None => None,
            }) == last_recommended_id(all.take(i as int)),
        decreases rest.len(),
    {
        let d = rest.remove(0);
        assert(d == all[i as int]);
        let approach = approach_from_data(d);
        options.add(approach);
        assert(all.take(i + 1).drop_last() =~= all.take(i as int));
        assert(rest@ =~= all.skip(i + 1));
        i = i + 1;
    }
    assert(all.take(i as int) =~= all);
    options
}

/// The plan as the model describes it.
#[derive(Debug, Clone)]
pub struct PlanData {
    pub task_name: String,
    pub approach: String,
    /// "low", "medium" or "high"
    pub complexity: String,
    pub files_to_create: Vec<FileSpec>,
    pub files_to_modify: Vec<FileModification>,
    pub dependencies_to_add: Vec<String>,
}

/// The plan a described plan stands for.
pub open spec fn plan_of(d: PlanData) -> Plan {
    Plan {
        task_name: d.task_name,
        approach: d.approach,
        complexity: complexity_of_label(d.complexity@),
        files_to_create: d.files_to_create,
        files_to_modify: d.files_to_modify,
        dependencies_to_add: d.dependencies_to_add,
    }
}

/// Builds the plan from its description, reading its complexity.
pub fn plan_from_data(d: PlanData) -> (p: Plan)
    ensures
        p == plan_of(d),
{
    let complexity = complexity_from_label(d.complexity.as_str());
    Plan {
        task_name: d.task_name,
        approach: d.approach,
        complexity,
        files_to_create: d.files_to_create,
        files_to_modify: d.files_to_modify,
        dependencies_to_add: d.dependencies_to_add,
    }
}

/// The message given when the reply is blank.
pub const EMPTY_REPLY_MESSAGE: &'static str = "LLM returned an empty response. This may indicate an API issue or rate limiting.";

/// The start of the message given when the reply holds no JSON object.
pub const NO_JSON_MESSAGE: &'static str = "No valid JSON found in LLM response. Raw response (first 500 chars): ";

/// Whether a reply holds no JSON object: its payload is empty or does not
/// start with '{'.
pub open spec fn lacks_json_object(response: Seq<char>) -> bool {
    json_payload(response).len() == 0 || json_payload(response)[0] != '{'
}

/// Checks a plan reply before it is decoded, and gives its JSON payload.
///
/// A blank reply, and a reply whose payload is not a JSON object, are
/// parse errors; the latter quotes the first 500 bytes of the reply.
pub fn check_plan_reply(response: &str) -> (r: Result<&str, PlanningError>)
    requires
        response.spec_bytes().len() <= usize::MAX,
        trim(response@).len() != 0 && lacks_json_object(response@) ==> vstd::utf8::is_char_boundary(
            response.spec_bytes(),
            quoted_len(response),
        ),
    ensures
        trim(response@).len() == 0 ==> (r matches Err(PlanningError::ParseError(m)) && m@
            == EMPTY_REPLY_MESSAGE@),
        trim(response@).len() != 0 && lacks_json_object(response@) ==> (r matches Err(
            PlanningError::ParseError(m),
        ) && m@ == NO_JSON_MESSAGE@ + quoted(response)),
        trim(response@).len() != 0 && !lacks_json_object(response@) ==> (r matches Ok(j) && j@
            == json_payload(response@)),
{
    let t = trim_slice(response);
    if t.unicode_len() == 0 {
        return Err(PlanningError::ParseError(owned(EMPTY_REPLY_MESSAGE)));
    }
    let json = extract_json(response);
    let n = json.unicode_len();
    if n == 0 || json.get_char(0) != '{' {
        let m = quoting_message(NO_JSON_MESSAGE, response);
        return Err(PlanningError::ParseError(m));
    }
    Ok(json)
}

} // verus!
