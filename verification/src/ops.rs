//! The composite operations' decision logic.
//!
//! Each composite operation (`list_all`, `delete_all`, `update_or_create`)
//! sequences primitive REST calls and branches on the classifier's verdict.
//! The functions here take a decoded response envelope and return the next
//! step as a value — the caller performs the network calls and feeds the
//! decoded results back in, so every decision the operations make is checked
//! here while the transport stays outside the library.

use vstd::prelude::*;

use crate::encode::encode_envelope;
use crate::encode::envelope_json;
use crate::envelope::classify;
use crate::envelope::code_envelope;
use crate::envelope::code_envelope_spec;
use crate::envelope::error_envelope;
use crate::envelope::error_envelope_spec;
use crate::envelope::verdict_of;
use crate::envelope::Envelope;
use crate::envelope::Item;
use crate::envelope::Verdict;
use crate::numeral::dec_rep;
use crate::numeral::u32_to_string;
use crate::table::opt_str_view;

verus! {

/// What `list_all` does after its probe call: finish with this body, or
/// issue a second primitive list call with this query and return that
/// call's body verbatim.
pub enum ListAllStep {
    Finish { body: String },
    SecondCall { query: String },
}

/// The mathematical shape of a [`ListAllStep`].
pub ghost enum ListAllPlan {
    Finish(Seq<char>),
    SecondCall(Seq<char>),
}

impl View for ListAllStep {
    type V = ListAllPlan;

    open spec fn view(&self) -> ListAllPlan {
        match self {
            ListAllStep::Finish { body } => ListAllPlan::Finish(body@),
            ListAllStep::SecondCall { query } => ListAllPlan::SecondCall(query@),
        }
    }
}

/// What `delete_all` does after the full listing: finish with this body, or
/// delete each of these ids in order and then issue one final list call
/// with the caller's original parameters.
pub enum DeleteAllStep {
    Finish { body: String },
    DeleteEach { ids: Vec<String> },
}

/// The mathematical shape of a [`DeleteAllStep`].
pub ghost enum DeleteAllPlan {
    Finish(Seq<char>),
    DeleteEach(Seq<String>),
}

impl View for DeleteAllStep {
    type V = DeleteAllPlan;

    open spec fn view(&self) -> DeleteAllPlan {
        match self {
            DeleteAllStep::Finish { body } => DeleteAllPlan::Finish(body@),
            DeleteAllStep::DeleteEach { ids } => DeleteAllPlan::DeleteEach(ids@),
        }
    }
}

/// What `update_or_create` does after the update call: finish with this
/// body, or fall back to a create call with the original data and return
/// that call's body verbatim.
pub enum UpsertStep {
    Finish { body: String },
    CreateFallback,
}

/// The mathematical shape of an [`UpsertStep`].
pub ghost enum UpsertPlan {
    Finish(Seq<char>),
    CreateFallback,
}

impl View for UpsertStep {
    type V = UpsertPlan;

    open spec fn view(&self) -> UpsertPlan {
        match self {
            UpsertStep::Finish { body } => UpsertPlan::Finish(body@),
            UpsertStep::CreateFallback => UpsertPlan::CreateFallback,
        }
    }
}

/// The query `list_all`'s probe call carries: one record per page, so the
/// response discloses the collection's total cheaply.
pub fn first_page_query() -> (q: String)
    ensures
        q@ == "perPage=1"@,
{
    "perPage=1".to_owned()
}

/// The query for the full fetch: a page size equal to the discovered
/// total, with the caller's extra parameters appended after `&` if any.
pub open spec fn full_fetch_query(total: u32, param: Option<Seq<char>>) -> Seq<char> {
    match param {
        Option::None => "perPage="@ + dec_rep(total as nat),
        Option::Some(p) => "perPage="@ + dec_rep(total as nat) + "&"@ + p,
    }
}

/// `list_all`'s decision on the probe response: a failed probe collapses to
/// the canonical error envelope, a code-only probe to the canonical code
/// envelope, and a successful probe leads to the full fetch.
pub open spec fn list_all_plan_spec(e: Envelope, param: Option<Seq<char>>) -> ListAllPlan {
    match verdict_of(e) {
        Verdict::Error => ListAllPlan::Finish(error_envelope_spec()),
        Verdict::CodeOnly => ListAllPlan::Finish(code_envelope_spec()),
        Verdict::Success => ListAllPlan::SecondCall(
            full_fetch_query(e.total_items->Some_0, param),
        ),
    }
}

/// Decides `list_all`'s next step from the probe call's decoded response.
///
/// A successful probe without a total is the one input on which the
/// operation cannot continue; callers must rule it out (the behaviour on it
/// is a fatal fault, not an envelope).
pub fn list_all_plan(e: &Envelope, param: Option<&str>) -> (step: ListAllStep)
    requires
        verdict_of(*e) is Success ==> e.total_items is Some,
    ensures
        step@ == list_all_plan_spec(*e, opt_str_view(param)),
{
    match classify(e) {
        Verdict::Error => ListAllStep::Finish { body: error_envelope() },
        Verdict::CodeOnly => ListAllStep::Finish { body: code_envelope() },
        Verdict::Success => {
            let total = e.total_items.unwrap();
            let mut q = "perPage=".to_owned();
            let digits = u32_to_string(total);
            q.append(digits.as_str());
            match param {
                Option::None => {},
                Option::Some(p) => {
                    q.append("&");
                    q.append(p);
                },
            }
            proof {
                assert(q@ =~= full_fetch_query(total, opt_str_view(param)));
            }
            ListAllStep::SecondCall { query: q }
        },
    }
}

/// The listed ids, in listing order.
pub open spec fn ids_of(items: Seq<Item>) -> Seq<String> {
    items.map_values(|it: Item| it.id)
}

/// `delete_all`'s decision on the full listing: canonical envelopes
/// propagate without any deletion; a successful listing yields the ids to
/// delete, one call each, in listing order.
pub open spec fn delete_all_plan_spec(e: Envelope) -> DeleteAllPlan {
    match verdict_of(e) {
        Verdict::Error => DeleteAllPlan::Finish(error_envelope_spec()),
        Verdict::CodeOnly => DeleteAllPlan::Finish(code_envelope_spec()),
        Verdict::Success => DeleteAllPlan::DeleteEach(ids_of(e.items->Some_0@)),
    }
}

/// Decides `delete_all`'s next step from the full listing's decoded
/// response.
///
/// A successful listing without an items field is the one input on which
/// the operation cannot continue; callers must rule it out (the behaviour
/// on it is a fatal fault, not an envelope).
pub fn delete_all_plan(e: &Envelope) -> (step: DeleteAllStep)
    requires
        verdict_of(*e) is Success ==> e.items is Some,
    ensures
        step@ == delete_all_plan_spec(*e),
{
    match classify(e) {
        Verdict::Error => DeleteAllStep::Finish { body: error_envelope() },
        Verdict::CodeOnly => DeleteAllStep::Finish { body: code_envelope() },
        Verdict::Success => {
            let items = e.items.as_ref().unwrap();
            let mut ids: Vec<String> = Vec::new();
            let mut i: usize = 0;
            while i < items.len()
                invariant
                    i <= items.len(),
                    ids@.len() == i as int,
                    forall|j: int| 0 <= j < i as int ==> ids@[j] == items@[j].id,
                decreases items.len() - i,
            {
                ids.push(items[i].id.clone());
                i = i + 1;
            }
            proof {
                assert(ids@ =~= ids_of(items@));
            }
            DeleteAllStep::DeleteEach { ids }
        },
    }
}

/// `update_or_create`'s decision on the update response: a failed update
/// collapses to the canonical error envelope, a code-only response (the
/// record was not found) triggers the create fallback, and a successful
/// update finishes with the envelope re-serialized.
pub open spec fn upsert_plan_spec(e: Envelope) -> UpsertPlan {
    match verdict_of(e) {
        Verdict::Error => UpsertPlan::Finish(error_envelope_spec()),
        Verdict::CodeOnly => UpsertPlan::CreateFallback,
        Verdict::Success => UpsertPlan::Finish(envelope_json(e)),
    }
}

/// Decides `update_or_create`'s next step from the update call's decoded
/// response.
pub fn update_or_create_plan(e: &Envelope) -> (step: UpsertStep)
    ensures
        step@ == upsert_plan_spec(*e),
{
    match classify(e) {
        Verdict::Error => UpsertStep::Finish { body: error_envelope() },
        Verdict::CodeOnly => UpsertStep::CreateFallback,
        Verdict::Success => UpsertStep::Finish { body: encode_envelope(e) },
    }
}

/// Law: `list_all` issues a second primitive list call exactly when the
/// probe succeeds; a failed or code-only probe finishes after the single
/// call.
pub proof fn lemma_list_all_call_count(e: Envelope, param: Option<Seq<char>>)
    ensures
        (list_all_plan_spec(e, param) is SecondCall) <==> (verdict_of(e) is Success),
{
}

/// Law: whatever value the probe's error field carries, `list_all` returns
/// exactly the canonical error envelope.
pub proof fn lemma_list_all_error_canonical(e: Envelope, param: Option<Seq<char>>)
    requires
        e.error is Some,
    ensures
        list_all_plan_spec(e, param) == ListAllPlan::Finish(error_envelope_spec()),
{
}

/// Law: whatever value the probe's code field carries (no error present),
/// `list_all` returns exactly the canonical code envelope.
pub proof fn lemma_list_all_code_canonical(e: Envelope, param: Option<Seq<char>>)
    requires
        e.error is None,
        e.code is Some,
    ensures
        list_all_plan_spec(e, param) == ListAllPlan::Finish(code_envelope_spec()),
{
}

/// Law: on a successful probe, the second call's query carries the
/// discovered total as its page size, with the caller's extra parameters
/// after it.
pub proof fn lemma_list_all_full_fetch(e: Envelope, param: Option<Seq<char>>)
    requires
        verdict_of(e) is Success,
    ensures
        list_all_plan_spec(e, param) == ListAllPlan::SecondCall(
            full_fetch_query(e.total_items->Some_0, param),
        ),
{
}

/// Law: on a successful listing of N items, `delete_all` deletes exactly
/// those N ids, in listing order, before its final list call.
pub proof fn lemma_delete_all_order(e: Envelope)
    requires
        verdict_of(e) is Success,
        e.items is Some,
    ensures
        delete_all_plan_spec(e) == DeleteAllPlan::DeleteEach(ids_of(e.items->Some_0@)),
        ids_of(e.items->Some_0@).len() == e.items->Some_0@.len(),
        forall|j: int|
            0 <= j < e.items->Some_0@.len() ==> ids_of(e.items->Some_0@)[j]
                == e.items->Some_0@[j].id,
{
}

/// Law: the create fallback fires exactly on a code-only update response;
/// a successful update never issues a create call.
pub proof fn lemma_upsert_create_exactly_on_code(e: Envelope)
    ensures
        (upsert_plan_spec(e) is CreateFallback) <==> (verdict_of(e) is CodeOnly),
{
}

/// Law (idempotence): when the record exists both times — both update
/// responses classify as success — neither of two consecutive
/// `update_or_create` calls falls back to create.
pub proof fn lemma_upsert_idempotent(first: Envelope, second: Envelope)
    requires
        verdict_of(first) is Success,
        verdict_of(second) is Success,
    ensures
        !(upsert_plan_spec(first) is CreateFallback),
        !(upsert_plan_spec(second) is CreateFallback),
{
}

} // verus!
