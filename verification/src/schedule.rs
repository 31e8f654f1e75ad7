use crate::model::{LocalDate, Plan};
use crate::state::PersistentDeviceState;
use vstd::prelude::*;

verus! {

pub open spec fn is_past(plan: Plan, date: LocalDate) -> bool {
    plan.date.ordinal() <= date.ordinal()
}

/// Among the first `n` plans dated on or before `date`, the index of the latest one;
/// of several with that date, the last.
pub open spec fn latest_past_index(plans: Seq<Plan>, date: LocalDate, n: nat) -> Option<int>
    decreases n,
{
    if n == 0 {
        None
    } else {
        let previous = latest_past_index(plans, date, (n - 1) as nat);
        let i = n - 1;
        if is_past(plans[i], date) && (previous matches Some(p) ==> plans[p].date.ordinal()
            <= plans[i].date.ordinal()) {
            Some(i)
        } else {
            previous
        }
    }
}

/// Among the first `n` plans dated after `date`, the index of the earliest one;
/// of several with that date, the first.
pub open spec fn earliest_future_index(plans: Seq<Plan>, date: LocalDate, n: nat) -> Option<int>
    decreases n,
{
    if n == 0 {
        None
    } else {
        let previous = earliest_future_index(plans, date, (n - 1) as nat);
        let i = n - 1;
        if !is_past(plans[i], date) && (previous matches Some(p) ==> plans[i].date.ordinal()
            < plans[p].date.ordinal()) {
            Some(i)
        } else {
            previous
        }
    }
}

/// The plan that the frame shows on `date`: the latest plan dated on or before it, or, when
/// there is none, the earliest plan after it.
pub open spec fn selected_plan_index(plans: Seq<Plan>, date: LocalDate) -> Option<int> {
    match latest_past_index(plans, date, plans.len()) {
        Some(i) => Some(i),
        None => earliest_future_index(plans, date, plans.len()),
    }
}

pub fn select_plan_for_date(plans: &[Plan], date: LocalDate) -> (result: Option<&Plan>)
    ensures
        result is Some <==> selected_plan_index(plans@, date) is Some,
        result matches Some(plan) ==> *plan == plans@[selected_plan_index(plans@, date).unwrap()],
{
    match select_plan_index(plans, date) {
        Some(index) => Some(&plans[index]),
        None => None,
    }
}

/// The index of the plan that `select_plan_for_date` picks.
pub fn select_plan_index(plans: &[Plan], date: LocalDate) -> (result: Option<usize>)
    ensures
        result is Some <==> selected_plan_index(plans@, date) is Some,
        result matches Some(index) ==> index == selected_plan_index(plans@, date).unwrap()
            && index < plans@.len(),
{
    let mut past: Option<usize> = None;
    let mut future: Option<usize> = None;
    let mut i: usize = 0;
    while i < plans.len()
        invariant
            i <= plans@.len(),
            match past {
                Some(p) => latest_past_index(plans@, date, i as nat) == Some(p as int) && p < i,
                None => latest_past_index(plans@, date, i as nat) is None,
            },
            match future {
                Some(f) => earliest_future_index(plans@, date, i as nat) == Some(f as int) && f < i,
                None => earliest_future_index(plans@, date, i as nat) is None,
            },
        decreases plans@.len() - i,
    {
        let plan_date = plans[i].date;
        if plan_date.is_on_or_before(&date) {
            let replace = match past {
                Some(p) => plans[p].date.is_on_or_before(&plan_date),
                None => true,
            };
            if replace {
                past = Some(i);
            }
        } else {
            let replace = match future {
                Some(f) => plan_date.is_before(&plans[f].date),
                None => true,
            };
            if replace {
                future = Some(i);
            }
        }
        i = i + 1;
    }
    match past {
        Some(p) => Some(p),
        None => future,
    }
}

proof fn lemma_latest_past_index(plans: Seq<Plan>, date: LocalDate, n: nat)
    requires
        n <= plans.len(),
    ensures
        latest_past_index(plans, date, n) matches Some(i) ==> {
            &&& 0 <= i < n
            &&& is_past(plans[i], date)
            &&& forall|j: int| 0 <= j < n && is_past(#[trigger] plans[j], date)
                ==> plans[j].date.ordinal() <= plans[i].date.ordinal()
            &&& forall|j: int| i < j < n && is_past(#[trigger] plans[j], date)
                ==> plans[j].date.ordinal() < plans[i].date.ordinal()
        },
        latest_past_index(plans, date, n) is None ==> forall|j: int|
            0 <= j < n ==> !is_past(#[trigger] plans[j], date),
    decreases n,
{
    if n > 0 {
        lemma_latest_past_index(plans, date, (n - 1) as nat);
    }
}

proof fn lemma_earliest_future_index(plans: Seq<Plan>, date: LocalDate, n: nat)
    requires
        n <= plans.len(),
    ensures
        earliest_future_index(plans, date, n) matches Some(i) ==> {
            &&& 0 <= i < n
            &&& !is_past(plans[i], date)
            &&& forall|j: int| 0 <= j < n && !is_past(#[trigger] plans[j], date)
                ==> plans[i].date.ordinal() <= plans[j].date.ordinal()
            &&& forall|j: int| 0 <= j < i && !is_past(#[trigger] plans[j], date)
                ==> plans[i].date.ordinal() < plans[j].date.ordinal()
        },
        earliest_future_index(plans, date, n) is None ==> forall|j: int|
            0 <= j < n ==> is_past(#[trigger] plans[j], date),
    decreases n,
{
    if n > 0 {
        lemma_earliest_future_index(plans, date, (n - 1) as nat);
    }
}

/// The plan shown on a date is the latest one dated on or before it, the last of several
/// such with the same date; when every plan lies after the date, it is the earliest of them,
/// the first of several with the same date; only an empty plan list selects nothing.
pub proof fn law_selected_plan(plans: Seq<Plan>, date: LocalDate)
    ensures
        selected_plan_index(plans, date) is None <==> plans.len() == 0,
        (exists|j: int| 0 <= j < plans.len() && is_past(#[trigger] plans[j], date))
            ==> (selected_plan_index(plans, date) matches Some(i) && {
            &&& 0 <= i < plans.len()
            &&& is_past(plans[i], date)
            &&& forall|j: int| 0 <= j < plans.len() && is_past(#[trigger] plans[j], date)
                ==> plans[j].date.ordinal() <= plans[i].date.ordinal()
            &&& forall|j: int| i < j < plans.len() && is_past(#[trigger] plans[j], date)
                ==> plans[j].date.ordinal() < plans[i].date.ordinal()
        }),
        (forall|j: int| 0 <= j < plans.len() ==> !is_past(#[trigger] plans[j], date))
            && plans.len() > 0 ==> (selected_plan_index(plans, date) matches Some(i) && {
            &&& 0 <= i < plans.len()
            &&& forall|j: int| 0 <= j < plans.len() ==> plans[i].date.ordinal()
                <= (#[trigger] plans[j]).date.ordinal()
            &&& forall|j: int| 0 <= j < i ==> plans[i].date.ordinal()
                < (#[trigger] plans[j]).date.ordinal()
        }),
{
    lemma_latest_past_index(plans, date, plans.len());
    lemma_earliest_future_index(plans, date, plans.len());
    if plans.len() > 0 {
        if latest_past_index(plans, date, plans.len()) is None {
            assert(earliest_future_index(plans, date, plans.len()) is Some) by {
                assert(!is_past(plans[0], date));
            }
        }
    }
}

/// A redraw is needed unless the state already shows `next` for its own date.
pub fn display_needs_refresh(previous: &PersistentDeviceState, next: &Plan) -> (result: bool)
    ensures
        result == !previous.shows(next.date, *next),
{
    !previous.matches_plan(next)
}

/// The date of the next plan after `date`, the day the frame should change its photo.
pub fn next_plan_change_date(plans: &[Plan], date: LocalDate) -> (result: Option<LocalDate>)
    ensures
        result is Some <==> earliest_future_index(plans@, date, plans@.len()) is Some,
        result matches Some(next) ==> next == plans@[earliest_future_index(
            plans@,
            date,
            plans@.len(),
        ).unwrap()].date,
{
    let mut future: Option<usize> = None;
    let mut i: usize = 0;
    while i < plans.len()
        invariant
            i <= plans@.len(),
            match future {
                Some(f) => earliest_future_index(plans@, date, i as nat) == Some(f as int) && f < i,
                None => earliest_future_index(plans@, date, i as nat) is None,
            },
        decreases plans@.len() - i,
    {
        let plan_date = plans[i].date;
        if !plan_date.is_on_or_before(&date) {
            let replace = match future {
                Some(f) => plan_date.is_before(&plans[f].date),
                None => true,
            };
            if replace {
                future = Some(i);
            }
        }
        i = i + 1;
    }
    match future {
        Some(f) => Some(plans[f].date),
        None => None,
    }
}

pub fn has_plan_on_or_after(plans: &[Plan], date: LocalDate) -> (result: bool)
    ensures
        result == exists|i: int| 0 <= i < plans@.len() && date.ordinal() <= (
        #[trigger] plans@[i]).date.ordinal(),
{
    let mut i: usize = 0;
    while i < plans.len()
        invariant
            i <= plans@.len(),
            forall|j: int| 0 <= j < i ==> date.ordinal() > (#[trigger] plans@[j]).date.ordinal(),
        decreases plans@.len() - i,
    {
        if date.is_on_or_before(&plans[i].date) {
            return true;
        }
        i = i + 1;
    }
    false
}

} // verus!
