//! The supply list page and the supply form.
use crate::repo::supplies::{Supply, SupplyInput};
use crate::text::{clone_opt, str_eq};
use vstd::prelude::*;

verus! {

/// A supply as the supply list shows it, with the number of tasks that use it.
#[derive(Debug, Clone, PartialEq, Eq)]
pub struct SupplyRow {
    pub id: String,
    pub name: String,
    pub spec: Option<String>,
    pub purchase_url: Option<String>,
    pub notes: Option<String>,
    pub task_count: usize,
}

/// The body of the form that creates a supply.
#[derive(Debug, Clone, Default, PartialEq, Eq)]
pub struct SupplyFormPayload {
    pub name: String,
    pub spec: Option<String>,
    pub purchase_url: Option<String>,
    pub notes: Option<String>,
}

/// The supply fields of the form.
pub fn supply_input_from_form(p: SupplyFormPayload) -> (r: SupplyInput)
    ensures
        r == (SupplyInput { name: p.name, spec: p.spec, purchase_url: p.purchase_url, notes: p.notes }),
{
    SupplyInput { name: p.name, spec: p.spec, purchase_url: p.purchase_url, notes: p.notes }
}

/// The number of tasks using the supply, from (supply id, count) pairs; of several
/// pairs for one id the last counts; none counts zero.
pub open spec fn task_count_of(counts: Seq<(String, i64)>, id: Seq<char>) -> usize
    decreases counts.len(),
{
    if counts.len() == 0 {
        0
    } else if counts.last().0@ == id {
        counts.last().1 as usize
    } else {
        task_count_of(counts.drop_last(), id)
    }
}

fn lookup_count(counts: &Vec<(String, i64)>, id: &str) -> (r: usize)
    ensures
        r == task_count_of(counts@, id@),
{
    let mut i = counts.len();
    assert(counts@.take(i as int) =~= counts@);
    while i > 0
        invariant
            i <= counts@.len(),
            task_count_of(counts@, id@) == task_count_of(counts@.take(i as int), id@),
        decreases i,
    {
        assert(counts@.take(i as int).drop_last() =~= counts@.take(i - 1));
        if str_eq(counts[i - 1].0.as_str(), id) {
            return #[verifier::truncate] (counts[i - 1].1 as usize);
        }
        i = i - 1;
    }
    0
}

/// The rows of the supply list, one per supply, in order.
pub fn build_supply_rows(supplies: &Vec<Supply>, counts: &Vec<(String, i64)>) -> (r: Vec<SupplyRow>)
    ensures
        r@.len() == supplies@.len(),
        forall|i: int|
            0 <= i < supplies@.len() ==> (#[trigger] r@[i]) == (SupplyRow {
                id: supplies@[i].id,
                name: supplies@[i].name,
                spec: supplies@[i].spec,
                purchase_url: supplies@[i].purchase_url,
                notes: supplies@[i].notes,
                task_count: task_count_of(counts@, supplies@[i].id@),
            }),
{
    let mut out: Vec<SupplyRow> = Vec::new();
    let mut i: usize = 0;
    while i < supplies.len()
        invariant
            i <= supplies@.len(),
            out@.len() == i,
            forall|k: int|
                0 <= k < i ==> (#[trigger] out@[k]) == (SupplyRow {
                    id: supplies@[k].id,
                    name: supplies@[k].name,
                    spec: supplies@[k].spec,
                    purchase_url: supplies@[k].purchase_url,
                    notes: supplies@[k].notes,
                    task_count: task_count_of(counts@, supplies@[k].id@),
                }),
        decreases supplies@.len() - i,
    {
        let s = &supplies[i];
        out.push(
            SupplyRow {
                id: s.id.clone(),
                name: s.name.clone(),
                spec: clone_opt(&s.spec),
                purchase_url: clone_opt(&s.purchase_url),
                notes: clone_opt(&s.notes),
                task_count: lookup_count(counts, s.id.as_str()),
            },
        );
        i = i + 1;
    }
    out
}

/// The supply list page.
#[derive(Debug, Clone, PartialEq, Eq)]
pub struct SupplyListView {
    pub title: String,
    pub supplies: Vec<SupplyRow>,
}

/// The supply list: one row per supply, in order, with the number of tasks using it.
pub fn supply_list_view(supplies: &Vec<Supply>, counts: &Vec<(String, i64)>) -> (r: SupplyListView)
    ensures
        r.title@ == "Supplies"@,
        r.supplies@.len() == supplies@.len(),
        forall|i: int|
            0 <= i < supplies@.len() ==> (#[trigger] r.supplies@[i]) == (SupplyRow {
                id: supplies@[i].id,
                name: supplies@[i].name,
                spec: supplies@[i].spec,
                purchase_url: supplies@[i].purchase_url,
                notes: supplies@[i].notes,
                task_count: task_count_of(counts@, supplies@[i].id@),
            }),
{
    SupplyListView { title: String::from_str("Supplies"), supplies: build_supply_rows(supplies, counts) }
}

} // verus!
