//! Asset pages: the list with its filters, and the detail page of one asset.
use crate::domain::schedule::{describe_schedule, describe_spec, opt_view};
use crate::repo::assets::{Asset, AssetInput};
use crate::repo::attachments::Attachment;
use crate::repo::locations::Location;
use crate::repo::log::LogEntry;
use crate::repo::reminders::opt_text;
use crate::repo::tasks::Task;
use crate::text::{
    clone_opt, lemma_text_lt_total, lemma_text_lt_trans, str_eq, text_less, text_lt,
};
use vstd::prelude::*;

verus! {

/// The filters of the asset list.
#[derive(Debug, Clone, Default, PartialEq, Eq)]
pub struct AssetListQuery {
    pub category: Option<String>,
    pub archived: Option<String>,
}

/// Archived assets are listed when `archived=1`.
pub fn show_archived(q: &AssetListQuery) -> (r: bool)
    ensures
        r == (q.archived matches Some(a) && a@ == "1"@),
{
    match &q.archived {
        Some(a) => str_eq(a.as_str(), "1"),
        None => false,
    }
}

/// An asset is listed: of the chosen category, if any, and not archived unless
/// archived ones are shown.
pub open spec fn asset_listed(a: Asset, category: Option<Seq<char>>, show_archived: bool) -> bool {
    (category matches Some(c) ==> a.category@ == c) && (show_archived || a.archived == 0)
}

/// The assets that satisfy `p`, in order.
pub open spec fn assets_where(s: Seq<Asset>, p: spec_fn(Asset) -> bool) -> Seq<Asset>
    decreases s.len(),
{
    if s.len() == 0 {
        Seq::empty()
    } else if p(s.last()) {
        assets_where(s.drop_last(), p).push(s.last())
    } else {
        assets_where(s.drop_last(), p)
    }
}

pub fn copy_asset(a: &Asset) -> (r: Asset)
    ensures
        r == *a,
{
    Asset {
        id: a.id.clone(),
        created_at: a.created_at.clone(),
        updated_at: a.updated_at.clone(),
        name: a.name.clone(),
        location_id: clone_opt(&a.location_id),
        category: a.category.clone(),
        make: clone_opt(&a.make),
        model: clone_opt(&a.model),
        serial: clone_opt(&a.serial),
        install_date: clone_opt(&a.install_date),
        warranty_end: clone_opt(&a.warranty_end),
        notes: clone_opt(&a.notes),
        archived: a.archived,
    }
}

/// The listed assets, in order.
pub fn filter_assets(all: &Vec<Asset>, category: Option<&str>, show_archived: bool) -> (r: Vec<Asset>)
    ensures
        r@ == assets_where(all@, |a: Asset| asset_listed(a, opt_view(category), show_archived)),
{
    let ghost p = |a: Asset| asset_listed(a, opt_view(category), show_archived);
    let mut out: Vec<Asset> = Vec::new();
    let mut i: usize = 0;
    while i < all.len()
        invariant
            i <= all@.len(),
            p == (|a: Asset| asset_listed(a, opt_view(category), show_archived)),
            out@ == assets_where(all@.take(i as int), p),
        decreases all@.len() - i,
    {
        let a = &all[i];
        proof {
            assert(all@.take(i + 1).drop_last() =~= all@.take(i as int));
        }
        let cat_ok = match category {
            Some(c) => str_eq(a.category.as_str(), c),
            None => true,
        };
        if cat_ok && (show_archived || a.archived == 0) {
            out.push(copy_asset(a));
        }
        i = i + 1;
    }
    assert(all@.take(all@.len() as int) =~= all@);
    out
}

/// The texts are in strictly increasing order.
pub open spec fn strictly_sorted(v: Seq<String>) -> bool {
    forall|i: int, j: int| 0 <= i < j < v.len() ==> text_lt(#[trigger] v[i]@, #[trigger] v[j]@)
}

pub open spec fn views(v: Seq<String>) -> Seq<Seq<char>> {
    v.map_values(|s: String| s@)
}

/// Adds a text to a strictly sorted list, unless it is there already.
fn insert_sorted(out: &mut Vec<String>, c: &String)
    requires
        strictly_sorted(old(out)@),
    ensures
        strictly_sorted(final(out)@),
        forall|x: Seq<char>| #[trigger] views(final(out)@).contains(x) <==> (views(old(out)@).contains(x) || x == c@),
{
    let mut p: usize = 0;
    while p < out.len() && text_less(out[p].as_str(), c.as_str())
        invariant
            p <= out@.len(),
            forall|i: int| 0 <= i < p ==> text_lt(#[trigger] out@[i]@, c@),
        decreases out@.len() - p,
    {
        p = p + 1;
    }
    let ghost old_out = out@;
    if p < out.len() && str_eq(out[p].as_str(), c.as_str()) {
        assert forall|x: Seq<char>| #[trigger] views(out@).contains(x) <==> (views(old_out).contains(x) || x == c@) by {
            if x == c@ {
                assert(views(out@)[p as int] == x);
            }
        }
        return;
    }
    proof {
        if p < old_out.len() {
            lemma_text_lt_total(old_out[p as int]@, c@);
            assert(text_lt(c@, old_out[p as int]@));
        }
    }
    out.insert(p, c.clone());
    proof {
        assert forall|i: int, j: int| 0 <= i < j < out@.len() implies text_lt(
            #[trigger] out@[i]@,
            #[trigger] out@[j]@,
        ) by {
            if j < p {
                assert(out@[i] == old_out[i] && out@[j] == old_out[j]);
            } else if j == p {
                assert(out@[i] == old_out[i]);
            } else if i == p {
                assert(out@[j] == old_out[j - 1]);
                if j - 1 > p {
                    assert(text_lt(old_out[p as int]@, old_out[j - 1]@));
                    lemma_text_lt_trans(c@, old_out[p as int]@, old_out[j - 1]@);
                }
            } else if i < p {
                assert(out@[i] == old_out[i] && out@[j] == old_out[j - 1]);
            } else {
                assert(out@[i] == old_out[i - 1] && out@[j] == old_out[j - 1]);
            }
        }
        assert forall|x: Seq<char>| #[trigger] views(out@).contains(x) <==> (views(old_out).contains(x) || x == c@) by {
            if views(out@).contains(x) {
                let i = choose|i: int| 0 <= i < views(out@).len() && views(out@)[i] == x;
                if i < p {
                    assert(views(old_out)[i] == x);
                } else if i > p {
                    assert(views(old_out)[i - 1] == x);
                }
            }
            if views(old_out).contains(x) {
                let i = choose|i: int| 0 <= i < views(old_out).len() && views(old_out)[i] == x;
                if i < p {
                    assert(views(out@)[i] == x);
                } else {
                    assert(views(out@)[i + 1] == x);
                }
            }
            if x == c@ {
                assert(views(out@)[p as int] == x);
            }
        }
    }
}

pub open spec fn categories_of(assets: Seq<Asset>) -> Seq<Seq<char>> {
    assets.map_values(|a: Asset| a.category@)
}

/// The categories of the assets, each once, in order, as sorting and removing
/// duplicates gives them.
pub fn asset_categories(assets: &Vec<Asset>) -> (r: Vec<String>)
    ensures
        strictly_sorted(r@),
        forall|x: Seq<char>| #[trigger] views(r@).contains(x) <==> categories_of(assets@).contains(x),
{
    let mut out: Vec<String> = Vec::new();
    let mut k: usize = 0;
    while k < assets.len()
        invariant
            k <= assets@.len(),
            strictly_sorted(out@),
            forall|x: Seq<char>| #[trigger] views(out@).contains(x) <==> categories_of(assets@.take(k as int)).contains(x),
        decreases assets@.len() - k,
    {
        let ghost before = out@;
        insert_sorted(&mut out, &assets[k].category);
        proof {
            let cats = categories_of(assets@.take(k + 1));
            assert(cats =~= categories_of(assets@.take(k as int)).push(assets@[k as int].category@));
            assert forall|x: Seq<char>| #[trigger] views(out@).contains(x) <==> cats.contains(x) by {
                if cats.contains(x) && x != assets@[k as int].category@ {
                    let i = choose|i: int| 0 <= i < cats.len() && cats[i] == x;
                    assert(categories_of(assets@.take(k as int))[i] == x);
                }
                if categories_of(assets@.take(k as int)).contains(x) {
                    let i = choose|i: int| 0 <= i < k && categories_of(assets@.take(k as int))[i] == x;
                    assert(cats[i] == x);
                }
                if x == assets@[k as int].category@ {
                    assert(cats[k as int] == x);
                }
            }
        }
        k = k + 1;
    }
    assert(assets@.take(assets@.len() as int) =~= assets@);
    out
}

/// The categories offered when an asset is created or edited.
pub fn default_categories() -> (r: Vec<String>)
    ensures
        r@.map_values(|s: String| s@) == seq![
            "appliance"@,
            "hvac"@,
            "plumbing"@,
            "electrical"@,
            "exterior"@,
            "landscaping"@,
            "vehicle"@,
            "other"@,
        ],
{
    let r = vec![
        String::from_str("appliance"),
        String::from_str("hvac"),
        String::from_str("plumbing"),
        String::from_str("electrical"),
        String::from_str("exterior"),
        String::from_str("landscaping"),
        String::from_str("vehicle"),
        String::from_str("other"),
    ];
    assert(r@.map_values(|s: String| s@) =~= seq![
        "appliance"@,
        "hvac"@,
        "plumbing"@,
        "electrical"@,
        "exterior"@,
        "landscaping"@,
        "vehicle"@,
        "other"@,
    ]);
    r
}

/// The body of the form that creates or edits an asset.
#[derive(Debug, Clone, Default, PartialEq, Eq)]
pub struct AssetFormPayload {
    pub name: String,
    pub location_id: Option<String>,
    pub category: String,
    pub make: Option<String>,
    pub model: Option<String>,
    pub serial: Option<String>,
    pub install_date: Option<String>,
    pub warranty_end: Option<String>,
    pub notes: Option<String>,
}

/// The asset fields of the form.
pub fn asset_input_from_form(p: AssetFormPayload) -> (r: AssetInput)
    ensures
        r == (AssetInput {
            name: p.name,
            location_id: p.location_id,
            category: p.category,
            make: p.make,
            model: p.model,
            serial: p.serial,
            install_date: p.install_date,
            warranty_end: p.warranty_end,
            notes: p.notes,
        }),
{
    AssetInput {
        name: p.name,
        location_id: p.location_id,
        category: p.category,
        make: p.make,
        model: p.model,
        serial: p.serial,
        install_date: p.install_date,
        warranty_end: p.warranty_end,
        notes: p.notes,
    }
}

/// The location is the one the id names.
pub open spec fn location_matches(l: Location, location_id: Option<String>) -> bool {
    location_id matches Some(id) && l.id@ == id@
}

/// The first location whose id is the asset's location, if any.
pub fn find_location(locations: &Vec<Location>, location_id: &Option<String>) -> (r: Option<Location>)
    ensures
        match r {
            Some(l) => exists|i: int|
                0 <= i < locations@.len() && l == #[trigger] locations@[i] && location_matches(l, *location_id)
                    && forall|k: int| 0 <= k < i ==> !location_matches(locations@[k], *location_id),
            None => forall|i: int|
                0 <= i < locations@.len() ==> !location_matches(#[trigger] locations@[i], *location_id),
        },
{
    let id = match location_id {
        Some(id) => id,
        None => return None,
    };
    let mut i: usize = 0;
    while i < locations.len()
        invariant
            i <= locations@.len(),
            *location_id == Some(*id),
            forall|k: int| 0 <= k < i ==> locations@[k].id@ != id@,
        decreases locations@.len() - i,
    {
        let l = &locations[i];
        if str_eq(l.id.as_str(), id.as_str()) {
            let found = Location {
                id: l.id.clone(),
                created_at: l.created_at.clone(),
                updated_at: l.updated_at.clone(),
                name: l.name.clone(),
                kind: l.kind.clone(),
                parent_id: clone_opt(&l.parent_id),
            };
            assert(found == locations@[i as int]);
            return Some(found);
        }
        i = i + 1;
    }
    None
}

/// A task as the asset page lists it, with its schedule in words.
#[derive(Debug, Clone, PartialEq, Eq)]
pub struct TaskSummary {
    pub id: String,
    pub name: String,
    pub schedule: String,
}

/// The task belongs to the asset.
pub open spec fn task_of_asset(t: Task, asset_id: Seq<char>) -> bool {
    t.asset_id matches Some(a) && a@ == asset_id
}

pub open spec fn tasks_where(s: Seq<Task>, p: spec_fn(Task) -> bool) -> Seq<Task>
    decreases s.len(),
{
    if s.len() == 0 {
        Seq::empty()
    } else if p(s.last()) {
        tasks_where(s.drop_last(), p).push(s.last())
    } else {
        tasks_where(s.drop_last(), p)
    }
}

/// `v` summarises task `t`.
pub open spec fn summarises(v: TaskSummary, t: Task) -> bool {
    &&& v.id == t.id
    &&& v.name == t.name
    &&& v.schedule@ == describe_spec(
        t.schedule_mode@,
        t.interval_value,
        opt_text(t.interval_unit),
        opt_text(t.season_anchor),
        t.fixed_interval_years,
    )
}

/// The summaries of the asset's tasks, in order.
pub fn task_summaries(tasks: &Vec<Task>, asset_id: &str) -> (r: Vec<TaskSummary>)
    ensures
        r@.len() == tasks_where(tasks@, |t: Task| task_of_asset(t, asset_id@)).len(),
        forall|i: int|
            0 <= i < r@.len() ==> summarises(
                #[trigger] r@[i],
                tasks_where(tasks@, |t: Task| task_of_asset(t, asset_id@))[i],
            ),
{
    let ghost p = |t: Task| task_of_asset(t, asset_id@);
    let mut out: Vec<TaskSummary> = Vec::new();
    let mut i: usize = 0;
    while i < tasks.len()
        invariant
            i <= tasks@.len(),
            p == (|t: Task| task_of_asset(t, asset_id@)),
            out@.len() == tasks_where(tasks@.take(i as int), p).len(),
            forall|k: int|
                0 <= k < out@.len() ==> summarises(
                    #[trigger] out@[k],
                    tasks_where(tasks@.take(i as int), p)[k],
                ),
        decreases tasks@.len() - i,
    {
        let t = &tasks[i];
        proof {
            assert(tasks@.take(i + 1).drop_last() =~= tasks@.take(i as int));
        }
        let belongs = match &t.asset_id {
            Some(a) => str_eq(a.as_str(), asset_id),
            None => false,
        };
        if belongs {
            let unit = match &t.interval_unit {
                Some(u) => Some(u.as_str()),
                None => None,
            };
            let anchor = match &t.season_anchor {
                Some(a) => Some(a.as_str()),
                None => None,
            };
            assert(opt_view(unit) == opt_text(t.interval_unit));
            assert(opt_view(anchor) == opt_text(t.season_anchor));
            let schedule = describe_schedule(
                t.schedule_mode.as_str(),
                t.interval_value,
                unit,
                anchor,
                t.fixed_interval_years,
            );
            out.push(TaskSummary { id: t.id.clone(), name: t.name.clone(), schedule });
        }
        i = i + 1;
    }
    assert(tasks@.take(tasks@.len() as int) =~= tasks@);
    out
}

/// A log entry as the asset page lists it.
#[derive(Debug, Clone, PartialEq, Eq)]
pub struct LogEntrySummary {
    pub id: String,
    pub completed_date: String,
    pub kind: String,
    pub cost_cents: Option<i64>,
    pub vendor: Option<String>,
    pub notes: Option<String>,
}

/// The total of the costs of the entries; an entry without a cost counts zero.
pub open spec fn cost_total(entries: Seq<LogEntry>) -> int
    decreases entries.len(),
{
    if entries.len() == 0 {
        0
    } else {
        cost_total(entries.drop_last()) + match entries.last().cost_cents {
            Some(c) => c as int,
            None => 0,
        }
    }
}

/// Every running total of the costs fits in an `i64`.
pub open spec fn cost_totals_fit(entries: Seq<LogEntry>) -> bool {
    forall|k: int| 0 <= k <= entries.len() ==> i64::MIN <= #[trigger] cost_total(entries.take(k)) <= i64::MAX
}

/// Checks `cost_totals_fit`, so that callers can refuse entries whose total overflows.
pub fn cost_totals_fit_check(entries: &Vec<LogEntry>) -> (r: bool)
    ensures
        r == cost_totals_fit(entries@),
{
    let mut total: i128 = 0;
    let mut i: usize = 0;
    assert(entries@.take(0) =~= Seq::<LogEntry>::empty());
    while i < entries.len()
        invariant
            i <= entries@.len(),
            total == cost_total(entries@.take(i as int)),
            forall|k: int| 0 <= k <= i ==> i64::MIN <= #[trigger] cost_total(entries@.take(k)) <= i64::MAX,
        decreases entries@.len() - i,
    {
        proof {
            assert(entries@.take(i + 1).drop_last() =~= entries@.take(i as int));
        }
        let c: i128 = match entries[i].cost_cents {
            Some(c) => c as i128,
            None => 0,
        };
        total = total + c;
        if total < i64::MIN as i128 || total > i64::MAX as i128 {
            assert(!(i64::MIN <= cost_total(entries@.take(i + 1)) <= i64::MAX));
            return false;
        }
        i = i + 1;
    }
    assert(entries@.take(entries@.len() as int) =~= entries@);
    true
}

/// The entries as the asset page lists them, and the total of their costs.
pub fn log_summaries(entries: &Vec<LogEntry>) -> (r: (Vec<LogEntrySummary>, i64))
    requires
        cost_totals_fit(entries@),
    ensures
        r.0@.len() == entries@.len(),
        forall|i: int|
            0 <= i < entries@.len() ==> {
                &&& (#[trigger] r.0@[i]).id == entries@[i].id
                &&& r.0@[i].completed_date == entries@[i].completed_date
                &&& r.0@[i].kind == entries@[i].kind
                &&& r.0@[i].cost_cents == entries@[i].cost_cents
                &&& r.0@[i].vendor == entries@[i].vendor
                &&& r.0@[i].notes == entries@[i].notes
            },
        r.1 == cost_total(entries@),
{
    let mut out: Vec<LogEntrySummary> = Vec::new();
    let mut total: i64 = 0;
    let mut i: usize = 0;
    assert(entries@.take(0) =~= Seq::<LogEntry>::empty());
    while i < entries.len()
        invariant
            i <= entries@.len(),
            cost_totals_fit(entries@),
            total == cost_total(entries@.take(i as int)),
            out@.len() == i,
            forall|k: int|
                0 <= k < i ==> {
                    &&& (#[trigger] out@[k]).id == entries@[k].id
                    &&& out@[k].completed_date == entries@[k].completed_date
                    &&& out@[k].kind == entries@[k].kind
                    &&& out@[k].cost_cents == entries@[k].cost_cents
                    &&& out@[k].vendor == entries@[k].vendor
                    &&& out@[k].notes == entries@[k].notes
                },
        decreases entries@.len() - i,
    {
        let e = &entries[i];
        proof {
            assert(entries@.take(i + 1).drop_last() =~= entries@.take(i as int));
            assert(i64::MIN <= cost_total(entries@.take(i + 1)) <= i64::MAX);
        }
        let c = match e.cost_cents {
            Some(c) => c,
            None => 0,
        };
        total = total + c;
        out.push(
            LogEntrySummary {
                id: e.id.clone(),
                completed_date: e.completed_date.clone(),
                kind: e.kind.clone(),
                cost_cents: e.cost_cents,
                vendor: clone_opt(&e.vendor),
                notes: clone_opt(&e.notes),
            },
        );
        i = i + 1;
    }
    assert(entries@.take(entries@.len() as int) =~= entries@);
    (out, total)
}

/// An attachment as the asset page lists it.
#[derive(Debug, Clone, PartialEq, Eq)]
pub struct AttachmentSummary {
    pub id: String,
    pub filename: String,
    pub content_type: String,
    pub byte_size: i64,
    pub caption: Option<String>,
}

/// The attachments as the asset page lists them.
pub fn attachment_summaries(attachments: &Vec<Attachment>) -> (r: Vec<AttachmentSummary>)
    ensures
        r@.len() == attachments@.len(),
        forall|i: int|
            0 <= i < attachments@.len() ==> (#[trigger] r@[i]) == (AttachmentSummary {
                id: attachments@[i].id,
                filename: attachments@[i].filename,
                content_type: attachments@[i].content_type,
                byte_size: attachments@[i].byte_size,
                caption: attachments@[i].caption,
            }),
{
    let mut out: Vec<AttachmentSummary> = Vec::new();
    let mut i: usize = 0;
    while i < attachments.len()
        invariant
            i <= attachments@.len(),
            out@.len() == i,
            forall|k: int|
                0 <= k < i ==> (#[trigger] out@[k]) == (AttachmentSummary {
                    id: attachments@[k].id,
                    filename: attachments@[k].filename,
                    content_type: attachments@[k].content_type,
                    byte_size: attachments@[k].byte_size,
                    caption: attachments@[k].caption,
                }),
        decreases attachments@.len() - i,
    {
        let a = &attachments[i];
        out.push(
            AttachmentSummary {
                id: a.id.clone(),
                filename: a.filename.clone(),
                content_type: a.content_type.clone(),
                byte_size: a.byte_size,
                caption: clone_opt(&a.caption),
            },
        );
        i = i + 1;
    }
    out
}

/// The asset list page.
#[derive(Debug, Clone, PartialEq, Eq)]
pub struct AssetListView {
    pub title: String,
    pub assets: Vec<Asset>,
    pub locations: Vec<Location>,
    pub categories: Vec<String>,
    pub selected_category: Option<String>,
    pub show_archived: bool,
}

/// `r` holds the categories of the assets, each once, in strictly increasing order.
pub open spec fn categories_listed(r: Seq<String>, assets: Seq<Asset>) -> bool {
    &&& strictly_sorted(r)
    &&& forall|x: Seq<char>| #[trigger] views(r).contains(x) <==> categories_of(assets).contains(x)
}

/// The asset list: the listed assets in order, the categories among them, and the
/// filters as chosen.
pub fn asset_list_view(all: &Vec<Asset>, q: AssetListQuery, locations: Vec<Location>) -> (r: AssetListView)
    ensures
        r.title@ == "Assets"@,
        r.show_archived == (q.archived matches Some(a) && a@ == "1"@),
        r.assets@ == assets_where(all@, |a: Asset| asset_listed(a, opt_text(q.category), r.show_archived)),
        categories_listed(r.categories@, r.assets@),
        r.selected_category == q.category,
        r.locations == locations,
{
    let show = show_archived(&q);
    let category = match &q.category {
        Some(c) => Some(c.as_str()),
        None => None,
    };
    assert(opt_view(category) == opt_text(q.category));
    let assets = filter_assets(all, category, show);
    assert((|a: Asset| asset_listed(a, opt_view(category), show)) =~= (|a: Asset|
        asset_listed(a, opt_text(q.category), show)));
    let categories = asset_categories(&assets);
    AssetListView {
        title: String::from_str("Assets"),
        assets,
        locations,
        categories,
        selected_category: q.category,
        show_archived: show,
    }
}

/// The form that creates or edits an asset.
#[derive(Debug, Clone, PartialEq, Eq)]
pub struct AssetFormView {
    pub title: String,
    pub locations: Vec<Location>,
    pub categories: Vec<String>,
    pub asset: Option<Asset>,
}

/// The asset form: for a new asset, or to edit the given one.
pub fn asset_form_view(asset: Option<Asset>, locations: Vec<Location>) -> (r: AssetFormView)
    ensures
        r.title@ == match asset {
            Some(a) => "Edit "@ + a.name@,
            None => "New Asset"@,
        },
        r.categories@.map_values(|s: String| s@) == seq![
            "appliance"@,
            "hvac"@,
            "plumbing"@,
            "electrical"@,
            "exterior"@,
            "landscaping"@,
            "vehicle"@,
            "other"@,
        ],
        r.asset == asset,
        r.locations == locations,
{
    let title = match &asset {
        Some(a) => String::from_str("Edit ").concat(a.name.as_str()),
        None => String::from_str("New Asset"),
    };
    AssetFormView { title, locations, categories: default_categories(), asset }
}

/// The detail page of one asset.
#[derive(Debug, Clone, PartialEq, Eq)]
pub struct AssetDetailView {
    pub title: String,
    pub asset: Asset,
    pub location: Option<Location>,
    pub tasks: Vec<TaskSummary>,
    pub log_entries: Vec<LogEntrySummary>,
    pub attachments: Vec<AttachmentSummary>,
    pub total_cost_cents: i64,
}

/// `r` is the first location that `location_id` names, or none if no location does.
pub open spec fn location_of(r: Option<Location>, locations: Seq<Location>, location_id: Option<String>) -> bool {
    match r {
        Some(l) => exists|i: int|
            0 <= i < locations.len() && l == #[trigger] locations[i] && location_matches(l, location_id)
                && forall|k: int| 0 <= k < i ==> !location_matches(locations[k], location_id),
        None => forall|i: int| 0 <= i < locations.len() ==> !location_matches(#[trigger] locations[i], location_id),
    }
}

/// `r` summarises the tasks of the asset, in order.
pub open spec fn summaries_of_tasks(r: Seq<TaskSummary>, tasks: Seq<Task>, asset_id: Seq<char>) -> bool {
    &&& r.len() == tasks_where(tasks, |t: Task| task_of_asset(t, asset_id)).len()
    &&& forall|i: int|
        0 <= i < r.len() ==> summarises(#[trigger] r[i], tasks_where(tasks, |t: Task| task_of_asset(t, asset_id))[i])
}

/// `r` lists the entries one for one.
pub open spec fn summaries_of_entries(r: Seq<LogEntrySummary>, entries: Seq<LogEntry>) -> bool {
    &&& r.len() == entries.len()
    &&& forall|i: int|
        0 <= i < entries.len() ==> {
            &&& (#[trigger] r[i]).id == entries[i].id
            &&& r[i].completed_date == entries[i].completed_date
            &&& r[i].kind == entries[i].kind
            &&& r[i].cost_cents == entries[i].cost_cents
            &&& r[i].vendor == entries[i].vendor
            &&& r[i].notes == entries[i].notes
        }
}

/// `r` lists the attachments one for one.
pub open spec fn summaries_of_attachments(r: Seq<AttachmentSummary>, attachments: Seq<Attachment>) -> bool {
    &&& r.len() == attachments.len()
    &&& forall|i: int|
        0 <= i < attachments.len() ==> (#[trigger] r[i]) == (AttachmentSummary {
            id: attachments[i].id,
            filename: attachments[i].filename,
            content_type: attachments[i].content_type,
            byte_size: attachments[i].byte_size,
            caption: attachments[i].caption,
        })
}

/// The asset page: the asset under its name, its location, its tasks, its log with
/// the total cost, and its attachments.
pub fn asset_detail_view(
    asset: Asset,
    locations: &Vec<Location>,
    tasks: &Vec<Task>,
    entries: &Vec<LogEntry>,
    attachments: &Vec<Attachment>,
) -> (r: AssetDetailView)
    requires
        cost_totals_fit(entries@),
    ensures
        r.title == asset.name,
        r.asset == asset,
        location_of(r.location, locations@, asset.location_id),
        summaries_of_tasks(r.tasks@, tasks@, asset.id@),
        summaries_of_entries(r.log_entries@, entries@),
        r.total_cost_cents == cost_total(entries@),
        summaries_of_attachments(r.attachments@, attachments@),
{
    let location = find_location(locations, &asset.location_id);
    let task_rows = task_summaries(tasks, asset.id.as_str());
    let (log_entries, total_cost_cents) = log_summaries(entries);
    let attachment_rows = attachment_summaries(attachments);
    AssetDetailView {
        title: asset.name.clone(),
        asset,
        location,
        tasks: task_rows,
        log_entries,
        attachments: attachment_rows,
        total_cost_cents,
    }
}

} // verus!
