//! The maintenance log: what was done, when, and at what cost.
use crate::error::AppError;
use crate::text::decimal;
use crate::text::push_decimal;
use vstd::prelude::*;

verus! {

/// A stored log entry.
#[derive(Debug, Clone, PartialEq, Eq)]
pub struct LogEntry {
    pub id: String,
    pub created_at: String,
    pub updated_at: String,
    pub task_id: Option<String>,
    pub asset_id: Option<String>,
    pub kind: String,
    pub scheduled_date: Option<String>,
    pub completed_date: String,
    pub cost_cents: Option<i64>,
    pub vendor: Option<String>,
    pub performed_by: Option<String>,
    pub notes: Option<String>,
}

/// The fields of a log entry as given to create or update it.
#[derive(Debug, Clone, Default, PartialEq, Eq)]
pub struct LogEntryInput {
    pub task_id: Option<String>,
    pub asset_id: Option<String>,
    pub kind: String,
    pub scheduled_date: Option<String>,
    pub completed_date: String,
    pub cost_cents: Option<i64>,
    pub vendor: Option<String>,
    pub performed_by: Option<String>,
    pub notes: Option<String>,
}

/// A query text and the values bound to its placeholders, in order.
#[derive(Debug, Clone, PartialEq, Eq)]
pub struct BoundQuery {
    pub sql: String,
    pub binds: Vec<String>,
}

pub open spec fn log_query_base() -> Seq<char> {
    "SELECT DISTINCT le.* FROM log_entries le\n         LEFT JOIN entry_tags et ON et.entry_id = le.id\n         LEFT JOIN tags tg ON tg.id = et.tag_id\n         WHERE 1 = 1"@
}

/// A filter clause with its placeholder number, if the filter is present.
pub open spec fn clause(present: bool, prefix: Seq<char>, n: int) -> Seq<char> {
    if present { prefix + decimal(n as nat) } else { Seq::empty() }
}

pub open spec fn search_clause(present: bool, n: int) -> Seq<char> {
    if present {
        " AND (le.notes LIKE $"@ + decimal(n as nat) + " OR le.vendor LIKE $"@ + decimal((n + 1) as nat)
            + " OR le.performed_by LIKE $"@ + decimal((n + 2) as nat) + ")"@
    } else {
        Seq::empty()
    }
}

pub open spec fn count(b: bool) -> int {
    if b { 1 } else { 0 }
}

/// The query for log entries: one clause per present filter, numbered `$1, $2, ...`
/// in the order asset, kind, tag, from, to, search; the search has one placeholder
/// each for the notes, the vendor and the performer. Newest first.
pub open spec fn log_query_text(a: bool, k: bool, t: bool, f: bool, to: bool, s: bool) -> Seq<char> {
    let n1: int = 1;
    let n2 = n1 + count(a);
    let n3 = n2 + count(k);
    let n4 = n3 + count(t);
    let n5 = n4 + count(f);
    let n6 = n5 + count(to);
    log_query_base() + clause(a, " AND le.asset_id = $"@, n1) + clause(k, " AND le.kind = $"@, n2)
        + clause(t, " AND tg.name = $"@, n3) + clause(f, " AND le.completed_date >= $"@, n4)
        + clause(to, " AND le.completed_date <= $"@, n5) + search_clause(s, n6)
        + " ORDER BY le.completed_date DESC"@
}

pub open spec fn opt_text(o: Option<&str>) -> Seq<Seq<char>> {
    match o {
        Some(v) => seq![v@],
        None => Seq::empty(),
    }
}

/// The values bound, in placeholder order; the search text matches anywhere and is
/// bound once for each of its three placeholders.
pub open spec fn log_query_binds(
    asset_id: Option<&str>,
    kind: Option<&str>,
    tag: Option<&str>,
    from: Option<&str>,
    to: Option<&str>,
    search: Option<&str>,
) -> Seq<Seq<char>> {
    opt_text(asset_id) + opt_text(kind) + opt_text(tag) + opt_text(from) + opt_text(to) + match search {
        Some(v) => seq!["%"@ + v@ + "%"@, "%"@ + v@ + "%"@, "%"@ + v@ + "%"@],
        None => Seq::empty(),
    }
}

fn push_clause(sql: &mut String, present: bool, prefix: &str, n: &mut u64)
    requires
        *old(n) <= 6,
    ensures
        final(sql)@ == old(sql)@ + clause(present, prefix@, *old(n) as int),
        *final(n) == *old(n) + count(present),
{
    if present {
        sql.append(prefix);
        push_decimal(sql, *n);
        *n = *n + 1;
    } else {
        assert(old(sql)@ + Seq::<char>::empty() =~= old(sql)@);
    }
}

fn push_bind(binds: &mut Vec<String>, v: Option<&str>)
    ensures
        final(binds)@.map_values(|b: String| b@) == old(binds)@.map_values(|b: String| b@) + opt_text(v),
{
    let ghost before = binds@;
    match v {
        Some(s) => {
            binds.push(String::from_str(s));
            assert(binds@.map_values(|b: String| b@) =~= before.map_values(|b: String| b@) + seq![s@]);
        },
        None => {
            assert(binds@.map_values(|b: String| b@) =~= before.map_values(|b: String| b@) + Seq::<Seq<char>>::empty());
        },
    }
}

fn push_search_clause(sql: &mut String, present: bool, n: u64)
    requires
        n <= 6,
    ensures
        final(sql)@ == old(sql)@ + search_clause(present, n as int),
{
    if present {
        sql.append(" AND (le.notes LIKE $");
        push_decimal(sql, n);
        sql.append(" OR le.vendor LIKE $");
        push_decimal(sql, n + 1);
        sql.append(" OR le.performed_by LIKE $");
        push_decimal(sql, n + 2);
        sql.append(")");
    } else {
        assert(old(sql)@ + Seq::<char>::empty() =~= old(sql)@);
    }
}

/// The text of the query that lists log entries with the present filters.
pub fn log_query_sql(a: bool, k: bool, t: bool, f: bool, to: bool, s: bool) -> (r: String)
    ensures
        r@ == log_query_text(a, k, t, f, to, s),
{
    let mut sql = String::from_str(
        "SELECT DISTINCT le.* FROM log_entries le\n         LEFT JOIN entry_tags et ON et.entry_id = le.id\n         LEFT JOIN tags tg ON tg.id = et.tag_id\n         WHERE 1 = 1",
    );
    let mut n: u64 = 1;
    push_clause(&mut sql, a, " AND le.asset_id = $", &mut n);
    push_clause(&mut sql, k, " AND le.kind = $", &mut n);
    push_clause(&mut sql, t, " AND tg.name = $", &mut n);
    push_clause(&mut sql, f, " AND le.completed_date >= $", &mut n);
    push_clause(&mut sql, to, " AND le.completed_date <= $", &mut n);
    push_search_clause(&mut sql, s, n);
    sql.append(" ORDER BY le.completed_date DESC");
    sql
}

/// The values bound to the query that lists log entries, in placeholder order.
pub fn log_query_bind_values(
    asset_id: Option<&str>,
    kind: Option<&str>,
    tag: Option<&str>,
    from: Option<&str>,
    to: Option<&str>,
    search: Option<&str>,
) -> (r: Vec<String>)
    ensures
        r@.map_values(|b: String| b@) == log_query_binds(asset_id, kind, tag, from, to, search),
{
    let mut binds: Vec<String> = Vec::new();
    assert(binds@.map_values(|b: String| b@) =~= Seq::<Seq<char>>::empty());
    push_bind(&mut binds, asset_id);
    push_bind(&mut binds, kind);
    push_bind(&mut binds, tag);
    push_bind(&mut binds, from);
    push_bind(&mut binds, to);
    let ghost before = binds@;
    match search {
        Some(v) => {
            let pattern = String::from_str("%").concat(v).concat("%");
            binds.push(pattern.clone());
            binds.push(pattern.clone());
            binds.push(pattern);
            assert(binds@.map_values(|b: String| b@) =~= before.map_values(|b: String| b@) + seq![
                "%"@ + v@ + "%"@,
                "%"@ + v@ + "%"@,
                "%"@ + v@ + "%"@,
            ]);
        },
        None => {
            assert(binds@.map_values(|b: String| b@) =~= before.map_values(|b: String| b@)
                + Seq::<Seq<char>>::empty());
        },
    }
    binds
}

/// Builds the query that lists log entries with the given filters.
pub fn log_entries_query(
    asset_id: Option<&str>,
    kind: Option<&str>,
    tag: Option<&str>,
    from: Option<&str>,
    to: Option<&str>,
    search: Option<&str>,
) -> (r: BoundQuery)
    ensures
        r.sql@ == log_query_text(
            asset_id is Some,
            kind is Some,
            tag is Some,
            from is Some,
            to is Some,
            search is Some,
        ),
        r.binds@.map_values(|b: String| b@) == log_query_binds(asset_id, kind, tag, from, to, search),
{
    let sql = log_query_sql(
        asset_id.is_some(),
        kind.is_some(),
        tag.is_some(),
        from.is_some(),
        to.is_some(),
        search.is_some(),
    );
    let binds = log_query_bind_values(asset_id, kind, tag, from, to, search);
    BoundQuery { sql, binds }
}

/// Deleting a log entry must be confirmed.
pub fn check_delete_confirmed(confirm: bool) -> (r: Result<(), AppError>)
    ensures
        confirm ==> r is Ok,
        !confirm ==> (r matches Err(AppError::BadRequest(m)) && m@ == "confirm=true required"@),
{
    if !confirm {
        return Err(AppError::BadRequest(String::from_str("confirm=true required")));
    }
    Ok(())
}

/// `t` occurs in `s` starting at index `i`.
pub open spec fn occurs_at(s: Seq<char>, t: Seq<char>, i: int) -> bool {
    0 <= i && i + t.len() <= s.len() && s.subrange(i, i + t.len()) == t
}

/// The date range is a lower bound from `from` and an upper bound from `to` on the
/// completion date: for `from` the query holds ` AND le.completed_date >= $n`, for `to`
/// ` AND le.completed_date <= $n`, each numbered after the filters before it (asset,
/// kind, tag, then from), and the value bound to `$n` is the given date.
pub proof fn law_date_range_filters(
    asset_id: Option<&str>,
    kind: Option<&str>,
    tag: Option<&str>,
    from: Option<&str>,
    to: Option<&str>,
    search: Option<&str>,
)
    ensures
        from matches Some(f) ==> {
            let n = 1 + count(asset_id is Some) + count(kind is Some) + count(tag is Some);
            &&& exists|i: int|
                #[trigger] occurs_at(
                    log_query_text(
                        asset_id is Some,
                        kind is Some,
                        tag is Some,
                        from is Some,
                        to is Some,
                        search is Some,
                    ),
                    " AND le.completed_date >= $"@ + decimal(n as nat),
                    i,
                )
            &&& log_query_binds(asset_id, kind, tag, from, to, search)[n - 1] == f@
        },
        to matches Some(t) ==> {
            let n = 1 + count(asset_id is Some) + count(kind is Some) + count(tag is Some) + count(
                from is Some,
            );
            &&& exists|i: int|
                #[trigger] occurs_at(
                    log_query_text(
                        asset_id is Some,
                        kind is Some,
                        tag is Some,
                        from is Some,
                        to is Some,
                        search is Some,
                    ),
                    " AND le.completed_date <= $"@ + decimal(n as nat),
                    i,
                )
            &&& log_query_binds(asset_id, kind, tag, from, to, search)[n - 1] == t@
        },
{
    let (a, k, t, f, o, s) = (asset_id is Some, kind is Some, tag is Some, from is Some, to is Some, search is Some);
    let n1: int = 1;
    let n2 = n1 + count(a);
    let n3 = n2 + count(k);
    let n4 = n3 + count(t);
    let n5 = n4 + count(f);
    let n6 = n5 + count(o);
    let ca = clause(a, " AND le.asset_id = $"@, n1);
    let ck = clause(k, " AND le.kind = $"@, n2);
    let ct = clause(t, " AND tg.name = $"@, n3);
    let cf = clause(f, " AND le.completed_date >= $"@, n4);
    let co = clause(o, " AND le.completed_date <= $"@, n5);
    let cs = search_clause(s, n6);
    let text = log_query_text(a, k, t, f, o, s);
    let end = " ORDER BY le.completed_date DESC"@;
    let pre_f = log_query_base() + ca + ck + ct;
    let pre_o = pre_f + cf;
    assert(text =~= pre_f + cf + (co + cs + end));
    assert(text =~= pre_o + co + (cs + end));
    assert((pre_f + cf + (co + cs + end)).subrange(pre_f.len() as int, pre_f.len() + cf.len() as int) =~= cf);
    assert((pre_o + co + (cs + end)).subrange(pre_o.len() as int, pre_o.len() + co.len() as int) =~= co);
    if f {
        assert(occurs_at(text, cf, pre_f.len() as int));
    }
    if o {
        assert(occurs_at(text, co, pre_o.len() as int));
    }
    let b1 = opt_text(asset_id) + opt_text(kind) + opt_text(tag);
    assert(b1.len() == count(a) + count(k) + count(t));
    assert(opt_text(from).len() == count(f));
    let binds = log_query_binds(asset_id, kind, tag, from, to, search);
    let rest = opt_text(to) + match search {
        Some(v) => seq!["%"@ + v@ + "%"@, "%"@ + v@ + "%"@, "%"@ + v@ + "%"@],
        None => Seq::<Seq<char>>::empty(),
    };
    assert(binds =~= b1 + opt_text(from) + rest);
    assert(binds =~= (b1 + opt_text(from)) + opt_text(to) + match search {
        Some(v) => seq!["%"@ + v@ + "%"@, "%"@ + v@ + "%"@, "%"@ + v@ + "%"@],
        None => Seq::<Seq<char>>::empty(),
    });
}

} // verus!
