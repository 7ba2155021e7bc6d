//! Database dialects and placeholder handling.
use crate::text::{
    all_digits, ascii_lower, decimal, has_prefix, is_digit, push_char, push_decimal,
    starts_with, to_ascii_lowercase,
};
use std::borrow::Cow;
use vstd::prelude::*;

verus! {

/// Connection descriptor: PostgreSQL or SQLite.
#[derive(Debug, Clone, Copy, PartialEq, Eq, Structural)]
pub enum DbBackend {
    Postgres,
    Sqlite,
}

impl DbBackend {
    pub open spec fn kind_text(self) -> Seq<char> {
        match self {
            DbBackend::Postgres => "postgresql"@,
            DbBackend::Sqlite => "sqlite"@,
        }
    }

    /// The name of the backend.
    pub fn kind(&self) -> (r: &'static str)
        ensures
            r@ == self.kind_text(),
    {
        match self {
            DbBackend::Postgres => "postgresql",
            DbBackend::Sqlite => "sqlite",
        }
    }

    pub open spec fn placeholder_text(self, index: int) -> Seq<char> {
        match self {
            DbBackend::Postgres => "$"@ + decimal(index as nat),
            DbBackend::Sqlite => "?"@,
        }
    }

    /// The placeholder of the `index`-th parameter: `$N` for Postgres, `?` for SQLite.
    pub fn placeholder(&self, index: usize) -> (r: String)
        ensures
            r@ == self.placeholder_text(index as int),
    {
        match self {
            DbBackend::Postgres => {
                let mut s = String::from_str("$");
                push_decimal(&mut s, index as u64);
                s
            },
            DbBackend::Sqlite => String::from_str("?"),
        }
    }

    /// A `RETURNING` clause for the columns, or nothing for no columns.
    pub fn returning(&self, columns: &[&str]) -> (r: String)
        ensures
            r@ == if columns@.len() == 0 {
                Seq::<char>::empty()
            } else {
                " RETURNING "@ + join_texts(columns@.map_values(|c: &str| c@), ", "@)
            },
    {
        if columns.len() == 0 {
            return String::new();
        }
        let mut s = String::from_str(" RETURNING ");
        let ghost names = columns@.map_values(|c: &str| c@);
        let mut i: usize = 0;
        while i < columns.len()
            invariant
                i <= columns@.len(),
                columns@.len() > 0,
                names == columns@.map_values(|c: &str| c@),
                s@ == " RETURNING "@ + join_texts(names.take(i as int), ", "@),
            decreases columns@.len() - i,
        {
            let ghost before = s@;
            if i > 0 {
                s.append(", ");
            }
            s.append(columns[i]);
            proof {
                assert(names.take(i + 1).drop_last() =~= names.take(i as int));
                assert(names.take(i + 1).last() == columns@[i as int]@);
                if i == 0 {
                    reveal_with_fuel(join_texts, 2);
                    assert(" RETURNING "@ + join_texts(names.take(0), ", "@) =~= " RETURNING "@);
                    assert(join_texts(names.take(1), ", "@) =~= names.take(1)[0]);
                }
            }
            i = i + 1;
        }
        assert(names.take(columns@.len() as int) =~= names);
        s
    }
}

/// The texts joined with `sep` between neighbours.
pub open spec fn join_texts(parts: Seq<Seq<char>>, sep: Seq<char>) -> Seq<char>
    decreases parts.len(),
{
    if parts.len() == 0 {
        Seq::empty()
    } else if parts.len() == 1 {
        parts[0]
    } else {
        join_texts(parts.drop_last(), sep) + sep + parts.last()
    }
}

/// The index after the run of decimal digits that starts at `i`.
pub open spec fn digits_end(s: Seq<char>, i: int) -> int
    decreases s.len() - i,
{
    if 0 <= i < s.len() && is_digit(s[i]) {
        digits_end(s, i + 1)
    } else {
        i
    }
}

pub proof fn lemma_digits_end(s: Seq<char>, i: int)
    requires
        0 <= i <= s.len(),
    ensures
        i <= digits_end(s, i) <= s.len(),
        forall|j: int| i <= j < digits_end(s, i) ==> is_digit(#[trigger] s[j]),
        digits_end(s, i) < s.len() ==> !is_digit(s[digits_end(s, i)]),
    decreases s.len() - i,
{
    if i < s.len() && is_digit(s[i]) {
        lemma_digits_end(s, i + 1);
    }
}

/// `s[i..]` with every `$` that is followed by digits, together with the digits,
/// replaced by `?`.
pub open spec fn sqlite_placeholders_from(s: Seq<char>, i: int) -> Seq<char>
    decreases s.len() - i,
{
    if i < 0 || i >= s.len() {
        Seq::empty()
    } else if s[i] == '$' && i + 1 < s.len() && is_digit(s[i + 1]) {
        proof {
            lemma_digits_end(s, i + 1);
        }
        seq!['?'] + sqlite_placeholders_from(s, digits_end(s, i + 1))
    } else {
        seq![s[i]] + sqlite_placeholders_from(s, i + 1)
    }
}

pub open spec fn sqlite_placeholders(s: Seq<char>) -> Seq<char> {
    sqlite_placeholders_from(s, 0)
}

/// Rewrites every `$` followed by digits, together with the digits, to `?`, keeping
/// every other character in order: the placeholders of a query written for
/// PostgreSQL, in SQLite's form.
pub fn sqlite_rewrite(sql: &str) -> (r: String)
    ensures
        r@ == sqlite_placeholders(sql@),
{
    let n = sql.unicode_len();
    let mut result = String::new();
    let mut i: usize = 0;
    while i < n
        invariant
            n == sql@.len(),
            i <= n,
            result@ + sqlite_placeholders_from(sql@, i as int) == sqlite_placeholders(sql@),
        decreases n - i,
    {
        let ch = sql.get_char(i);
        if ch == '$' && i + 1 < n && is_ascii_digit(sql.get_char(i + 1)) {
            let mut j = i + 1;
            while j < n && is_ascii_digit(sql.get_char(j))
                invariant
                    n == sql@.len(),
                    i + 1 <= j <= n,
                    digits_end(sql@, i + 1) == digits_end(sql@, j as int),
                decreases n - j,
            {
                j = j + 1;
            }
            push_char(&mut result, '?');
            i = j;
        } else {
            push_char(&mut result, ch);
            i = i + 1;
        }
    }
    result
}

/// Rewrite a query string using `$1, $2, ...` placeholders to the dialect
/// appropriate for the backend. All repository SQL is authored for Postgres
/// ($N): for Postgres the very literal is returned, borrowed, with no allocation;
/// for SQLite an owned copy with the placeholders rewritten to `?`.
pub fn bind_sql(sql: &'static str, backend: &DbBackend) -> (r: Cow<'static, str>)
    ensures
        *backend == DbBackend::Postgres ==> r == Cow::<'static, str>::Borrowed(sql),
        *backend == DbBackend::Sqlite ==> (r matches Cow::Owned(o) && o@ == sqlite_placeholders(sql@)),
        r@ == match backend {
            DbBackend::Postgres => sql@,
            DbBackend::Sqlite => sqlite_placeholders(sql@),
        },
{
    match backend {
        DbBackend::Postgres => Cow::Borrowed(sql),
        DbBackend::Sqlite => Cow::Owned(sqlite_rewrite(sql)),
    }
}

fn is_ascii_digit(c: char) -> (r: bool)
    ensures
        r == is_digit(c),
{
    '0' <= c && c <= '9'
}

/// How many connections the pool for a backend may open.
pub open spec fn max_connections_spec(backend: DbBackend) -> int {
    match backend {
        DbBackend::Postgres => 10,
        DbBackend::Sqlite => 5,
    }
}

/// The backend for a connection URL: PostgreSQL for a `postgres://` or
/// `postgresql://` URL in any ASCII case, SQLite otherwise.
pub open spec fn backend_for_url_spec(url: Option<Seq<char>>) -> DbBackend {
    match url {
        Some(u) => if has_prefix(ascii_lower(u), "postgres://"@) || has_prefix(
            ascii_lower(u),
            "postgresql://"@,
        ) {
            DbBackend::Postgres
        } else {
            DbBackend::Sqlite
        },
        None => DbBackend::Sqlite,
    }
}

/// Chooses the backend for the configured database URL.
pub fn backend_for_url(url: Option<&str>) -> (r: DbBackend)
    ensures
        r == backend_for_url_spec(match url { Some(u) => Some(u@), None => None }),
{
    match url {
        Some(u) => {
            let lower = to_ascii_lowercase(u);
            if starts_with(lower.as_str(), "postgres://") || starts_with(
                lower.as_str(),
                "postgresql://",
            ) {
                DbBackend::Postgres
            } else {
                DbBackend::Sqlite
            }
        },
        None => DbBackend::Sqlite,
    }
}

/// The size of the connection pool for a backend.
pub fn max_connections(backend: &DbBackend) -> (r: u32)
    ensures
        r == max_connections_spec(*backend),
{
    match backend {
        DbBackend::Postgres => 10,
        DbBackend::Sqlite => 5,
    }
}

/// `s` holds no `$` directly followed by a digit.
pub open spec fn no_numbered_placeholder(s: Seq<char>) -> bool {
    forall|k: int| 0 <= k && k + 1 < s.len() && #[trigger] s[k] == '$' ==> !is_digit(s[k + 1])
}

proof fn lemma_rewrite_from(s: Seq<char>, i: int)
    requires
        0 <= i,
    ensures
        no_numbered_placeholder(sqlite_placeholders_from(s, i)),
        i < s.len() ==> sqlite_placeholders_from(s, i).len() > 0 && (sqlite_placeholders_from(s, i)[0]
            == '?' || sqlite_placeholders_from(s, i)[0] == s[i]),
    decreases s.len() - i,
{
    if i < s.len() {
        if s[i] == '$' && i + 1 < s.len() && is_digit(s[i + 1]) {
            lemma_digits_end(s, i + 1);
            let j = digits_end(s, i + 1);
            lemma_rewrite_from(s, j);
            let rest = sqlite_placeholders_from(s, j);
            let out = seq!['?'] + rest;
            assert forall|k: int| 0 <= k && k + 1 < out.len() && #[trigger] out[k] == '$' implies !is_digit(
                out[k + 1],
            ) by {
                assert(out[k] == rest[k - 1]);
                assert(out[k + 1] == rest[k]);
            }
        } else {
            lemma_rewrite_from(s, i + 1);
            let rest = sqlite_placeholders_from(s, i + 1);
            let out = seq![s[i]] + rest;
            assert forall|k: int| 0 <= k && k + 1 < out.len() && #[trigger] out[k] == '$' implies !is_digit(
                out[k + 1],
            ) by {
                if k > 0 {
                    assert(out[k] == rest[k - 1]);
                    assert(out[k + 1] == rest[k]);
                } else {
                    assert(out[1] == rest[0]);
                }
            }
        }
    }
}

/// For SQLite, no numbered placeholder survives: every `$N` has become `?`.
pub proof fn law_sqlite_has_no_numbered_placeholder(sql: Seq<char>)
    ensures
        no_numbered_placeholder(sqlite_placeholders(sql)),
{
    lemma_rewrite_from(sql, 0);
}

} // verus!
