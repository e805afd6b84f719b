//! The filter-to-query compiler: turns a [`Filters`] value into one
//! parameterized statement, either a page of channels or a page of groups.
//! No value is ever written into the statement's text: each one is bound to
//! a placeholder, in the order in which the placeholders appear.
use crate::db::SqlValue;
use crate::media_type;
use crate::types::{Channel, Filters};
use crate::view_type;
use vstd::prelude::*;
use vstd::string::StringExecFns;

verus! {

/// Rows in one page of a search.
pub const PAGE_SIZE: u8 = 36;

/// A predicate that no row meets, used for an empty set of allowed values.
pub const NEVER: &'static str = "0 = 1";

pub const CHANNEL_SELECT: &'static str = "SELECT id, name, group_id, image, media_type, source_id, url, favorite FROM channels";

pub const GROUP_SELECT: &'static str = "SELECT id, name, image, source_id FROM groups";

/// What a bound value is, as far as a statement is concerned.
pub enum Bound {
    Null,
    Int(int),
    Text(Seq<char>),
    Other,
}

pub open spec fn bound_of(v: SqlValue) -> Bound {
    match v {
        SqlValue::Null => Bound::Null,
        SqlValue::Integer(i) => Bound::Int(i as int),
        SqlValue::Text(s) => Bound::Text(s@),
        _ => Bound::Other,
    }
}

/// The LIKE pattern for a substring search: `%text%`, or `%` when no text is given.
pub open spec fn like_pattern(q: Option<String>) -> Seq<char> {
    match q {
        Some(s) => "%"@ + s@ + "%"@,
        None => "%"@,
    }
}

/// `n` placeholders separated by commas.
pub open spec fn placeholders(n: nat) -> Seq<char>
    decreases n,
{
    if n == 0 {
        Seq::empty()
    } else if n == 1 {
        "?"@
    } else {
        placeholders((n - 1) as nat) + ",?"@
    }
}

/// `column IN (?,...,?)` with `n` placeholders, or [`NEVER`] when `n` is zero.
pub open spec fn in_set(column: Seq<char>, n: nat) -> Seq<char> {
    if n == 0 {
        NEVER@
    } else {
        column + " IN ("@ + placeholders(n) + ")"@
    }
}

/// A request for categories, with neither a group nor a series scope, browses groups.
pub open spec fn is_category_browse(f: Filters) -> bool {
    f.view_type == view_type::CATEGORIES && f.group_id is None && f.series_id is None
}

/// The media kinds a channel search admits: episodes alone inside a series.
pub open spec fn allowed_media(f: Filters) -> Seq<u8> {
    if f.series_id is Some {
        seq![media_type::MOVIE]
    } else {
        match f.media_types {
            Some(m) => m@,
            None => Seq::empty(),
        }
    }
}

pub open spec fn favorites_only(f: Filters) -> bool {
    f.view_type == view_type::FAVORITES && f.series_id is None
}

/// Rows skipped before the given 1-based page.
pub open spec fn page_offset(page: u8) -> int {
    (page - 1) * PAGE_SIZE
}

pub open spec fn ints_of_kinds(s: Seq<u8>) -> Seq<Bound> {
    s.map_values(|m: u8| Bound::Int(m as int))
}

pub open spec fn ints_of_ids(s: Seq<i64>) -> Seq<Bound> {
    s.map_values(|m: i64| Bound::Int(m as int))
}

/// Text of the channel-browse statement.
pub open spec fn channel_sql(f: Filters) -> Seq<char> {
    CHANNEL_SELECT@ + " WHERE name LIKE ? AND "@ + in_set("media_type"@, allowed_media(f).len())
        + " AND "@ + in_set("source_id"@, f.source_ids@.len()) + " AND url IS NOT NULL"@ + (
    if favorites_only(f) {
        " AND favorite = 1"@
    } else {
        Seq::empty()
    }) + (if f.series_id is Some {
        " AND series_id = ?"@
    } else if f.group_id is Some {
        " AND group_id = ?"@
    } else {
        Seq::empty()
    }) + " LIMIT ?, ?"@
}

/// Values bound by the channel-browse statement, in placeholder order.
pub open spec fn channel_params(f: Filters) -> Seq<Bound> {
    seq![Bound::Text(like_pattern(f.query))] + ints_of_kinds(allowed_media(f)) + ints_of_ids(
        f.source_ids@,
    ) + (match f.series_id {
        Some(s) => seq![Bound::Int(s as int)],
        None => match f.group_id {
            Some(g) => seq![Bound::Int(g as int)],
            None => Seq::empty(),
        },
    }) + seq![Bound::Int(page_offset(f.page)), Bound::Int(PAGE_SIZE as int)]
}

/// Text of the group-browse statement.
pub open spec fn group_sql(f: Filters) -> Seq<char> {
    GROUP_SELECT@ + " WHERE name LIKE ? AND "@ + in_set("source_id"@, f.source_ids@.len())
        + " LIMIT ?, ?"@
}

/// Values bound by the group-browse statement, in placeholder order.
pub open spec fn group_params(f: Filters) -> Seq<Bound> {
    seq![Bound::Text(like_pattern(f.query))] + ints_of_ids(f.source_ids@) + seq![
        Bound::Int(page_offset(f.page)),
        Bound::Int(PAGE_SIZE as int),
    ]
}

/// A statement and the values bound to its placeholders.
pub struct SqlQuery {
    pub sql: String,
    pub params: Vec<SqlValue>,
}

impl SqlQuery {
    pub open spec fn bounds(&self) -> Seq<Bound> {
        self.params@.map_values(|v: SqlValue| bound_of(v))
    }

    pub fn new(sql: &str) -> (q: SqlQuery)
        ensures
            q.sql@ == sql@,
            q.bounds() == Seq::<Bound>::empty(),
    {
        let q = SqlQuery { sql: String::from_str(sql), params: Vec::new() };
        assert(q.bounds() =~= Seq::<Bound>::empty());
        q
    }

    /// A statement with the given text and values.
    pub fn of(sql: &str, params: Vec<SqlValue>) -> (q: SqlQuery)
        ensures
            q.sql@ == sql@,
            q.params@ == params@,
    {
        SqlQuery { sql: String::from_str(sql), params }
    }

    /// Appends a fragment to the statement's text.
    pub fn push_sql(&mut self, fragment: &str)
        ensures
            final(self).sql@ == old(self).sql@ + fragment@,
            final(self).bounds() == old(self).bounds(),
    {
        self.sql.append(fragment);
    }

    /// Binds one more value.
    pub fn bind(&mut self, v: SqlValue)
        ensures
            final(self).sql@ == old(self).sql@,
            final(self).bounds() == old(self).bounds().push(bound_of(v)),
    {
        self.params.push(v);
        assert(self.bounds() =~= old(self).bounds().push(bound_of(v)));
    }

    /// Appends `column IN (?,...,?)` with `n` placeholders, or [`NEVER`] when `n` is zero.
    fn push_in_set(&mut self, column: &str, n: usize)
        ensures
            final(self).sql@ == old(self).sql@ + in_set(column@, n as nat),
            final(self).bounds() == old(self).bounds(),
    {
        if n == 0 {
            self.push_sql(NEVER);
        } else {
            let ph = generate_placeholders(n);
            self.push_sql(column);
            self.push_sql(" IN (");
            self.push_sql(ph.as_str());
            self.push_sql(")");
            assert(self.sql@ =~= old(self).sql@ + in_set(column@, n as nat));
        }
    }

    /// Appends `column IN (...)` for the given media kinds, and binds them.
    pub fn push_in_kinds(&mut self, column: &str, kinds: &Vec<u8>)
        ensures
            final(self).sql@ == old(self).sql@ + in_set(column@, kinds@.len()),
            final(self).bounds() == old(self).bounds() + ints_of_kinds(kinds@),
    {
        self.push_in_set(column, kinds.len());
        let ghost start = self.bounds();
        let mut i: usize = 0;
        while i < kinds.len()
            invariant
                i <= kinds@.len(),
                self.sql@ == old(self).sql@ + in_set(column@, kinds@.len()),
                self.bounds() == start + ints_of_kinds(kinds@.subrange(0, i as int)),
                start == old(self).bounds(),
            decreases kinds.len() - i,
        {
            let ghost before = self.bounds();
            self.bind(SqlValue::Integer(kinds[i] as i64));
            assert(ints_of_kinds(kinds@.subrange(0, i + 1)) =~= ints_of_kinds(
                kinds@.subrange(0, i as int),
            ).push(Bound::Int(kinds@[i as int] as int)));
            assert(self.bounds() =~= start + ints_of_kinds(kinds@.subrange(0, i + 1)));
            i = i + 1;
        }
        assert(kinds@.subrange(0, kinds@.len() as int) =~= kinds@);
    }

    /// Appends `column IN (...)` for the given identities, and binds them.
    pub fn push_in_ids(&mut self, column: &str, ids: &Vec<i64>)
        ensures
            final(self).sql@ == old(self).sql@ + in_set(column@, ids@.len()),
            final(self).bounds() == old(self).bounds() + ints_of_ids(ids@),
    {
        self.push_in_set(column, ids.len());
        let ghost start = self.bounds();
        let mut i: usize = 0;
        while i < ids.len()
            invariant
                i <= ids@.len(),
                self.sql@ == old(self).sql@ + in_set(column@, ids@.len()),
                self.bounds() == start + ints_of_ids(ids@.subrange(0, i as int)),
                start == old(self).bounds(),
            decreases ids.len() - i,
        {
            self.bind(SqlValue::Integer(ids[i]));
            assert(ints_of_ids(ids@.subrange(0, i + 1)) =~= ints_of_ids(
                ids@.subrange(0, i as int),
            ).push(Bound::Int(ids@[i as int] as int)));
            assert(self.bounds() =~= start + ints_of_ids(ids@.subrange(0, i + 1)));
            i = i + 1;
        }
        assert(ids@.subrange(0, ids@.len() as int) =~= ids@);
    }
}

/// `size` placeholders separated by commas.
pub fn generate_placeholders(size: usize) -> (r: String)
    ensures
        r@ == placeholders(size as nat),
{
    let mut s = String::new();
    let mut i: usize = 0;
    while i < size
        invariant
            i <= size,
            s@ == placeholders(i as nat),
        decreases size - i,
    {
        if i == 0 {
            s.append("?");
        } else {
            s.append(",?");
        }
        i = i + 1;
    }
    s
}

/// The LIKE pattern for a substring search.
pub fn to_sql_like(query: Option<String>) -> (r: String)
    ensures
        r@ == like_pattern(query),
{
    match query {
        Some(x) => String::from_str("%").concat(x.as_str()).concat("%"),
        None => String::from_str("%"),
    }
}

/// The LIKE pattern of a request, bound first in both statements.
fn like_of(f: &Filters) -> (r: SqlValue)
    ensures
        bound_of(r) == Bound::Text(like_pattern(f.query)),
{
    match &f.query {
        Some(s) => SqlValue::Text(to_sql_like(Some(s.clone()))),
        None => SqlValue::Text(to_sql_like(None)),
    }
}

/// Binds the offset and the size of the requested page.
fn bind_page(q: &mut SqlQuery, page: u8)
    requires
        page >= 1,
    ensures
        final(q).sql@ == old(q).sql@,
        final(q).bounds() == old(q).bounds() + seq![
            Bound::Int(page_offset(page)),
            Bound::Int(PAGE_SIZE as int),
        ],
{
    let before: i64 = (page - 1) as i64;
    assert(0 <= before <= 254);
    assert(0 <= before * (PAGE_SIZE as i64) <= 254 * 36) by (nonlinear_arith)
        requires
            0 <= before <= 254,
            PAGE_SIZE == 36,
    ;
    let offset: i64 = before * PAGE_SIZE as i64;
    q.bind(SqlValue::Integer(offset));
    q.bind(SqlValue::Integer(PAGE_SIZE as i64));
    assert(q.bounds() =~= old(q).bounds() + seq![
        Bound::Int(page_offset(page)),
        Bound::Int(PAGE_SIZE as int),
    ]);
}

/// Compiles the channel-browse statement of a request.
pub fn compile_channel_query(f: &Filters) -> (q: SqlQuery)
    requires
        f.page >= 1,
    ensures
        q.sql@ == channel_sql(*f),
        q.bounds() == channel_params(*f),
{
    let mut q = SqlQuery::new(CHANNEL_SELECT);
    q.push_sql(" WHERE name LIKE ? AND ");
    q.bind(like_of(f));
    if f.series_id.is_some() {
        q.push_in_kinds("media_type", &vec![media_type::MOVIE]);
        assert(seq![media_type::MOVIE] =~= allowed_media(*f));
    } else {
        match &f.media_types {
            Some(m) => q.push_in_kinds("media_type", m),
            None => {
                let none: Vec<u8> = Vec::new();
                q.push_in_kinds("media_type", &none);
                assert(none@ =~= allowed_media(*f));
            },
        }
    }
    q.push_sql(" AND ");
    q.push_in_ids("source_id", &f.source_ids);
    q.push_sql(" AND url IS NOT NULL");
    let ghost after_url = q.sql@;
    if f.view_type == view_type::FAVORITES && f.series_id.is_none() {
        q.push_sql(" AND favorite = 1");
    } else {
        assert(q.sql@ =~= after_url + Seq::<char>::empty());
    }
    let ghost after_fav = q.sql@;
    let ghost mid = q.bounds();
    match f.series_id {
        Some(s) => {
            q.push_sql(" AND series_id = ?");
            q.bind(SqlValue::Integer(s));
        },
        None => match f.group_id {
            Some(g) => {
                q.push_sql(" AND group_id = ?");
                q.bind(SqlValue::Integer(g));
            },
            None => {
                assert(q.sql@ =~= after_fav + Seq::<char>::empty());
                assert(q.bounds() =~= mid + Seq::<Bound>::empty());
            },
        },
    }
    q.push_sql(" LIMIT ?, ?");
    bind_page(&mut q, f.page);
    assert(q.bounds() =~= channel_params(*f));
    assert(q.sql@ =~= channel_sql(*f));
    q
}

/// Compiles the group-browse statement of a request.
pub fn compile_group_query(f: &Filters) -> (q: SqlQuery)
    requires
        f.page >= 1,
    ensures
        q.sql@ == group_sql(*f),
        q.bounds() == group_params(*f),
{
    let mut q = SqlQuery::new(GROUP_SELECT);
    q.push_sql(" WHERE name LIKE ? AND ");
    q.bind(like_of(f));
    q.push_in_ids("source_id", &f.source_ids);
    q.push_sql(" LIMIT ?, ?");
    bind_page(&mut q, f.page);
    assert(q.bounds() =~= group_params(*f));
    q
}

/// Whether a request browses groups rather than channels.
pub fn browses_categories(f: &Filters) -> (r: bool)
    ensures
        r == is_category_browse(*f),
{
    f.view_type == view_type::CATEGORIES && f.group_id.is_none() && f.series_id.is_none()
}

/// Pages are adjacent windows of [`PAGE_SIZE`] rows, in both statements: the
/// first page starts at row 0, each page binds its offset and then the page
/// size as its last two values, and a page starts where the one before it ends.
pub proof fn lemma_pages_adjacent(f: Filters)
    requires
        1 <= f.page < 255,
    ensures
        page_offset(1) == 0,
        page_offset((f.page + 1) as u8) == page_offset(f.page) + PAGE_SIZE,
        channel_params(f).len() >= 2,
        channel_params(f)[channel_params(f).len() - 2] == Bound::Int(page_offset(f.page)),
        channel_params(f)[channel_params(f).len() - 1] == Bound::Int(PAGE_SIZE as int),
        group_params(f).len() >= 2,
        group_params(f)[group_params(f).len() - 2] == Bound::Int(page_offset(f.page)),
        group_params(f)[group_params(f).len() - 1] == Bound::Int(PAGE_SIZE as int),
{
    assert(page_offset((f.page + 1) as u8) == f.page * PAGE_SIZE) by (nonlinear_arith)
        requires
            1 <= f.page < 255,
    ;
    assert((f.page - 1) * PAGE_SIZE + PAGE_SIZE == f.page * PAGE_SIZE) by (nonlinear_arith);
}

/// Number of placeholders in a statement's text.
pub open spec fn count_marks(s: Seq<char>) -> nat
    decreases s.len(),
{
    if s.len() == 0 {
        0
    } else {
        count_marks(s.drop_last()) + if s.last() == '?' {
            1nat
        } else {
            0nat
        }
    }
}

proof fn lemma_count_concat(a: Seq<char>, b: Seq<char>)
    ensures
        count_marks(a + b) == count_marks(a) + count_marks(b),
    decreases b.len(),
{
    if b.len() == 0 {
        assert(a + b =~= a);
    } else {
        assert((a + b).drop_last() =~= a + b.drop_last());
        lemma_count_concat(a, b.drop_last());
    }
}

proof fn lemma_no_marks(s: Seq<char>)
    requires
        forall|i: int| 0 <= i < s.len() ==> s[i] != '?',
    ensures
        count_marks(s) == 0,
    decreases s.len(),
{
    if s.len() > 0 {
        lemma_no_marks(s.drop_last());
    }
}

proof fn lemma_placeholder_marks(n: nat)
    ensures
        count_marks(placeholders(n)) == n,
    decreases n,
{
    reveal_strlit("?");
    reveal_strlit(",?");
    assert(count_marks(Seq::<char>::empty()) == 0);
    assert(count_marks("?"@) == 1) by {
        assert("?"@.drop_last() =~= Seq::<char>::empty());
    }
    assert(count_marks(seq![',']) == 0) by {
        assert(seq![','].drop_last() =~= Seq::<char>::empty());
    }
    assert(count_marks(",?"@) == 1) by {
        assert(",?"@.drop_last() =~= seq![',']);
    }
    if n > 1 {
        lemma_placeholder_marks((n - 1) as nat);
        lemma_count_concat(placeholders((n - 1) as nat), ",?"@);
    }
}

proof fn lemma_in_set_marks(column: Seq<char>, n: nat)
    requires
        count_marks(column) == 0,
    ensures
        count_marks(in_set(column, n)) == n,
{
    reveal_strlit("0 = 1");
    reveal_strlit(" IN (");
    reveal_strlit(")");
    if n == 0 {
        lemma_no_marks(NEVER@);
    } else {
        lemma_no_marks(" IN ("@);
        lemma_no_marks(")"@);
        lemma_placeholder_marks(n);
        lemma_count_concat(column, " IN ("@);
        lemma_count_concat(column + " IN ("@, placeholders(n));
        lemma_count_concat(column + " IN ("@ + placeholders(n), ")"@);
    }
}

/// Every placeholder of a compiled statement has exactly one bound value:
/// the statement's text holds as many placeholders as values are bound.
pub proof fn lemma_channel_marks_match_params(f: Filters)
    ensures
        count_marks(channel_sql(f)) == channel_params(f).len(),
{
    reveal_strlit("SELECT id, name, group_id, image, media_type, source_id, url, favorite FROM channels");
    reveal_strlit(" WHERE name LIKE ? AND ");
    reveal_strlit(" AND ");
    reveal_strlit(" AND url IS NOT NULL");
    reveal_strlit(" AND favorite = 1");
    reveal_strlit(" AND series_id = ?");
    reveal_strlit(" AND group_id = ?");
    reveal_strlit(" LIMIT ?, ?");
    reveal_strlit("media_type");
    reveal_strlit("source_id");
    lemma_no_marks(CHANNEL_SELECT@);
    lemma_no_marks(" AND "@);
    lemma_no_marks(" AND url IS NOT NULL"@);
    lemma_no_marks(" AND favorite = 1"@);
    lemma_no_marks("media_type"@);
    lemma_no_marks("source_id"@);
    lemma_no_marks(Seq::<char>::empty());
    lemma_marks_one(" WHERE name LIKE ? AND "@, 17);
    lemma_marks_one(" AND series_id = ?"@, 17);
    lemma_marks_one(" AND group_id = ?"@, 16);
    lemma_marks_limit();
    lemma_in_set_marks("media_type"@, allowed_media(f).len());
    lemma_in_set_marks("source_id"@, f.source_ids@.len());
    let a0 = CHANNEL_SELECT@;
    let a1 = " WHERE name LIKE ? AND "@;
    let a2 = in_set("media_type"@, allowed_media(f).len());
    let a3 = " AND "@;
    let a4 = in_set("source_id"@, f.source_ids@.len());
    let a5 = " AND url IS NOT NULL"@;
    let a6 = if favorites_only(f) { " AND favorite = 1"@ } else { Seq::empty() };
    let a7 = if f.series_id is Some {
        " AND series_id = ?"@
    } else if f.group_id is Some {
        " AND group_id = ?"@
    } else {
        Seq::empty()
    };
    let a8 = " LIMIT ?, ?"@;
    lemma_count_concat(a0, a1);
    lemma_count_concat(a0 + a1, a2);
    lemma_count_concat(a0 + a1 + a2, a3);
    lemma_count_concat(a0 + a1 + a2 + a3, a4);
    lemma_count_concat(a0 + a1 + a2 + a3 + a4, a5);
    lemma_count_concat(a0 + a1 + a2 + a3 + a4 + a5, a6);
    lemma_count_concat(a0 + a1 + a2 + a3 + a4 + a5 + a6, a7);
    lemma_count_concat(a0 + a1 + a2 + a3 + a4 + a5 + a6 + a7, a8);
}

/// A text with a single placeholder, at index `k`.
proof fn lemma_marks_one(s: Seq<char>, k: int)
    requires
        0 <= k < s.len(),
        s[k] == '?',
        forall|i: int| 0 <= i < s.len() && i != k ==> s[i] != '?',
    ensures
        count_marks(s) == 1,
{
    let pre = s.subrange(0, k);
    let post = s.subrange(k + 1, s.len() as int);
    assert(s =~= pre + seq!['?'] + post);
    lemma_no_marks(pre);
    lemma_no_marks(post);
    assert(seq!['?'].drop_last() =~= Seq::<char>::empty());
    assert(count_marks(Seq::<char>::empty()) == 0);
    assert(count_marks(seq!['?']) == 1);
    lemma_count_concat(pre, seq!['?']);
    lemma_count_concat(pre + seq!['?'], post);
}

proof fn lemma_marks_limit()
    ensures
        count_marks(" LIMIT ?, ?"@) == 2,
{
    reveal_strlit(" LIMIT ?, ?");
    let s = " LIMIT ?, ?"@;
    let a = s.subrange(0, 8);
    let b = s.subrange(8, s.len() as int);
    assert(s =~= a + b);
    lemma_marks_one(a, 7);
    lemma_marks_one(b, 2);
    lemma_count_concat(a, b);
}

/// The group-browse statement, too, holds as many placeholders as values are bound.
pub proof fn lemma_group_marks_match_params(f: Filters)
    ensures
        count_marks(group_sql(f)) == group_params(f).len(),
{
    reveal_strlit("SELECT id, name, image, source_id FROM groups");
    reveal_strlit(" WHERE name LIKE ? AND ");
    reveal_strlit("source_id");
    lemma_no_marks(GROUP_SELECT@);
    lemma_no_marks("source_id"@);
    lemma_marks_one(" WHERE name LIKE ? AND "@, 17);
    lemma_marks_limit();
    lemma_in_set_marks("source_id"@, f.source_ids@.len());
    let a0 = GROUP_SELECT@;
    let a1 = " WHERE name LIKE ? AND "@;
    let a2 = in_set("source_id"@, f.source_ids@.len());
    let a3 = " LIMIT ?, ?"@;
    lemma_count_concat(a0, a1);
    lemma_count_concat(a0 + a1, a2);
    lemma_count_concat(a0 + a1 + a2, a3);
}

/// What a channel row of a channel-browse page meets: a url, an allowed
/// source and stored media kind (never the synthesized "group" kind), the
/// favorite flag in the favorites view, and the group scope.
pub open spec fn admits_channel(f: Filters, c: Channel) -> bool {
    &&& c.url is Some
    &&& c.media_type != media_type::GROUP
    &&& c.source_id is Some && f.source_ids@.contains(c.source_id->Some_0)
    &&& allowed_media(f).contains(c.media_type)
    &&& favorites_only(f) ==> c.favorite
    &&& (f.series_id is None && f.group_id is Some) ==> c.group_id == f.group_id
}

/// What a category row of a group-browse page meets: the synthesized
/// "group" kind with no url, group, series or favorite flag, and an allowed
/// source.
pub open spec fn admits_category(f: Filters, c: Channel) -> bool {
    &&& c.media_type == media_type::GROUP
    &&& c.url is None && c.group_id is None && c.series_id is None && !c.favorite
    &&& c.source_id is Some && f.source_ids@.contains(c.source_id->Some_0)
}

fn contains_id(v: &Vec<i64>, x: i64) -> (r: bool)
    ensures
        r == v@.contains(x),
{
    let mut i: usize = 0;
    while i < v.len()
        invariant
            i <= v@.len(),
            forall|j: int| 0 <= j < i ==> v@[j] != x,
        decreases v.len() - i,
    {
        if v[i] == x {
            return true;
        }
        i = i + 1;
    }
    false
}

fn contains_kind(v: &Vec<u8>, x: u8) -> (r: bool)
    ensures
        r == v@.contains(x),
{
    let mut i: usize = 0;
    while i < v.len()
        invariant
            i <= v@.len(),
            forall|j: int| 0 <= j < i ==> v@[j] != x,
        decreases v.len() - i,
    {
        if v[i] == x {
            return true;
        }
        i = i + 1;
    }
    false
}

/// Whether a channel row meets a request.
pub fn channel_admitted(f: &Filters, c: &Channel) -> (r: bool)
    ensures
        r == admits_channel(*f, *c),
{
    let source_ok = match c.source_id {
        Some(s) => contains_id(&f.source_ids, s),
        None => false,
    };
    let kind_ok = if f.series_id.is_some() {
        assert(allowed_media(*f) =~= seq![media_type::MOVIE]);
        assert(allowed_media(*f)[0] == media_type::MOVIE);
        c.media_type == media_type::MOVIE
    } else {
        match &f.media_types {
            Some(m) => contains_kind(m, c.media_type),
            None => false,
        }
    };
    let favorite_ok = !(f.view_type == view_type::FAVORITES && f.series_id.is_none()) || c.favorite;
    let group_ok = !(f.series_id.is_none() && f.group_id.is_some()) || c.group_id == f.group_id;
    c.url.is_some() && c.media_type != media_type::GROUP && source_ok && kind_ok && favorite_ok
        && group_ok
}

/// Whether a category row meets a request.
pub fn category_admitted(f: &Filters, c: &Channel) -> (r: bool)
    ensures
        r == admits_category(*f, *c),
{
    let source_ok = match c.source_id {
        Some(s) => contains_id(&f.source_ids, s),
        None => false,
    };
    c.media_type == media_type::GROUP && c.url.is_none() && c.group_id.is_none()
        && c.series_id.is_none() && !c.favorite && source_ok
}

} // verus!
