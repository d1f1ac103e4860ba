//! Shared behavior of all statement builders: raw-fragment matching at
//! clause boundaries, deduplicating accumulation, and the clause renderers
//! common to several statement kinds.

use vstd::prelude::*;
use vstd::string::StringExecFns;

use crate::fmt::Format;
use crate::fmt::join_list;
use crate::select::SelectBuilder;
use crate::select::with_part_generic;
use crate::text::join_with;
use crate::text::str_eq;
use crate::text::texts_of;

verus! {

/// A clause identity: a tag comparable for exact equality, used only to
/// associate raw fragments with a render position.
pub trait ClauseTag: Sized {
    /// Decides equality of two clause tags.
    fn tag_eq(&self, other: &Self) -> (r: bool)
        ensures
            r == (*self == *other),
    ;
}

/// The texts of the fragments tagged with `clause`, in insertion order.
pub open spec fn raw_texts<C>(list: Seq<(C, String)>, clause: C) -> Seq<Seq<char>>
    decreases list.len(),
{
    if list.len() == 0 {
        Seq::empty()
    } else {
        raw_texts(list.drop_last(), clause) + (if list.last().0 == clause {
            seq![list.last().1@]
        } else {
            Seq::empty()
        })
    }
}

/// What a group of raw fragments contributes at a clause boundary: the
/// matching fragments joined by single spaces, then one space — or nothing
/// at all when no fragment matches.
pub open spec fn raw_group<C>(list: Seq<(C, String)>, clause: C) -> Seq<char> {
    let ts = raw_texts(list, clause);
    if ts.len() == 0 {
        Seq::empty()
    } else {
        join_with(ts, " "@) + " "@
    }
}

/// A clause keyword as emitted: wrapped in the blue escape pair when the
/// policy colorizes, unchanged otherwise. An absent keyword stays absent.
pub open spec fn colored_kw(kw: Seq<char>, colorize: bool) -> Seq<char> {
    if colorize && kw.len() > 0 {
        "\u{1b}[34m"@ + kw + "\u{1b}[0m"@
    } else {
        kw
    }
}

/// Whether some entry of `ts` is exactly the text `v`.
pub open spec fn contains_text(ts: Seq<Seq<char>>, v: Seq<char>) -> bool {
    exists|i: int| 0 <= i < ts.len() && ts[i] == v
}

/// The list with `v` appended, unless an equal text is already present.
pub open spec fn push_unique_spec(ts: Seq<Seq<char>>, v: Seq<char>) -> Seq<Seq<char>> {
    if contains_text(ts, v) {
        ts
    } else {
        ts.push(v)
    }
}

/// Whether the list holds a string equal to `v`.
fn contains_string(list: &Vec<String>, v: &str) -> (r: bool)
    ensures
        r == contains_text(texts_of(list@), v@),
{
    let mut i: usize = 0;
    while i < list.len()
        invariant
            i <= list@.len(),
            forall|k: int| 0 <= k < i ==> list@[k]@ != v@,
        decreases list@.len() - i,
    {
        if str_eq(list[i].as_str(), v) {
            proof {
                assert(texts_of(list@)[i as int] == v@);
            }
            return true;
        }
        i = i + 1;
    }
    false
}

/// Appends `value` unless an equal string is already in the list, making
/// repeated accumulation of identical text idempotent.
pub fn push_unique(list: &mut Vec<String>, value: String)
    ensures
        texts_of(final(list)@) == push_unique_spec(texts_of(old(list)@), value@),
{
    let present = contains_string(list, value.as_str());
    if !present {
        list.push(value);
        proof {
            assert(texts_of(list@) =~= push_unique_spec(texts_of(old(list)@), value@));
        }
    }
}

/// All raw fragments tagged with `clause`, order-preserving.
pub fn raw_queries<C: ClauseTag>(raw_list: &Vec<(C, String)>, clause: &C) -> (r: Vec<String>)
    ensures
        texts_of(r@) == raw_texts(raw_list@, *clause),
{
    let mut out: Vec<String> = Vec::new();
    proof {
        assert(raw_list@.take(0) =~= Seq::<(C, String)>::empty());
        assert(texts_of(out@) =~= raw_texts(raw_list@.take(0), *clause));
    }
    let mut i: usize = 0;
    while i < raw_list.len()
        invariant
            i <= raw_list@.len(),
            texts_of(out@) == raw_texts(raw_list@.take(i as int), *clause),
        decreases raw_list@.len() - i,
    {
        let ghost pre = out@;
        if raw_list[i].0.tag_eq(clause) {
            out.push(raw_list[i].1.clone());
        }
        proof {
            let t = raw_list@.take(i + 1);
            assert(t.drop_last() =~= raw_list@.take(i as int));
            assert(t.last() == raw_list@[i as int]);
            if raw_list@[i as int].0 == *clause {
                assert(texts_of(pre.push(raw_list@[i as int].1)) =~= texts_of(pre).push(
                    raw_list@[i as int].1@,
                ));
                assert(texts_of(out@) =~= raw_texts(t, *clause));
            } else {
                assert(texts_of(out@) =~= raw_texts(t, *clause));
            }
        }
        i = i + 1;
    }
    proof {
        assert(raw_list@.take(raw_list@.len() as int) =~= raw_list@);
    }
    out
}

/// Appends to `query` the raw fragments tagged before `clause`.
pub fn concat_raw_before<C: ClauseTag>(
    items_before: &Vec<(C, String)>,
    query: String,
    fmts: &Format,
    clause: &C,
) -> (r: String)
    ensures
        r@ == query@ + raw_group(items_before@, *clause),
{
    let raw_before = raw_queries(items_before, clause);
    let mut q = query;
    if raw_before.len() > 0 {
        let joined = join_list(&raw_before, " ");
        q.append(joined.as_str());
        q.append(" ");
    }
    proof {
        assert(texts_of(raw_before@).len() == raw_before@.len());
        assert(q@ =~= query@ + raw_group(items_before@, *clause));
    }
    q
}

/// Appends to `query` the raw fragments tagged after `clause`.
pub fn concat_raw_after<C: ClauseTag>(
    items_after: &Vec<(C, String)>,
    query: String,
    fmts: &Format,
    clause: &C,
) -> (r: String)
    ensures
        r@ == query@ + raw_group(items_after@, *clause),
{
    let raw_after = raw_queries(items_after, clause);
    let mut q = query;
    if raw_after.len() > 0 {
        let joined = join_list(&raw_after, " ");
        q.append(joined.as_str());
        q.append(" ");
    }
    proof {
        assert(texts_of(raw_after@).len() == raw_after@.len());
        assert(q@ =~= query@ + raw_group(items_after@, *clause));
    }
    q
}

/// Appends to `query` the before-group, the clause's own text, then the
/// after-group.
pub fn concat_raw_before_after<C: ClauseTag>(
    items_before: &Vec<(C, String)>,
    items_after: &Vec<(C, String)>,
    query: String,
    fmts: &Format,
    clause: C,
    sql: String,
) -> (r: String)
    ensures
        r@ == query@ + raw_group(items_before@, clause) + sql@ + raw_group(items_after@, clause),
{
    let mut q = concat_raw_before(items_before, query, fmts, &clause);
    q.append(sql.as_str());
    let out = concat_raw_after(items_after, q, fmts, &clause);
    proof {
        assert(out@ =~= query@ + raw_group(items_before@, clause) + sql@ + raw_group(
            items_after@,
            clause,
        ));
    }
    out
}

/// What a keyword-plus-list clause contributes: the before-group, then — only
/// when the list is non-empty — the keyword, the items joined by `sep`, a
/// space and the line break, then the after-group.
pub open spec fn list_clause_part<C>(
    before: Seq<(C, String)>,
    after: Seq<(C, String)>,
    clause: C,
    kw: Seq<char>,
    items: Seq<Seq<char>>,
    sep: Seq<char>,
    lb: Seq<char>,
) -> Seq<char> {
    raw_group(before, clause) + (if items.len() == 0 {
        Seq::empty()
    } else {
        kw + join_with(items, sep) + " "@ + lb
    }) + raw_group(after, clause)
}

/// What a single-value clause contributes: as [`list_clause_part`], with the
/// value emitted verbatim after the keyword.
pub open spec fn scalar_clause_part<C>(
    before: Seq<(C, String)>,
    after: Seq<(C, String)>,
    clause: C,
    kw: Seq<char>,
    value: Seq<char>,
    lb: Seq<char>,
) -> Seq<char> {
    raw_group(before, clause) + (if value.len() == 0 {
        Seq::empty()
    } else {
        kw + value + " "@ + lb
    }) + raw_group(after, clause)
}

/// What the VALUES clause contributes: the keyword and a line break, the
/// tuples joined by comma-plus-line-break, a space and a line break.
pub open spec fn values_clause_part<C>(
    before: Seq<(C, String)>,
    after: Seq<(C, String)>,
    clause: C,
    kw: Seq<char>,
    items: Seq<Seq<char>>,
    comma: Seq<char>,
    lb: Seq<char>,
) -> Seq<char> {
    raw_group(before, clause) + (if items.len() == 0 {
        Seq::empty()
    } else {
        kw + lb + join_with(items, comma + lb) + " "@ + lb
    }) + raw_group(after, clause)
}

/// What the unassociated raw fragments contribute at the very front: the
/// fragments joined by single spaces, a space and the line break.
pub open spec fn raw_clause_part(items: Seq<Seq<char>>, lb: Seq<char>) -> Seq<char> {
    if items.len() == 0 {
        Seq::empty()
    } else {
        join_with(items, " "@) + " "@ + lb
    }
}

/// Appends a keyword-plus-list clause to `query`; shared by every list
/// renderer. The keyword is colorized when the policy asks for it.
pub fn concat_list_clause<C: ClauseTag>(
    items_raw_before: &Vec<(C, String)>,
    items_raw_after: &Vec<(C, String)>,
    query: String,
    fmts: &Format,
    clause: C,
    kw: &str,
    items: &Vec<String>,
    sep: &str,
) -> (r: String)
    ensures
        r@ == query@ + list_clause_part(
            items_raw_before@,
            items_raw_after@,
            clause,
            colored_kw(kw@, fmts.colorize),
            texts_of(items@),
            sep@,
            fmts.lb@,
        ),
{
    let mut q = concat_raw_before(items_raw_before, query, fmts, &clause);
    if items.len() > 0 {
        if !kw.is_empty() {
            let tok = fmts.write_blue(kw);
            q.append(tok.as_str());
        }
        let joined = join_list(items, sep);
        q.append(joined.as_str());
        q.append(" ");
        q.append(fmts.lb.as_str());
    }
    let out = concat_raw_after(items_raw_after, q, fmts, &clause);
    proof {
        assert(texts_of(items@).len() == items@.len());
        assert(out@ =~= query@ + list_clause_part(
            items_raw_before@,
            items_raw_after@,
            clause,
            colored_kw(kw@, fmts.colorize),
            texts_of(items@),
            sep@,
            fmts.lb@,
        ));
    }
    out
}

/// Appends a single-value clause to `query`; shared by every scalar
/// renderer. The keyword is colorized when the policy asks for it.
pub fn concat_scalar_clause<C: ClauseTag>(
    items_raw_before: &Vec<(C, String)>,
    items_raw_after: &Vec<(C, String)>,
    query: String,
    fmts: &Format,
    clause: C,
    kw: &str,
    value: &str,
) -> (r: String)
    ensures
        r@ == query@ + scalar_clause_part(
            items_raw_before@,
            items_raw_after@,
            clause,
            colored_kw(kw@, fmts.colorize),
            value@,
            fmts.lb@,
        ),
{
    let mut q = concat_raw_before(items_raw_before, query, fmts, &clause);
    if !value.is_empty() {
        if !kw.is_empty() {
            let tok = fmts.write_blue(kw);
            q.append(tok.as_str());
        }
        q.append(value);
        q.append(" ");
        q.append(fmts.lb.as_str());
    }
    let out = concat_raw_after(items_raw_after, q, fmts, &clause);
    proof {
        assert(out@ =~= query@ + scalar_clause_part(
            items_raw_before@,
            items_raw_after@,
            clause,
            colored_kw(kw@, fmts.colorize),
            value@,
            fmts.lb@,
        ));
    }
    out
}

/// Accumulating the same text twice is the same as accumulating it once:
/// deduplicating insertion is idempotent. This carries both the WHERE-family
/// condition lists and the unassociated raw fragments, whatever leading or
/// trailing whitespace the caller wrote, since entries are trimmed before
/// insertion.
pub proof fn lemma_push_unique_idempotent(ts: Seq<Seq<char>>, v: Seq<char>)
    ensures
        push_unique_spec(push_unique_spec(ts, v), v) == push_unique_spec(ts, v),
{
    if !contains_text(ts, v) {
        assert(ts.push(v)[ts.len() as int] == v);
        assert(contains_text(ts.push(v), v));
    }
}

/// Tagged raw fragments keep insertion order and duplicates: appending a
/// fragment appends its text to exactly the lists of its own clause, at the
/// end, and leaves every other clause's fragments unchanged.
pub proof fn lemma_raw_texts_push<C>(list: Seq<(C, String)>, entry: (C, String), clause: C)
    ensures
        raw_texts(list.push(entry), clause) == raw_texts(list, clause) + (if entry.0 == clause {
            seq![entry.1@]
        } else {
            Seq::<Seq<char>>::empty()
        }),
{
    assert(list.push(entry).drop_last() =~= list);
    assert(list.push(entry).last() == entry);
}

/// A keyword-plus-list clause whose accumulator and raw fragments are all
/// empty contributes nothing to the output: no keyword, no whitespace.
pub proof fn lemma_list_clause_omitted<C>(
    before: Seq<(C, String)>,
    after: Seq<(C, String)>,
    clause: C,
    kw: Seq<char>,
    items: Seq<Seq<char>>,
    sep: Seq<char>,
    lb: Seq<char>,
)
    requires
        raw_texts(before, clause).len() == 0,
        raw_texts(after, clause).len() == 0,
        items.len() == 0,
    ensures
        list_clause_part(before, after, clause, kw, items, sep, lb) == Seq::<char>::empty(),
{
    assert(list_clause_part(before, after, clause, kw, items, sep, lb) =~= Seq::<char>::empty());
}

/// A single-value clause whose value and raw fragments are all empty
/// contributes nothing to the output.
pub proof fn lemma_scalar_clause_omitted<C>(
    before: Seq<(C, String)>,
    after: Seq<(C, String)>,
    clause: C,
    kw: Seq<char>,
    value: Seq<char>,
    lb: Seq<char>,
)
    requires
        raw_texts(before, clause).len() == 0,
        raw_texts(after, clause).len() == 0,
        value.len() == 0,
    ensures
        scalar_clause_part(before, after, clause, kw, value, lb) == Seq::<char>::empty(),
{
    assert(scalar_clause_part(before, after, clause, kw, value, lb) =~= Seq::<char>::empty());
}

/// A VALUES clause whose tuples and raw fragments are all empty contributes
/// nothing to the output.
pub proof fn lemma_values_clause_omitted<C>(
    before: Seq<(C, String)>,
    after: Seq<(C, String)>,
    clause: C,
    kw: Seq<char>,
    items: Seq<Seq<char>>,
    comma: Seq<char>,
    lb: Seq<char>,
)
    requires
        raw_texts(before, clause).len() == 0,
        raw_texts(after, clause).len() == 0,
        items.len() == 0,
    ensures
        values_clause_part(before, after, clause, kw, items, comma, lb) == Seq::<char>::empty(),
{
    assert(values_clause_part(before, after, clause, kw, items, comma, lb) =~= Seq::<
        char,
    >::empty());
}

/// A statement rendered as text. The single capability through which nested
/// sub-queries are rendered.
pub trait Concat {
    /// The text this statement renders to under the given formatting tokens.
    spec fn render_spec(
        &self,
        comma: Seq<char>,
        lb: Seq<char>,
        indent: Seq<char>,
        colorize: bool,
    ) -> Seq<char>;

    /// Renders the full statement under the given formatting policy.
    fn concat(&self, fmts: &Format) -> (r: String)
        ensures
            r@ == self.render_spec(fmts.comma@, fmts.lb@, fmts.indent@, fmts.colorize),
    ;
}

/// The statements that can be attached as named sub-queries in the WITH
/// method.
pub trait WithQuery: Concat {

}

/// The clause renderers shared across statement kinds. Each appends one
/// clause's contribution to the accumulated statement text.
pub trait ConcatMethods<Clause: ClauseTag> {
    /// Renders the FROM clause.
    fn concat_from(
        &self,
        items_raw_before: &Vec<(Clause, String)>,
        items_raw_after: &Vec<(Clause, String)>,
        query: String,
        fmts: &Format,
        clause: Clause,
        items: &Vec<String>,
    ) -> (r: String)
        ensures
            r@ == query@ + list_clause_part(
                items_raw_before@,
                items_raw_after@,
                clause,
                colored_kw("FROM "@, fmts.colorize),
                texts_of(items@),
                fmts.comma@,
                fmts.lb@,
            ),
    {
        concat_list_clause(
            items_raw_before,
            items_raw_after,
            query,
            fmts,
            clause,
            "FROM ",
            items,
            fmts.comma.as_str(),
        )
    }

    /// Renders the unassociated raw fragments that open the statement.
    fn concat_raw(&self, query: String, fmts: &Format, items: &Vec<String>) -> (r: String)
        ensures
            r@ == query@ + raw_clause_part(texts_of(items@), fmts.lb@),
    {
        let mut q = query;
        if items.len() > 0 {
            let joined = join_list(items, " ");
            q.append(joined.as_str());
            q.append(" ");
            q.append(fmts.lb.as_str());
        }
        proof {
            assert(texts_of(items@).len() == items@.len());
            assert(q@ =~= query@ + raw_clause_part(texts_of(items@), fmts.lb@));
        }
        q
    }

    /// Renders the RETURNING clause.
    fn concat_returning(
        &self,
        items_raw_before: &Vec<(Clause, String)>,
        items_raw_after: &Vec<(Clause, String)>,
        query: String,
        fmts: &Format,
        clause: Clause,
        items: &Vec<String>,
    ) -> (r: String)
        ensures
            r@ == query@ + list_clause_part(
                items_raw_before@,
                items_raw_after@,
                clause,
                colored_kw("RETURNING "@, fmts.colorize),
                texts_of(items@),
                fmts.comma@,
                fmts.lb@,
            ),
    {
        concat_list_clause(
            items_raw_before,
            items_raw_after,
            query,
            fmts,
            clause,
            "RETURNING ",
            items,
            fmts.comma.as_str(),
        )
    }

    /// Renders the VALUES clause.
    fn concat_values(
        &self,
        items_raw_before: &Vec<(Clause, String)>,
        items_raw_after: &Vec<(Clause, String)>,
        query: String,
        fmts: &Format,
        clause: Clause,
        items: &Vec<String>,
    ) -> (r: String)
        ensures
            r@ == query@ + values_clause_part(
                items_raw_before@,
                items_raw_after@,
                clause,
                colored_kw("VALUES "@, fmts.colorize),
                texts_of(items@),
                fmts.comma@,
                fmts.lb@,
            ),
    {
        let mut q = concat_raw_before(items_raw_before, query, fmts, &clause);
        if items.len() > 0 {
            let mut sep = fmts.comma.clone();
            sep.append(fmts.lb.as_str());
            let joined = join_list(items, sep.as_str());
            let tok = fmts.write_blue("VALUES ");
            q.append(tok.as_str());
            q.append(fmts.lb.as_str());
            q.append(joined.as_str());
            q.append(" ");
            q.append(fmts.lb.as_str());
        }
        let out = concat_raw_after(items_raw_after, q, fmts, &clause);
        proof {
            reveal_strlit("VALUES ");
            assert(texts_of(items@).len() == items@.len());
            assert(out@ =~= query@ + values_clause_part(
                items_raw_before@,
                items_raw_after@,
                clause,
                colored_kw("VALUES "@, fmts.colorize),
                texts_of(items@),
                fmts.comma@,
                fmts.lb@,
            ));
        }
        out
    }

    /// Renders the WITH clause: each named sub-query rendered one indent
    /// level deeper, entries joined by comma plus line break.
    fn concat_with(
        &self,
        items_raw_before: &Vec<(Clause, String)>,
        items_raw_after: &Vec<(Clause, String)>,
        query: String,
        fmts: &Format,
        clause: Clause,
        items: &Vec<(String, SelectBuilder)>,
    ) -> (r: String)
        ensures
            r@ == query@ + with_part_generic(
                items_raw_before@,
                items_raw_after@,
                clause,
                items@,
                fmts.comma@,
                fmts.lb@,
                fmts.indent@,
                fmts.colorize,
            ),
    {
        let mut q = concat_raw_before(items_raw_before, query, fmts, &clause);
        if items.len() > 0 {
            let body = crate::select::render_with_entries(items, fmts);
            let tok = fmts.write_blue("WITH ");
            q.append(tok.as_str());
            q.append(body.as_str());
            q.append(" ");
            q.append(fmts.lb.as_str());
        }
        let out = concat_raw_after(items_raw_after, q, fmts, &clause);
        proof {
            reveal_strlit("WITH ");
            assert(out@ =~= query@ + with_part_generic(
                items_raw_before@,
                items_raw_after@,
                clause,
                items@,
                fmts.comma@,
                fmts.lb@,
                fmts.indent@,
                fmts.colorize,
            ));
        }
        out
    }

    /// Renders the WHERE clause, its conditions joined conjunctively.
    fn concat_where(
        &self,
        items_raw_before: &Vec<(Clause, String)>,
        items_raw_after: &Vec<(Clause, String)>,
        query: String,
        fmts: &Format,
        clause: Clause,
        items: &Vec<String>,
    ) -> (r: String)
        ensures
            r@ == query@ + list_clause_part(
                items_raw_before@,
                items_raw_after@,
                clause,
                colored_kw("WHERE "@, fmts.colorize),
                texts_of(items@),
                " AND "@,
                fmts.lb@,
            ),
    {
        concat_list_clause(
            items_raw_before,
            items_raw_after,
            query,
            fmts,
            clause,
            "WHERE ",
            items,
            " AND ",
        )
    }
}

} // verus!
