//! The SELECT statement builder: accumulates columns, sources, conditions,
//! sub-queries and raw fragments, and renders them in the fixed clause order
//! WITH, SELECT, FROM, JOIN, WHERE, GROUP BY, HAVING, ORDER BY, LIMIT,
//! OFFSET, then the set combinators EXCEPT, INTERSECT and UNION.

use vstd::prelude::*;
use vstd::string::StringExecFns;

use crate::behavior::ClauseTag;
use crate::behavior::Concat;
use crate::behavior::colored_kw;
use crate::behavior::WithQuery;
use crate::behavior::concat_list_clause;
use crate::behavior::concat_raw_after;
use crate::behavior::concat_raw_before;
use crate::behavior::concat_scalar_clause;
use crate::behavior::list_clause_part;
use crate::behavior::push_unique;
use crate::behavior::push_unique_spec;
use crate::behavior::raw_clause_part;
use crate::behavior::raw_group;
use crate::behavior::raw_queries;
use crate::behavior::raw_texts;
use crate::behavior::scalar_clause_part;
use crate::fmt::Format;
use crate::fmt::join_list;
use crate::fmt::one_line;
use crate::text::join_with;
use crate::text::texts_of;
use crate::text::trim_end_spec;
use crate::text::trim_end_str;
use crate::text::trim_spec;
use crate::text::trimmed;

verus! {

/// The renderable clauses of a SELECT statement, used to position raw
/// fragments.
#[derive(Clone, Copy, PartialEq, Eq, Structural)]
pub enum SelectClause {
    Except,
    From,
    GroupBy,
    Having,
    Intersect,
    Join,
    Limit,
    Offset,
    OrderBy,
    Select,
    Union,
    Where,
    With,
}

impl ClauseTag for SelectClause {
    fn tag_eq(&self, other: &Self) -> (r: bool)
        ensures
            r == (*self == *other),
    {
        *self == *other
    }
}

/// A set-operation clause combining the statement with further sub-queries.
#[derive(Clone, Copy, PartialEq, Eq, Structural)]
pub enum Combinator {
    Except,
    Intersect,
    Union,
}

/// The full SELECT statement text for the builder state under the given
/// formatting tokens: the unassociated raw fragments, then each clause in
/// the fixed pipeline order, then the set combinators, with trailing
/// whitespace stripped once at the end.
pub open spec fn select_concat_spec(
    b: SelectBuilder,
    comma: Seq<char>,
    lb: Seq<char>,
    indent: Seq<char>,
    colorize: bool,
) -> Seq<char>
    decreases b, 3int,
{
    let core = raw_clause_part(texts_of(b._raw@), lb) + with_clause_part(
        b,
        comma,
        lb,
        indent,
        colorize,
    )
        + list_clause_part(
        b._raw_before@,
        b._raw_after@,
        SelectClause::Select,
        colored_kw("SELECT "@, colorize),
        texts_of(b._select@),
        comma,
        lb,
    ) + list_clause_part(
        b._raw_before@,
        b._raw_after@,
        SelectClause::From,
        colored_kw("FROM "@, colorize),
        texts_of(b._from@),
        comma,
        lb,
    ) + list_clause_part(
        b._raw_before@,
        b._raw_after@,
        SelectClause::Join,
        colored_kw(""@, colorize),
        texts_of(b._join@),
        " "@ + lb,
        lb,
    ) + list_clause_part(
        b._raw_before@,
        b._raw_after@,
        SelectClause::Where,
        colored_kw("WHERE "@, colorize),
        texts_of(b._where@),
        " AND "@,
        lb,
    ) + list_clause_part(
        b._raw_before@,
        b._raw_after@,
        SelectClause::GroupBy,
        colored_kw("GROUP BY "@, colorize),
        texts_of(b._group_by@),
        comma,
        lb,
    ) + list_clause_part(
        b._raw_before@,
        b._raw_after@,
        SelectClause::Having,
        colored_kw("HAVING "@, colorize),
        texts_of(b._having@),
        " AND "@,
        lb,
    ) + list_clause_part(
        b._raw_before@,
        b._raw_after@,
        SelectClause::OrderBy,
        colored_kw("ORDER BY "@, colorize),
        texts_of(b._order_by@),
        comma,
        lb,
    ) + scalar_clause_part(
        b._raw_before@,
        b._raw_after@,
        SelectClause::Limit,
        colored_kw("LIMIT "@, colorize),
        b._limit@,
        lb,
    ) + scalar_clause_part(
        b._raw_before@,
        b._raw_after@,
        SelectClause::Offset,
        colored_kw("OFFSET "@, colorize),
        b._offset@,
        lb,
    );
    let q1 = apply_combinator(core, b, Combinator::Except, comma, lb, indent, colorize);
    let q2 = apply_combinator(q1, b, Combinator::Intersect, comma, lb, indent, colorize);
    let q3 = apply_combinator(q2, b, Combinator::Union, comma, lb, indent, colorize);
    trim_end_spec(q3)
}

/// What the WITH clause contributes: each named sub-query rendered one
/// indent level deeper, entries joined by comma plus line break.
pub open spec fn with_clause_part(
    b: SelectBuilder,
    comma: Seq<char>,
    lb: Seq<char>,
    indent: Seq<char>,
    colorize: bool,
) -> Seq<char>
    decreases b, 2int,
{
    raw_group(b._raw_before@, SelectClause::With) + (if b._with@.len() == 0 {
        Seq::empty()
    } else {
        colored_kw("WITH "@, colorize) + with_entries(b._with@, comma, lb, indent, colorize)
            + " "@ + lb
    }) + raw_group(b._raw_after@, SelectClause::With)
}

/// The WITH entries joined by comma plus line break, each as
/// `name AS (<line-break><indent><body><line-break>)` with the body rendered
/// under the inner line break. No separator follows the final entry.
pub open spec fn with_entries(
    entries: Seq<(String, SelectBuilder)>,
    comma: Seq<char>,
    lb: Seq<char>,
    indent: Seq<char>,
    colorize: bool,
) -> Seq<char>
    decreases entries, 1int,
    via with_entries_dec
{
    if entries.len() == 0 {
        Seq::empty()
    } else {
        let e = entries.last();
        let rendered = e.0@ + " AS ("@ + lb + indent + select_concat_spec(
            e.1,
            comma,
            lb + indent,
            indent,
            colorize,
        ) + lb + ")"@;
        if entries.len() == 1 {
            rendered
        } else {
            with_entries(entries.drop_last(), comma, lb, indent, colorize) + comma + lb + rendered
        }
    }
}

#[via_fn]
proof fn with_entries_dec(
    entries: Seq<(String, SelectBuilder)>,
    comma: Seq<char>,
    lb: Seq<char>,
    indent: Seq<char>,
    colorize: bool,
) {
    if entries.len() > 0 {
        assert(decreases_to!(entries => entries[entries.len() - 1]));
        assert(decreases_to!(entries[entries.len() - 1] => entries[entries.len() - 1].1));
    }
}

/// What a WITH clause contributes for any statement kind: the raw groups of
/// the clause around the keyword and the joined named sub-queries.
pub open spec fn with_part_generic<C>(
    before: Seq<(C, String)>,
    after: Seq<(C, String)>,
    clause: C,
    entries: Seq<(String, SelectBuilder)>,
    comma: Seq<char>,
    lb: Seq<char>,
    indent: Seq<char>,
    colorize: bool,
) -> Seq<char> {
    raw_group(before, clause) + (if entries.len() == 0 {
        Seq::empty()
    } else {
        colored_kw("WITH "@, colorize) + with_entries(entries, comma, lb, indent, colorize)
            + " "@ + lb
    }) + raw_group(after, clause)
}

/// Renders the WITH entries joined by comma plus line break, each sub-query
/// one indent level deeper.
#[verifier::rlimit(80)]
pub(crate) fn render_with_entries(items: &Vec<(String, SelectBuilder)>, fmts: &Format) -> (r:
    String)
    ensures
        r@ == with_entries(items@, fmts.comma@, fmts.lb@, fmts.indent@, fmts.colorize),
    decreases items@, 0int,
{
    let mut inner_lb = fmts.lb.clone();
    inner_lb.append(fmts.indent.as_str());
    let inner = Format {
        comma: fmts.comma.clone(),
        hr: fmts.hr.clone(),
        indent: fmts.indent.clone(),
        lb: inner_lb,
        colorize: fmts.colorize,
    };
    let mut body = String::new();
    let mut i: usize = 0;
    while i < items.len()
        invariant
            i <= items@.len(),
            inner.comma@ == fmts.comma@,
            inner.lb@ == fmts.lb@ + fmts.indent@,
            inner.indent@ == fmts.indent@,
            inner.colorize == fmts.colorize,
            body@ == with_entries(
                items@.take(i as int),
                fmts.comma@,
                fmts.lb@,
                fmts.indent@,
                fmts.colorize,
            ),
        decreases items@.len() - i,
    {
        let ghost pre = body@;
        if i > 0 {
            let sep = fmts.comma.clone();
            body.append(sep.as_str());
            body.append(fmts.lb.as_str());
        }
        body.append(items[i].0.as_str());
        body.append(" AS (");
        body.append(fmts.lb.as_str());
        body.append(fmts.indent.as_str());
        proof {
            assert(decreases_to!(items@ => items@[i as int]));
            assert(decreases_to!(items@[i as int] => items@[i as int].1));
        }
        let sub = items[i].1.concat(&inner);
        body.append(sub.as_str());
        body.append(fmts.lb.as_str());
        body.append(")");
        proof {
            let t = items@.take(i + 1);
            assert(t.drop_last() =~= items@.take(i as int));
            assert(t.last() == items@[i as int]);
            let e = items@[i as int];
            let rendered = e.0@ + " AS ("@ + fmts.lb@ + fmts.indent@ + select_concat_spec(
                e.1,
                fmts.comma@,
                fmts.lb@ + fmts.indent@,
                fmts.indent@,
                fmts.colorize,
            ) + fmts.lb@ + ")"@;
            if i == 0 {
                assert(body@ =~= rendered);
            } else {
                assert(body@ =~= pre + fmts.comma@ + fmts.lb@ + rendered);
            }
            assert(body@ == with_entries(t, fmts.comma@, fmts.lb@, fmts.indent@, fmts.colorize));
        }
        i = i + 1;
    }
    proof {
        assert(items@.take(items@.len() as int) =~= items@);
    }
    body
}

/// What one set combinator contributes: nothing but its raw fragments when
/// no sub-query is attached; otherwise the statement so far, trailing
/// whitespace stripped, wrapped in parentheses together with the raw-before
/// fragments, followed by each sub-query as `KEYWORD (<line-break><body>) `
/// plus a line break, then the raw-after group.
/// The clause identity a combinator's raw fragments are tagged with.
pub open spec fn comb_clause(comb: Combinator) -> SelectClause {
    match comb {
        Combinator::Except => SelectClause::Except,
        Combinator::Intersect => SelectClause::Intersect,
        Combinator::Union => SelectClause::Union,
    }
}

/// The keyword a combinator renders with.
pub open spec fn comb_name(comb: Combinator) -> Seq<char> {
    match comb {
        Combinator::Except => "EXCEPT"@,
        Combinator::Intersect => "INTERSECT"@,
        Combinator::Union => "UNION"@,
    }
}

/// The sub-queries attached under a combinator, in call order.
pub open spec fn comb_list(b: SelectBuilder, comb: Combinator) -> Seq<SelectBuilder> {
    match comb {
        Combinator::Except => b._except@,
        Combinator::Intersect => b._intersect@,
        Combinator::Union => b._union@,
    }
}

pub open spec fn apply_combinator(
    q: Seq<char>,
    b: SelectBuilder,
    comb: Combinator,
    comma: Seq<char>,
    lb: Seq<char>,
    indent: Seq<char>,
    colorize: bool,
) -> Seq<char>
    decreases b, 2int,
    via apply_combinator_dec
{
    let clause = comb_clause(comb);
    let name = comb_name(comb);
    let list = comb_list(b, comb);
    if list.len() == 0 {
        q + raw_group(b._raw_before@, clause) + raw_group(b._raw_after@, clause)
    } else {
        "("@ + trim_end_spec(q) + join_with(raw_texts(b._raw_before@, clause), " "@) + ") "@
            + comb_entries(list, name, comma, lb, indent, colorize) + raw_group(
            b._raw_after@,
            clause,
        )
    }
}

#[via_fn]
proof fn apply_combinator_dec(
    q: Seq<char>,
    b: SelectBuilder,
    comb: Combinator,
    comma: Seq<char>,
    lb: Seq<char>,
    indent: Seq<char>,
    colorize: bool,
) {
    assert(decreases_to!(b => b._except));
    assert(decreases_to!(b._except => b._except@));
    assert(decreases_to!(b => b._intersect));
    assert(decreases_to!(b._intersect => b._intersect@));
    assert(decreases_to!(b => b._union));
    assert(decreases_to!(b._union => b._union@));
}

/// The combinator's sub-queries in call order, each rendered in full and
/// wrapped as `KEYWORD (<line-break><body>) <line-break>`.
pub open spec fn comb_entries(
    list: Seq<SelectBuilder>,
    name: Seq<char>,
    comma: Seq<char>,
    lb: Seq<char>,
    indent: Seq<char>,
    colorize: bool,
) -> Seq<char>
    decreases list, 1int,
    via comb_entries_dec
{
    if list.len() == 0 {
        Seq::empty()
    } else {
        comb_entries(list.drop_last(), name, comma, lb, indent, colorize) + name + " ("@ + lb
            + select_concat_spec(list.last(), comma, lb, indent, colorize) + ") "@ + lb
    }
}

#[via_fn]
proof fn comb_entries_dec(
    list: Seq<SelectBuilder>,
    name: Seq<char>,
    comma: Seq<char>,
    lb: Seq<char>,
    indent: Seq<char>,
    colorize: bool,
) {
    if list.len() > 0 {
        assert(decreases_to!(list => list[list.len() - 1]));
    }
}

/// Builder of SELECT statement text.
pub struct SelectBuilder {
    pub _except: Vec<SelectBuilder>,
    pub _from: Vec<String>,
    pub _group_by: Vec<String>,
    pub _having: Vec<String>,
    pub _intersect: Vec<SelectBuilder>,
    pub _join: Vec<String>,
    pub _limit: String,
    pub _offset: String,
    pub _order_by: Vec<String>,
    pub _raw: Vec<String>,
    pub _raw_after: Vec<(SelectClause, String)>,
    pub _raw_before: Vec<(SelectClause, String)>,
    pub _select: Vec<String>,
    pub _union: Vec<SelectBuilder>,
    pub _where: Vec<String>,
    pub _with: Vec<(String, SelectBuilder)>,
}

impl SelectBuilder {
    /// All accumulators empty: the state in which nothing renders.
    pub open spec fn is_initial(self) -> bool {
        &&& self._except@.len() == 0
        &&& self._from@.len() == 0
        &&& self._group_by@.len() == 0
        &&& self._having@.len() == 0
        &&& self._intersect@.len() == 0
        &&& self._join@.len() == 0
        &&& self._limit@.len() == 0
        &&& self._offset@.len() == 0
        &&& self._order_by@.len() == 0
        &&& self._raw@.len() == 0
        &&& self._raw_after@.len() == 0
        &&& self._raw_before@.len() == 0
        &&& self._select@.len() == 0
        &&& self._union@.len() == 0
        &&& self._where@.len() == 0
        &&& self._with@.len() == 0
    }

    /// A builder with every accumulator empty.
    pub fn new() -> (r: Self)
        ensures
            r.is_initial(),
    {
        SelectBuilder {
            _except: Vec::new(),
            _from: Vec::new(),
            _group_by: Vec::new(),
            _having: Vec::new(),
            _intersect: Vec::new(),
            _join: Vec::new(),
            _limit: String::new(),
            _offset: String::new(),
            _order_by: Vec::new(),
            _raw: Vec::new(),
            _raw_after: Vec::new(),
            _raw_before: Vec::new(),
            _select: Vec::new(),
            _union: Vec::new(),
            _where: Vec::new(),
            _with: Vec::new(),
        }
    }

    /// Accumulates a WHERE condition; a synonym of `where_clause`.
    pub fn and(self, clause: &str) -> (r: Self)
        ensures
            r == (SelectBuilder { _where: r._where, ..self }),
            texts_of(r._where@) == push_unique_spec(texts_of(self._where@), trim_spec(clause@)),
    {
        self.where_clause(clause)
    }

    /// Attaches a sub-query combined with EXCEPT.
    pub fn except(self, select: Self) -> (r: Self)
        ensures
            r == (SelectBuilder { _except: r._except, ..self }),
            r._except@ == self._except@.push(select),
    {
        let mut s = self;
        s._except.push(select);
        s
    }

    /// Accumulates a FROM source.
    pub fn from(self, tables: &str) -> (r: Self)
        ensures
            r == (SelectBuilder { _from: r._from, ..self }),
            texts_of(r._from@) == texts_of(self._from@).push(trim_spec(tables@)),
    {
        let mut s = self;
        let t = trimmed(tables);
        s._from.push(t);
        proof {
            assert(texts_of(s._from@) =~= texts_of(self._from@).push(trim_spec(tables@)));
        }
        s
    }

    /// Accumulates a GROUP BY column.
    pub fn group_by(self, column: &str) -> (r: Self)
        ensures
            r == (SelectBuilder { _group_by: r._group_by, ..self }),
            texts_of(r._group_by@) == texts_of(self._group_by@).push(trim_spec(column@)),
    {
        let mut s = self;
        let t = trimmed(column);
        s._group_by.push(t);
        proof {
            assert(texts_of(s._group_by@) =~= texts_of(self._group_by@).push(trim_spec(column@)));
        }
        s
    }

    /// Accumulates a HAVING condition.
    pub fn having(self, condition: &str) -> (r: Self)
        ensures
            r == (SelectBuilder { _having: r._having, ..self }),
            texts_of(r._having@) == texts_of(self._having@).push(trim_spec(condition@)),
    {
        let mut s = self;
        let t = trimmed(condition);
        s._having.push(t);
        proof {
            assert(texts_of(s._having@) =~= texts_of(self._having@).push(trim_spec(condition@)));
        }
        s
    }

    /// Accumulates a CROSS JOIN fragment.
    pub fn cross_join(self, table: &str) -> (r: Self)
        ensures
            r == (SelectBuilder { _join: r._join, ..self }),
            texts_of(r._join@) == texts_of(self._join@).push("CROSS JOIN "@ + trim_spec(table@)),
    {
        let mut s = self;
        let mut frag = "CROSS JOIN ".to_owned();
        let t = trimmed(table);
        frag.append(t.as_str());
        s._join.push(frag);
        proof {
            assert(texts_of(s._join@) =~= texts_of(self._join@).push(
                "CROSS JOIN "@ + trim_spec(table@),
            ));
        }
        s
    }

    /// Accumulates an INNER JOIN fragment.
    pub fn inner_join(self, condition: &str) -> (r: Self)
        ensures
            r == (SelectBuilder { _join: r._join, ..self }),
            texts_of(r._join@) == texts_of(self._join@).push(
                "INNER JOIN "@ + trim_spec(condition@),
            ),
    {
        let mut s = self;
        let mut frag = "INNER JOIN ".to_owned();
        let t = trimmed(condition);
        frag.append(t.as_str());
        s._join.push(frag);
        proof {
            assert(texts_of(s._join@) =~= texts_of(self._join@).push(
                "INNER JOIN "@ + trim_spec(condition@),
            ));
        }
        s
    }

    /// Accumulates a LEFT JOIN fragment.
    pub fn left_join(self, condition: &str) -> (r: Self)
        ensures
            r == (SelectBuilder { _join: r._join, ..self }),
            texts_of(r._join@) == texts_of(self._join@).push("LEFT JOIN "@ + trim_spec(condition@)),
    {
        let mut s = self;
        let mut frag = "LEFT JOIN ".to_owned();
        let t = trimmed(condition);
        frag.append(t.as_str());
        s._join.push(frag);
        proof {
            assert(texts_of(s._join@) =~= texts_of(self._join@).push(
                "LEFT JOIN "@ + trim_spec(condition@),
            ));
        }
        s
    }

    /// Accumulates a RIGHT JOIN fragment.
    pub fn right_join(self, condition: &str) -> (r: Self)
        ensures
            r == (SelectBuilder { _join: r._join, ..self }),
            texts_of(r._join@) == texts_of(self._join@).push(
                "RIGHT JOIN "@ + trim_spec(condition@),
            ),
    {
        let mut s = self;
        let mut frag = "RIGHT JOIN ".to_owned();
        let t = trimmed(condition);
        frag.append(t.as_str());
        s._join.push(frag);
        proof {
            assert(texts_of(s._join@) =~= texts_of(self._join@).push(
                "RIGHT JOIN "@ + trim_spec(condition@),
            ));
        }
        s
    }

    /// Attaches a sub-query combined with INTERSECT.
    pub fn intersect(self, select: Self) -> (r: Self)
        ensures
            r == (SelectBuilder { _intersect: r._intersect, ..self }),
            r._intersect@ == self._intersect@.push(select),
    {
        let mut s = self;
        s._intersect.push(select);
        s
    }

    /// Sets the LIMIT count, replacing any previous value.
    pub fn limit(self, num: &str) -> (r: Self)
        ensures
            r == (SelectBuilder { _limit: r._limit, ..self }),
            r._limit@ == trim_spec(num@),
    {
        let mut s = self;
        s._limit = trimmed(num);
        s
    }

    /// Sets the OFFSET count, replacing any previous value.
    pub fn offset(self, num: &str) -> (r: Self)
        ensures
            r == (SelectBuilder { _offset: r._offset, ..self }),
            r._offset@ == trim_spec(num@),
    {
        let mut s = self;
        s._offset = trimmed(num);
        s
    }

    /// Accumulates an ORDER BY column.
    pub fn order_by(self, column: &str) -> (r: Self)
        ensures
            r == (SelectBuilder { _order_by: r._order_by, ..self }),
            texts_of(r._order_by@) == texts_of(self._order_by@).push(trim_spec(column@)),
    {
        let mut s = self;
        let t = trimmed(column);
        s._order_by.push(t);
        proof {
            assert(texts_of(s._order_by@) =~= texts_of(self._order_by@).push(trim_spec(column@)));
        }
        s
    }

    /// Adds an unassociated raw fragment, deduplicated by exact text.
    pub fn raw(self, raw_sql: &str) -> (r: Self)
        ensures
            r == (SelectBuilder { _raw: r._raw, ..self }),
            texts_of(r._raw@) == push_unique_spec(texts_of(self._raw@), trim_spec(raw_sql@)),
    {
        let mut s = self;
        let t = trimmed(raw_sql);
        push_unique(&mut s._raw, t);
        s
    }

    /// Adds a raw fragment rendered after the given clause; duplicates are
    /// kept.
    pub fn raw_after(self, clause: SelectClause, raw_sql: &str) -> (r: Self)
        ensures
            r == (SelectBuilder { _raw_after: r._raw_after, ..self }),
            r._raw_after@.len() == self._raw_after@.len() + 1,
            r._raw_after@.drop_last() == self._raw_after@,
            r._raw_after@.last().0 == clause,
            r._raw_after@.last().1@ == trim_spec(raw_sql@),
    {
        let mut s = self;
        let t = trimmed(raw_sql);
        s._raw_after.push((clause, t));
        proof {
            assert(s._raw_after@.drop_last() =~= self._raw_after@);
        }
        s
    }

    /// Adds a raw fragment rendered before the given clause; duplicates are
    /// kept.
    pub fn raw_before(self, clause: SelectClause, raw_sql: &str) -> (r: Self)
        ensures
            r == (SelectBuilder { _raw_before: r._raw_before, ..self }),
            r._raw_before@.len() == self._raw_before@.len() + 1,
            r._raw_before@.drop_last() == self._raw_before@,
            r._raw_before@.last().0 == clause,
            r._raw_before@.last().1@ == trim_spec(raw_sql@),
    {
        let mut s = self;
        let t = trimmed(raw_sql);
        s._raw_before.push((clause, t));
        proof {
            assert(s._raw_before@.drop_last() =~= self._raw_before@);
        }
        s
    }

    /// Accumulates a selected column.
    pub fn select(self, column: &str) -> (r: Self)
        ensures
            r == (SelectBuilder { _select: r._select, ..self }),
            texts_of(r._select@) == texts_of(self._select@).push(trim_spec(column@)),
    {
        let mut s = self;
        let t = trimmed(column);
        s._select.push(t);
        proof {
            assert(texts_of(s._select@) =~= texts_of(self._select@).push(trim_spec(column@)));
        }
        s
    }

    /// Attaches a sub-query combined with UNION.
    pub fn union(self, select: Self) -> (r: Self)
        ensures
            r == (SelectBuilder { _union: r._union, ..self }),
            r._union@ == self._union@.push(select),
    {
        let mut s = self;
        s._union.push(select);
        s
    }

    /// Accumulates a WHERE condition, deduplicated by exact text so that
    /// repeating an identical condition is idempotent.
    pub fn where_clause(self, condition: &str) -> (r: Self)
        ensures
            r == (SelectBuilder { _where: r._where, ..self }),
            texts_of(r._where@) == push_unique_spec(texts_of(self._where@), trim_spec(condition@)),
    {
        let mut s = self;
        let t = trimmed(condition);
        push_unique(&mut s._where, t);
        s
    }

    /// Attaches a named sub-query to the WITH clause.
    pub fn with(self, name: &str, select: Self) -> (r: Self)
        ensures
            r == (SelectBuilder { _with: r._with, ..self }),
            r._with@.len() == self._with@.len() + 1,
            r._with@.drop_last() == self._with@,
            r._with@.last().0@ == trim_spec(name@),
            r._with@.last().1 == select,
    {
        let mut s = self;
        let t = trimmed(name);
        s._with.push((t, select));
        proof {
            assert(s._with@.drop_last() =~= self._with@);
        }
        s
    }

    /// The compact single-line rendering of the current builder state.
    pub fn as_string(&self) -> (r: String)
        ensures
            r@ == select_concat_spec(*self, ", "@, ""@, ""@, false),
    {
        let fmts = one_line();
        self.concat(&fmts)
    }

    /// Renders the full statement under the given formatting policy.
    pub fn concat(&self, fmts: &Format) -> (r: String)
        ensures
            r@ == select_concat_spec(*self, fmts.comma@, fmts.lb@, fmts.indent@, fmts.colorize),
        decreases *self, 1int,
    {
        let q = String::new();
        let q = self.concat_raw(q, fmts);
        let q = self.concat_with(q, fmts);
        let q = self.concat_select(q, fmts);
        let q = self.concat_from(q, fmts);
        let q = self.concat_join(q, fmts);
        let q = self.concat_where(q, fmts);
        let q = self.concat_group_by(q, fmts);
        let q = self.concat_having(q, fmts);
        let q = self.concat_order_by(q, fmts);
        let q = self.concat_limit(q, fmts);
        let q = self.concat_offset(q, fmts);
        proof {
            assert(q@ =~= raw_clause_part(texts_of(self._raw@), fmts.lb@) + with_clause_part(
                *self,
                fmts.comma@,
                fmts.lb@,
                fmts.indent@,
                fmts.colorize,
            ) + list_clause_part(
                self._raw_before@,
                self._raw_after@,
                SelectClause::Select,
                colored_kw("SELECT "@, fmts.colorize),
                texts_of(self._select@),
                fmts.comma@,
                fmts.lb@,
            ) + list_clause_part(
                self._raw_before@,
                self._raw_after@,
                SelectClause::From,
                colored_kw("FROM "@, fmts.colorize),
                texts_of(self._from@),
                fmts.comma@,
                fmts.lb@,
            ) + list_clause_part(
                self._raw_before@,
                self._raw_after@,
                SelectClause::Join,
                colored_kw(""@, fmts.colorize),
                texts_of(self._join@),
                " "@ + fmts.lb@,
                fmts.lb@,
            ) + list_clause_part(
                self._raw_before@,
                self._raw_after@,
                SelectClause::Where,
                colored_kw("WHERE "@, fmts.colorize),
                texts_of(self._where@),
                " AND "@,
                fmts.lb@,
            ) + list_clause_part(
                self._raw_before@,
                self._raw_after@,
                SelectClause::GroupBy,
                colored_kw("GROUP BY "@, fmts.colorize),
                texts_of(self._group_by@),
                fmts.comma@,
                fmts.lb@,
            ) + list_clause_part(
                self._raw_before@,
                self._raw_after@,
                SelectClause::Having,
                colored_kw("HAVING "@, fmts.colorize),
                texts_of(self._having@),
                " AND "@,
                fmts.lb@,
            ) + list_clause_part(
                self._raw_before@,
                self._raw_after@,
                SelectClause::OrderBy,
                colored_kw("ORDER BY "@, fmts.colorize),
                texts_of(self._order_by@),
                fmts.comma@,
                fmts.lb@,
            ) + scalar_clause_part(
                self._raw_before@,
                self._raw_after@,
                SelectClause::Limit,
                colored_kw("LIMIT "@, fmts.colorize),
                self._limit@,
                fmts.lb@,
            ) + scalar_clause_part(
                self._raw_before@,
                self._raw_after@,
                SelectClause::Offset,
                colored_kw("OFFSET "@, fmts.colorize),
                self._offset@,
                fmts.lb@,
            ));
        }
        let q = self.concat_combinator(q, fmts, Combinator::Except);
        let q = self.concat_combinator(q, fmts, Combinator::Intersect);
        let q = self.concat_combinator(q, fmts, Combinator::Union);
        trim_end_str(q.as_str())
    }

    fn concat_raw(&self, query: String, fmts: &Format) -> (r: String)
        ensures
            r@ == query@ + raw_clause_part(texts_of(self._raw@), fmts.lb@),
    {
        let mut q = query;
        if self._raw.len() > 0 {
            let joined = join_list(&self._raw, " ");
            q.append(joined.as_str());
            q.append(" ");
            q.append(fmts.lb.as_str());
        }
        proof {
            assert(texts_of(self._raw@).len() == self._raw@.len());
            assert(q@ =~= query@ + raw_clause_part(texts_of(self._raw@), fmts.lb@));
        }
        q
    }

    fn concat_select(&self, query: String, fmts: &Format) -> (r: String)
        ensures
            r@ == query@ + list_clause_part(
                self._raw_before@,
                self._raw_after@,
                SelectClause::Select,
                colored_kw("SELECT "@, fmts.colorize),
                texts_of(self._select@),
                fmts.comma@,
                fmts.lb@,
            ),
    {
        concat_list_clause(
            &self._raw_before,
            &self._raw_after,
            query,
            fmts,
            SelectClause::Select,
            "SELECT ",
            &self._select,
            fmts.comma.as_str(),
        )
    }

    fn concat_from(&self, query: String, fmts: &Format) -> (r: String)
        ensures
            r@ == query@ + list_clause_part(
                self._raw_before@,
                self._raw_after@,
                SelectClause::From,
                colored_kw("FROM "@, fmts.colorize),
                texts_of(self._from@),
                fmts.comma@,
                fmts.lb@,
            ),
    {
        concat_list_clause(
            &self._raw_before,
            &self._raw_after,
            query,
            fmts,
            SelectClause::From,
            "FROM ",
            &self._from,
            fmts.comma.as_str(),
        )
    }

    fn concat_join(&self, query: String, fmts: &Format) -> (r: String)
        ensures
            r@ == query@ + list_clause_part(
                self._raw_before@,
                self._raw_after@,
                SelectClause::Join,
                colored_kw(""@, fmts.colorize),
                texts_of(self._join@),
                " "@ + fmts.lb@,
                fmts.lb@,
            ),
    {
        let mut sep = " ".to_owned();
        sep.append(fmts.lb.as_str());
        concat_list_clause(
            &self._raw_before,
            &self._raw_after,
            query,
            fmts,
            SelectClause::Join,
            "",
            &self._join,
            sep.as_str(),
        )
    }

    fn concat_where(&self, query: String, fmts: &Format) -> (r: String)
        ensures
            r@ == query@ + list_clause_part(
                self._raw_before@,
                self._raw_after@,
                SelectClause::Where,
                colored_kw("WHERE "@, fmts.colorize),
                texts_of(self._where@),
                " AND "@,
                fmts.lb@,
            ),
    {
        concat_list_clause(
            &self._raw_before,
            &self._raw_after,
            query,
            fmts,
            SelectClause::Where,
            "WHERE ",
            &self._where,
            " AND ",
        )
    }

    fn concat_group_by(&self, query: String, fmts: &Format) -> (r: String)
        ensures
            r@ == query@ + list_clause_part(
                self._raw_before@,
                self._raw_after@,
                SelectClause::GroupBy,
                colored_kw("GROUP BY "@, fmts.colorize),
                texts_of(self._group_by@),
                fmts.comma@,
                fmts.lb@,
            ),
    {
        concat_list_clause(
            &self._raw_before,
            &self._raw_after,
            query,
            fmts,
            SelectClause::GroupBy,
            "GROUP BY ",
            &self._group_by,
            fmts.comma.as_str(),
        )
    }

    fn concat_having(&self, query: String, fmts: &Format) -> (r: String)
        ensures
            r@ == query@ + list_clause_part(
                self._raw_before@,
                self._raw_after@,
                SelectClause::Having,
                colored_kw("HAVING "@, fmts.colorize),
                texts_of(self._having@),
                " AND "@,
                fmts.lb@,
            ),
    {
        concat_list_clause(
            &self._raw_before,
            &self._raw_after,
            query,
            fmts,
            SelectClause::Having,
            "HAVING ",
            &self._having,
            " AND ",
        )
    }

    fn concat_order_by(&self, query: String, fmts: &Format) -> (r: String)
        ensures
            r@ == query@ + list_clause_part(
                self._raw_before@,
                self._raw_after@,
                SelectClause::OrderBy,
                colored_kw("ORDER BY "@, fmts.colorize),
                texts_of(self._order_by@),
                fmts.comma@,
                fmts.lb@,
            ),
    {
        concat_list_clause(
            &self._raw_before,
            &self._raw_after,
            query,
            fmts,
            SelectClause::OrderBy,
            "ORDER BY ",
            &self._order_by,
            fmts.comma.as_str(),
        )
    }

    fn concat_limit(&self, query: String, fmts: &Format) -> (r: String)
        ensures
            r@ == query@ + scalar_clause_part(
                self._raw_before@,
                self._raw_after@,
                SelectClause::Limit,
                colored_kw("LIMIT "@, fmts.colorize),
                self._limit@,
                fmts.lb@,
            ),
    {
        concat_scalar_clause(
            &self._raw_before,
            &self._raw_after,
            query,
            fmts,
            SelectClause::Limit,
            "LIMIT ",
            self._limit.as_str(),
        )
    }

    fn concat_offset(&self, query: String, fmts: &Format) -> (r: String)
        ensures
            r@ == query@ + scalar_clause_part(
                self._raw_before@,
                self._raw_after@,
                SelectClause::Offset,
                colored_kw("OFFSET "@, fmts.colorize),
                self._offset@,
                fmts.lb@,
            ),
    {
        concat_scalar_clause(
            &self._raw_before,
            &self._raw_after,
            query,
            fmts,
            SelectClause::Offset,
            "OFFSET ",
            self._offset.as_str(),
        )
    }

    #[verifier::rlimit(60)]
    fn concat_with(&self, query: String, fmts: &Format) -> (r: String)
        ensures
            r@ == query@ + with_clause_part(
                *self,
                fmts.comma@,
                fmts.lb@,
                fmts.indent@,
                fmts.colorize,
            ),
        decreases *self, 0int,
    {
        let mut q = concat_raw_before(&self._raw_before, query, fmts, &SelectClause::With);
        if self._with.len() > 0 {
            proof {
                assert(decreases_to!(*self => self._with));
                assert(decreases_to!(self._with => self._with@));
            }
            let body = render_with_entries(&self._with, fmts);
            let tok = fmts.write_blue("WITH ");
            q.append(tok.as_str());
            q.append(body.as_str());
            q.append(" ");
            q.append(fmts.lb.as_str());
            proof {
                reveal_strlit("WITH ");
                assert(tok@ == colored_kw("WITH "@, fmts.colorize));
            }
        }
        let out = concat_raw_after(&self._raw_after, q, fmts, &SelectClause::With);
        proof {
            reveal_strlit("WITH ");
            assert(out@ =~= query@ + with_clause_part(
                *self,
                fmts.comma@,
                fmts.lb@,
                fmts.indent@,
                fmts.colorize,
            ));
        }
        out
    }

    fn concat_combinator(&self, query: String, fmts: &Format, combinator: Combinator) -> (r:
        String)
        ensures
            r@ == apply_combinator(
                query@,
                *self,
                combinator,
                fmts.comma@,
                fmts.lb@,
                fmts.indent@,
                fmts.colorize,
            ),
        decreases *self, 0int,
    {
        match combinator {
            Combinator::Except => {
                proof {
                    assert(decreases_to!(*self => self._except));
                    assert(decreases_to!(self._except => self._except@));
                }
                self.concat_comb_core(query, fmts, SelectClause::Except, "EXCEPT", &self._except)
            },
            Combinator::Intersect => {
                proof {
                    assert(decreases_to!(*self => self._intersect));
                    assert(decreases_to!(self._intersect => self._intersect@));
                }
                self.concat_comb_core(
                    query,
                    fmts,
                    SelectClause::Intersect,
                    "INTERSECT",
                    &self._intersect,
                )
            },
            Combinator::Union => {
                proof {
                    assert(decreases_to!(*self => self._union));
                    assert(decreases_to!(self._union => self._union@));
                }
                self.concat_comb_core(query, fmts, SelectClause::Union, "UNION", &self._union)
            },
        }
    }

    fn concat_comb_core(
        &self,
        query: String,
        fmts: &Format,
        clause: SelectClause,
        name: &str,
        list: &Vec<SelectBuilder>,
    ) -> (r: String)
        ensures
            r@ == if list@.len() == 0 {
                query@ + raw_group(self._raw_before@, clause) + raw_group(self._raw_after@, clause)
            } else {
                "("@ + trim_end_spec(query@) + join_with(
                    raw_texts(self._raw_before@, clause),
                    " "@,
                ) + ") "@ + comb_entries(
                    list@,
                    name@,
                    fmts.comma@,
                    fmts.lb@,
                    fmts.indent@,
                    fmts.colorize,
                ) + raw_group(self._raw_after@, clause)
            },
        decreases list@, 0int,
    {
        if list.len() == 0 {
            let q = concat_raw_before(&self._raw_before, query, fmts, &clause);
            let q2 = concat_raw_after(&self._raw_after, q, fmts, &clause);
            proof {
                assert(q2@ =~= query@ + raw_group(self._raw_before@, clause) + raw_group(
                    self._raw_after@,
                    clause,
                ));
            }
            return q2;
        }
        let raw_before_v = raw_queries(&self._raw_before, &clause);
        let raw_after_v = raw_queries(&self._raw_after, &clause);
        let mut out = "(".to_owned();
        let tq = trim_end_str(query.as_str());
        out.append(tq.as_str());
        let rbj = join_list(&raw_before_v, " ");
        out.append(rbj.as_str());
        out.append(") ");
        let ghost prefix = "("@ + trim_end_spec(query@) + join_with(
            raw_texts(self._raw_before@, clause),
            " "@,
        ) + ") "@;
        proof {
            assert(out@ =~= prefix);
            assert(list@.take(0) =~= Seq::<SelectBuilder>::empty());
        }
        let mut i: usize = 0;
        while i < list.len()
            invariant
                i <= list@.len(),
                out@ == prefix + comb_entries(
                    list@.take(i as int),
                    name@,
                    fmts.comma@,
                    fmts.lb@,
                    fmts.indent@,
                    fmts.colorize,
                ),
            decreases list@.len() - i,
        {
            let ghost pre = out@;
            out.append(name);
            out.append(" (");
            out.append(fmts.lb.as_str());
            proof {
                assert(decreases_to!(list@ => list@[i as int]));
            }
            let sub = list[i].concat(fmts);
            out.append(sub.as_str());
            out.append(") ");
            out.append(fmts.lb.as_str());
            proof {
                let t = list@.take(i + 1);
                assert(t.drop_last() =~= list@.take(i as int));
                assert(t.last() == list@[i as int]);
                assert(out@ =~= pre + name@ + " ("@ + fmts.lb@ + select_concat_spec(
                    list@[i as int],
                    fmts.comma@,
                    fmts.lb@,
                    fmts.indent@,
                    fmts.colorize,
                ) + ") "@ + fmts.lb@);
                assert(out@ == prefix + comb_entries(
                    t,
                    name@,
                    fmts.comma@,
                    fmts.lb@,
                    fmts.indent@,
                    fmts.colorize,
                ));
            }
            i = i + 1;
        }
        proof {
            assert(list@.take(list@.len() as int) =~= list@);
        }
        if raw_after_v.len() > 0 {
            let raj = join_list(&raw_after_v, " ");
            out.append(raj.as_str());
            out.append(" ");
        }
        proof {
            assert(texts_of(raw_after_v@).len() == raw_after_v@.len());
            assert(out@ =~= prefix + comb_entries(
                list@,
                name@,
                fmts.comma@,
                fmts.lb@,
                fmts.indent@,
                fmts.colorize,
            ) + raw_group(self._raw_after@, clause));
        }
        out
    }
}

impl Concat for SelectBuilder {
    open spec fn render_spec(
        &self,
        comma: Seq<char>,
        lb: Seq<char>,
        indent: Seq<char>,
        colorize: bool,
    ) -> Seq<char> {
        select_concat_spec(*self, comma, lb, indent, colorize)
    }

    fn concat(&self, fmts: &Format) -> (r: String) {
        SelectBuilder::concat(self, fmts)
    }
}

impl WithQuery for SelectBuilder {

}

/// With no fragments set, rendering produces the empty string, under every
/// formatting policy.
pub proof fn lemma_initial_select_renders_empty(
    b: SelectBuilder,
    comma: Seq<char>,
    lb: Seq<char>,
    indent: Seq<char>,
    colorize: bool,
)
    requires
        b.is_initial(),
    ensures
        select_concat_spec(b, comma, lb, indent, colorize) == Seq::<char>::empty(),
{
    assert forall|c: SelectClause| #[trigger] raw_texts(b._raw_before@, c).len() == 0 by {
        assert(raw_texts(b._raw_before@, c) == Seq::<Seq<char>>::empty());
    }
    assert forall|c: SelectClause| #[trigger] raw_texts(b._raw_after@, c).len() == 0 by {
        assert(raw_texts(b._raw_after@, c) == Seq::<Seq<char>>::empty());
    }
    assert(texts_of(b._raw@).len() == 0);
    assert(texts_of(b._select@).len() == 0);
    assert(texts_of(b._from@).len() == 0);
    assert(texts_of(b._join@).len() == 0);
    assert(texts_of(b._where@).len() == 0);
    assert(texts_of(b._group_by@).len() == 0);
    assert(texts_of(b._having@).len() == 0);
    assert(texts_of(b._order_by@).len() == 0);
    let core = raw_clause_part(texts_of(b._raw@), lb) + with_clause_part(
        b,
        comma,
        lb,
        indent,
        colorize,
    ) + list_clause_part(
        b._raw_before@,
        b._raw_after@,
        SelectClause::Select,
        colored_kw("SELECT "@, colorize),
        texts_of(b._select@),
        comma,
        lb,
    ) + list_clause_part(
        b._raw_before@,
        b._raw_after@,
        SelectClause::From,
        colored_kw("FROM "@, colorize),
        texts_of(b._from@),
        comma,
        lb,
    ) + list_clause_part(
        b._raw_before@,
        b._raw_after@,
        SelectClause::Join,
        colored_kw(""@, colorize),
        texts_of(b._join@),
        " "@ + lb,
        lb,
    ) + list_clause_part(
        b._raw_before@,
        b._raw_after@,
        SelectClause::Where,
        colored_kw("WHERE "@, colorize),
        texts_of(b._where@),
        " AND "@,
        lb,
    ) + list_clause_part(
        b._raw_before@,
        b._raw_after@,
        SelectClause::GroupBy,
        colored_kw("GROUP BY "@, colorize),
        texts_of(b._group_by@),
        comma,
        lb,
    ) + list_clause_part(
        b._raw_before@,
        b._raw_after@,
        SelectClause::Having,
        colored_kw("HAVING "@, colorize),
        texts_of(b._having@),
        " AND "@,
        lb,
    ) + list_clause_part(
        b._raw_before@,
        b._raw_after@,
        SelectClause::OrderBy,
        colored_kw("ORDER BY "@, colorize),
        texts_of(b._order_by@),
        comma,
        lb,
    ) + scalar_clause_part(
        b._raw_before@,
        b._raw_after@,
        SelectClause::Limit,
        colored_kw("LIMIT "@, colorize),
        b._limit@,
        lb,
    ) + scalar_clause_part(
        b._raw_before@,
        b._raw_after@,
        SelectClause::Offset,
        colored_kw("OFFSET "@, colorize),
        b._offset@,
        lb,
    );
    assert(core =~= Seq::<char>::empty());
    let q1 = apply_combinator(core, b, Combinator::Except, comma, lb, indent, colorize);
    let q2 = apply_combinator(q1, b, Combinator::Intersect, comma, lb, indent, colorize);
    let q3 = apply_combinator(q2, b, Combinator::Union, comma, lb, indent, colorize);
    assert(q1 =~= Seq::<char>::empty());
    assert(q2 =~= Seq::<char>::empty());
    assert(q3 =~= Seq::<char>::empty());
    assert(select_concat_spec(b, comma, lb, indent, colorize) == trim_end_spec(q3));
}

/// A set combinator with no attached sub-query and no raw fragments of its
/// clause leaves the statement text unchanged.
pub proof fn lemma_combinator_omitted(
    q: Seq<char>,
    b: SelectBuilder,
    comb: Combinator,
    comma: Seq<char>,
    lb: Seq<char>,
    indent: Seq<char>,
    colorize: bool,
)
    requires
        comb_list(b, comb).len() == 0,
        raw_texts(b._raw_before@, comb_clause(comb)).len() == 0,
        raw_texts(b._raw_after@, comb_clause(comb)).len() == 0,
    ensures
        apply_combinator(q, b, comb, comma, lb, indent, colorize) == q,
{
    assert(apply_combinator(q, b, comb, comma, lb, indent, colorize) =~= q);
}

/// A WITH clause with no named sub-query and no raw fragments of its clause
/// contributes nothing to the output.
pub proof fn lemma_with_clause_omitted<C>(
    before: Seq<(C, String)>,
    after: Seq<(C, String)>,
    clause: C,
    entries: Seq<(String, SelectBuilder)>,
    comma: Seq<char>,
    lb: Seq<char>,
    indent: Seq<char>,
    colorize: bool,
)
    requires
        raw_texts(before, clause).len() == 0,
        raw_texts(after, clause).len() == 0,
        entries.len() == 0,
    ensures
        with_part_generic(before, after, clause, entries, comma, lb, indent, colorize) == Seq::<
            char,
        >::empty(),
{
    assert(with_part_generic(before, after, clause, entries, comma, lb, indent, colorize) =~= Seq::<
        char,
    >::empty());
}

/// Rendering the same builder state twice, with no intervening mutation,
/// yields byte-identical output.
pub proof fn lemma_select_render_stable(
    b: SelectBuilder,
    comma: Seq<char>,
    lb: Seq<char>,
    indent: Seq<char>,
    colorize: bool,
    r1: Seq<char>,
    r2: Seq<char>,
)
    requires
        r1 == select_concat_spec(b, comma, lb, indent, colorize),
        r2 == select_concat_spec(b, comma, lb, indent, colorize),
    ensures
        r1 == r2,
{
}

} // verus!
