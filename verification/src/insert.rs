//! The INSERT statement builder: accumulates the target table, the OVERRIDING
//! token, value tuples or a nested SELECT, conflict handling and raw
//! fragments, and renders them in the fixed clause order INSERT INTO,
//! OVERRIDING, VALUES, SELECT, ON CONFLICT, RETURNING.

use vstd::prelude::*;
use vstd::string::StringExecFns;

use crate::behavior::ClauseTag;
use crate::behavior::Concat;
use crate::behavior::ConcatMethods;
use crate::behavior::colored_kw;
use crate::behavior::raw_texts;
use crate::behavior::concat_raw_after;
use crate::behavior::concat_raw_before;
use crate::behavior::concat_scalar_clause;
use crate::behavior::list_clause_part;
use crate::behavior::push_unique;
use crate::behavior::push_unique_spec;
use crate::behavior::raw_clause_part;
use crate::behavior::raw_group;
use crate::behavior::scalar_clause_part;
use crate::behavior::values_clause_part;
use crate::fmt::Format;
use crate::fmt::one_line;
use crate::select::SelectBuilder;
use crate::select::select_concat_spec;
use crate::text::texts_of;
use crate::text::trim_end_spec;
use crate::text::trim_end_str;
use crate::text::trim_spec;
use crate::text::trimmed;

verus! {

/// The renderable clauses of an INSERT statement, used to position raw
/// fragments.
#[derive(Clone, Copy, PartialEq, Eq, Structural)]
pub enum InsertClause {
    InsertInto,
    OnConflict,
    Overriding,
    Returning,
    Select,
    Values,
}

impl ClauseTag for InsertClause {
    fn tag_eq(&self, other: &Self) -> (r: bool)
        ensures
            r == (*self == *other),
    {
        *self == *other
    }
}

/// Builder of INSERT statement text.
pub struct Insert {
    pub _insert_into: String,
    pub _on_conflict: String,
    pub _overriding: String,
    pub _raw: Vec<String>,
    pub _raw_after: Vec<(InsertClause, String)>,
    pub _raw_before: Vec<(InsertClause, String)>,
    pub _returning: Vec<String>,
    pub _select: Option<SelectBuilder>,
    pub _values: Vec<String>,
}

/// What the nested SELECT contributes: the sub-query rendered in full, a
/// space and a line break, between the clause's raw groups.
pub open spec fn insert_select_part(
    b: Insert,
    comma: Seq<char>,
    lb: Seq<char>,
    indent: Seq<char>,
    colorize: bool,
) -> Seq<char> {
    raw_group(b._raw_before@, InsertClause::Select) + (match b._select {
        Option::None => Seq::empty(),
        Option::Some(sub) => select_concat_spec(sub, comma, lb, indent, colorize) + " "@ + lb,
    }) + raw_group(b._raw_after@, InsertClause::Select)
}

/// The full INSERT statement text for the builder state under the given
/// formatting tokens, with trailing whitespace stripped once at the end.
/// When both value tuples and a nested SELECT are present, both render, in
/// VALUES-then-SELECT pipeline order.
pub open spec fn insert_concat_spec(
    b: Insert,
    comma: Seq<char>,
    lb: Seq<char>,
    indent: Seq<char>,
    colorize: bool,
) -> Seq<char> {
    trim_end_spec(
        raw_clause_part(texts_of(b._raw@), lb) + scalar_clause_part(
            b._raw_before@,
            b._raw_after@,
            InsertClause::InsertInto,
            colored_kw("INSERT INTO "@, colorize),
            b._insert_into@,
            lb,
        ) + scalar_clause_part(
            b._raw_before@,
            b._raw_after@,
            InsertClause::Overriding,
            colored_kw("OVERRIDING "@, colorize),
            b._overriding@,
            lb,
        ) + values_clause_part(
            b._raw_before@,
            b._raw_after@,
            InsertClause::Values,
            colored_kw("VALUES "@, colorize),
            texts_of(b._values@),
            comma,
            lb,
        ) + insert_select_part(b, comma, lb, indent, colorize) + scalar_clause_part(
            b._raw_before@,
            b._raw_after@,
            InsertClause::OnConflict,
            colored_kw("ON CONFLICT "@, colorize),
            b._on_conflict@,
            lb,
        ) + list_clause_part(
            b._raw_before@,
            b._raw_after@,
            InsertClause::Returning,
            colored_kw("RETURNING "@, colorize),
            texts_of(b._returning@),
            comma,
            lb,
        ),
    )
}

impl ConcatMethods<InsertClause> for Insert {

}

impl Insert {
    /// All accumulators empty: the state in which nothing renders.
    pub open spec fn is_initial(self) -> bool {
        &&& self._insert_into@.len() == 0
        &&& self._on_conflict@.len() == 0
        &&& self._overriding@.len() == 0
        &&& self._raw@.len() == 0
        &&& self._raw_after@.len() == 0
        &&& self._raw_before@.len() == 0
        &&& self._returning@.len() == 0
        &&& self._select is None
        &&& self._values@.len() == 0
    }

    /// A builder with every accumulator empty.
    pub fn new() -> (r: Self)
        ensures
            r.is_initial(),
    {
        Insert {
            _insert_into: String::new(),
            _on_conflict: String::new(),
            _overriding: String::new(),
            _raw: Vec::new(),
            _raw_after: Vec::new(),
            _raw_before: Vec::new(),
            _returning: Vec::new(),
            _select: None,
            _values: Vec::new(),
        }
    }

    /// Sets the target table and column list, replacing any previous value.
    pub fn insert_into(self, table_name: &str) -> (r: Self)
        ensures
            r == (Insert { _insert_into: r._insert_into, ..self }),
            r._insert_into@ == trim_spec(table_name@),
    {
        let mut s = self;
        s._insert_into = trimmed(table_name);
        s
    }

    /// Sets the ON CONFLICT token, replacing any previous value.
    pub fn on_conflict(self, conflict: &str) -> (r: Self)
        ensures
            r == (Insert { _on_conflict: r._on_conflict, ..self }),
            r._on_conflict@ == trim_spec(conflict@),
    {
        let mut s = self;
        s._on_conflict = trimmed(conflict);
        s
    }

    /// Sets the OVERRIDING token, replacing any previous value.
    pub fn overriding(self, overriding: &str) -> (r: Self)
        ensures
            r == (Insert { _overriding: r._overriding, ..self }),
            r._overriding@ == trim_spec(overriding@),
    {
        let mut s = self;
        s._overriding = trimmed(overriding);
        s
    }

    /// Adds an unassociated raw fragment, deduplicated by exact text.
    pub fn raw(self, raw_sql: &str) -> (r: Self)
        ensures
            r == (Insert { _raw: r._raw, ..self }),
            texts_of(r._raw@) == push_unique_spec(texts_of(self._raw@), trim_spec(raw_sql@)),
    {
        let mut s = self;
        let t = trimmed(raw_sql);
        push_unique(&mut s._raw, t);
        s
    }

    /// Adds a raw fragment rendered after the given clause; duplicates are
    /// kept.
    pub fn raw_after(self, clause: InsertClause, raw_sql: &str) -> (r: Self)
        ensures
            r == (Insert { _raw_after: r._raw_after, ..self }),
            r._raw_after@.len() == self._raw_after@.len() + 1,
            r._raw_after@.drop_last() == self._raw_after@,
            r._raw_after@.last().0 == clause,
            r._raw_after@.last().1@ == trim_spec(raw_sql@),
    {
        let mut s = self;
        let t = trimmed(raw_sql);
        s._raw_after.push((clause, t));
        proof {
            assert(s._raw_after@.drop_last() =~= self._raw_after@);
        }
        s
    }

    /// Adds a raw fragment rendered before the given clause; duplicates are
    /// kept.
    pub fn raw_before(self, clause: InsertClause, raw_sql: &str) -> (r: Self)
        ensures
            r == (Insert { _raw_before: r._raw_before, ..self }),
            r._raw_before@.len() == self._raw_before@.len() + 1,
            r._raw_before@.drop_last() == self._raw_before@,
            r._raw_before@.last().0 == clause,
            r._raw_before@.last().1@ == trim_spec(raw_sql@),
    {
        let mut s = self;
        let t = trimmed(raw_sql);
        s._raw_before.push((clause, t));
        proof {
            assert(s._raw_before@.drop_last() =~= self._raw_before@);
        }
        s
    }

    /// Accumulates a RETURNING column.
    pub fn returning(self, column: &str) -> (r: Self)
        ensures
            r == (Insert { _returning: r._returning, ..self }),
            texts_of(r._returning@) == texts_of(self._returning@).push(trim_spec(column@)),
    {
        let mut s = self;
        let t = trimmed(column);
        s._returning.push(t);
        proof {
            assert(texts_of(s._returning@) =~= texts_of(self._returning@).push(
                trim_spec(column@),
            ));
        }
        s
    }

    /// Attaches a nested SELECT as the source of the inserted rows,
    /// replacing any previous one.
    pub fn select(self, select: SelectBuilder) -> (r: Self)
        ensures
            r == (Insert { _select: r._select, ..self }),
            r._select == Some(select),
    {
        let mut s = self;
        s._select = Some(select);
        s
    }

    /// Accumulates one pre-formatted value tuple.
    pub fn values(self, value: &str) -> (r: Self)
        ensures
            r == (Insert { _values: r._values, ..self }),
            texts_of(r._values@) == texts_of(self._values@).push(trim_spec(value@)),
    {
        let mut s = self;
        let t = trimmed(value);
        s._values.push(t);
        proof {
            assert(texts_of(s._values@) =~= texts_of(self._values@).push(trim_spec(value@)));
        }
        s
    }

    /// The compact single-line rendering of the current builder state.
    pub fn as_string(&self) -> (r: String)
        ensures
            r@ == insert_concat_spec(*self, ", "@, ""@, ""@, false),
    {
        let fmts = one_line();
        self.concat(&fmts)
    }

    /// Renders the full statement under the given formatting policy.
    pub fn concat(&self, fmts: &Format) -> (r: String)
        ensures
            r@ == insert_concat_spec(*self, fmts.comma@, fmts.lb@, fmts.indent@, fmts.colorize),
    {
        let q = String::new();
        let q = self.concat_raw(q, fmts, &self._raw);
        let q = self.concat_insert_into(q, fmts);
        let q = self.concat_overriding(q, fmts);
        let q = self.concat_values(
            &self._raw_before,
            &self._raw_after,
            q,
            fmts,
            InsertClause::Values,
            &self._values,
        );
        let q = self.concat_select(q, fmts);
        let q = self.concat_on_conflict(q, fmts);
        let q = self.concat_returning(
            &self._raw_before,
            &self._raw_after,
            q,
            fmts,
            InsertClause::Returning,
            &self._returning,
        );
        proof {
            assert(q@ =~= raw_clause_part(texts_of(self._raw@), fmts.lb@) + scalar_clause_part(
                self._raw_before@,
                self._raw_after@,
                InsertClause::InsertInto,
                colored_kw("INSERT INTO "@, fmts.colorize),
                self._insert_into@,
                fmts.lb@,
            ) + scalar_clause_part(
                self._raw_before@,
                self._raw_after@,
                InsertClause::Overriding,
                colored_kw("OVERRIDING "@, fmts.colorize),
                self._overriding@,
                fmts.lb@,
            ) + values_clause_part(
                self._raw_before@,
                self._raw_after@,
                InsertClause::Values,
                colored_kw("VALUES "@, fmts.colorize),
                texts_of(self._values@),
                fmts.comma@,
                fmts.lb@,
            ) + insert_select_part(*self, fmts.comma@, fmts.lb@, fmts.indent@, fmts.colorize)
                + scalar_clause_part(
                self._raw_before@,
                self._raw_after@,
                InsertClause::OnConflict,
                colored_kw("ON CONFLICT "@, fmts.colorize),
                self._on_conflict@,
                fmts.lb@,
            ) + list_clause_part(
                self._raw_before@,
                self._raw_after@,
                InsertClause::Returning,
                colored_kw("RETURNING "@, fmts.colorize),
                texts_of(self._returning@),
                fmts.comma@,
                fmts.lb@,
            ));
        }
        trim_end_str(q.as_str())
    }

    fn concat_insert_into(&self, query: String, fmts: &Format) -> (r: String)
        ensures
            r@ == query@ + scalar_clause_part(
                self._raw_before@,
                self._raw_after@,
                InsertClause::InsertInto,
                colored_kw("INSERT INTO "@, fmts.colorize),
                self._insert_into@,
                fmts.lb@,
            ),
    {
        concat_scalar_clause(
            &self._raw_before,
            &self._raw_after,
            query,
            fmts,
            InsertClause::InsertInto,
            "INSERT INTO ",
            self._insert_into.as_str(),
        )
    }

    fn concat_overriding(&self, query: String, fmts: &Format) -> (r: String)
        ensures
            r@ == query@ + scalar_clause_part(
                self._raw_before@,
                self._raw_after@,
                InsertClause::Overriding,
                colored_kw("OVERRIDING "@, fmts.colorize),
                self._overriding@,
                fmts.lb@,
            ),
    {
        concat_scalar_clause(
            &self._raw_before,
            &self._raw_after,
            query,
            fmts,
            InsertClause::Overriding,
            "OVERRIDING ",
            self._overriding.as_str(),
        )
    }

    fn concat_on_conflict(&self, query: String, fmts: &Format) -> (r: String)
        ensures
            r@ == query@ + scalar_clause_part(
                self._raw_before@,
                self._raw_after@,
                InsertClause::OnConflict,
                colored_kw("ON CONFLICT "@, fmts.colorize),
                self._on_conflict@,
                fmts.lb@,
            ),
    {
        concat_scalar_clause(
            &self._raw_before,
            &self._raw_after,
            query,
            fmts,
            InsertClause::OnConflict,
            "ON CONFLICT ",
            self._on_conflict.as_str(),
        )
    }

    #[verifier::rlimit(60)]
    fn concat_select(&self, query: String, fmts: &Format) -> (r: String)
        ensures
            r@ == query@ + insert_select_part(
                *self,
                fmts.comma@,
                fmts.lb@,
                fmts.indent@,
                fmts.colorize,
            ),
    {
        let mut q = concat_raw_before(&self._raw_before, query, fmts, &InsertClause::Select);
        match &self._select {
            Some(select) => {
                proof {
                    assert(self._select == Some(*select));
                }
                let sub = select.concat(fmts);
                q.append(sub.as_str());
                q.append(" ");
                q.append(fmts.lb.as_str());
                proof {
                    assert(q@ =~= query@ + raw_group(self._raw_before@, InsertClause::Select)
                        + select_concat_spec(
                        *select,
                        fmts.comma@,
                        fmts.lb@,
                        fmts.indent@,
                        fmts.colorize,
                    ) + " "@ + fmts.lb@);
                }
            },
            None => {},
        }
        let out = concat_raw_after(&self._raw_after, q, fmts, &InsertClause::Select);
        proof {
            assert(out@ =~= query@ + insert_select_part(
                *self,
                fmts.comma@,
                fmts.lb@,
                fmts.indent@,
                fmts.colorize,
            ));
        }
        out
    }
}

impl Concat for Insert {
    open spec fn render_spec(
        &self,
        comma: Seq<char>,
        lb: Seq<char>,
        indent: Seq<char>,
        colorize: bool,
    ) -> Seq<char> {
        insert_concat_spec(*self, comma, lb, indent, colorize)
    }

    fn concat(&self, fmts: &Format) -> (r: String) {
        Insert::concat(self, fmts)
    }
}

/// With no fragments set, rendering produces the empty string, under every
/// formatting policy.
pub proof fn lemma_initial_insert_renders_empty(
    b: Insert,
    comma: Seq<char>,
    lb: Seq<char>,
    indent: Seq<char>,
    colorize: bool,
)
    requires
        b.is_initial(),
    ensures
        insert_concat_spec(b, comma, lb, indent, colorize) == Seq::<char>::empty(),
{
    assert forall|c: InsertClause| #[trigger] raw_texts(b._raw_before@, c).len() == 0 by {
        assert(raw_texts(b._raw_before@, c) == Seq::<Seq<char>>::empty());
    }
    assert forall|c: InsertClause| #[trigger] raw_texts(b._raw_after@, c).len() == 0 by {
        assert(raw_texts(b._raw_after@, c) == Seq::<Seq<char>>::empty());
    }
    assert(texts_of(b._raw@).len() == 0);
    assert(texts_of(b._values@).len() == 0);
    assert(texts_of(b._returning@).len() == 0);
    let core = raw_clause_part(texts_of(b._raw@), lb) + scalar_clause_part(
        b._raw_before@,
        b._raw_after@,
        InsertClause::InsertInto,
        colored_kw("INSERT INTO "@, colorize),
        b._insert_into@,
        lb,
    ) + scalar_clause_part(
        b._raw_before@,
        b._raw_after@,
        InsertClause::Overriding,
        colored_kw("OVERRIDING "@, colorize),
        b._overriding@,
        lb,
    ) + values_clause_part(
        b._raw_before@,
        b._raw_after@,
        InsertClause::Values,
        colored_kw("VALUES "@, colorize),
        texts_of(b._values@),
        comma,
        lb,
    ) + insert_select_part(b, comma, lb, indent, colorize) + scalar_clause_part(
        b._raw_before@,
        b._raw_after@,
        InsertClause::OnConflict,
        colored_kw("ON CONFLICT "@, colorize),
        b._on_conflict@,
        lb,
    ) + list_clause_part(
        b._raw_before@,
        b._raw_after@,
        InsertClause::Returning,
        colored_kw("RETURNING "@, colorize),
        texts_of(b._returning@),
        comma,
        lb,
    );
    assert(core =~= Seq::<char>::empty());
    assert(insert_concat_spec(b, comma, lb, indent, colorize) == trim_end_spec(core));
}

/// Rendering the same builder state twice, with no intervening mutation,
/// yields byte-identical output.
pub proof fn lemma_insert_render_stable(
    b: Insert,
    comma: Seq<char>,
    lb: Seq<char>,
    indent: Seq<char>,
    colorize: bool,
    r1: Seq<char>,
    r2: Seq<char>,
)
    requires
        r1 == insert_concat_spec(b, comma, lb, indent, colorize),
        r2 == insert_concat_spec(b, comma, lb, indent, colorize),
    ensures
        r1 == r2,
{
}

} // verus!
