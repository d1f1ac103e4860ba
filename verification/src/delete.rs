//! The DELETE statement builder: accumulates the target table, conditions,
//! named sub-queries and raw fragments, and renders them in the fixed clause
//! order WITH, DELETE FROM, WHERE, RETURNING.

use vstd::prelude::*;

use crate::behavior::ClauseTag;
use crate::behavior::Concat;
use crate::behavior::ConcatMethods;
use crate::behavior::colored_kw;
use crate::behavior::raw_texts;
use crate::behavior::concat_scalar_clause;
use crate::behavior::list_clause_part;
use crate::behavior::push_unique;
use crate::behavior::push_unique_spec;
use crate::behavior::raw_clause_part;
use crate::behavior::scalar_clause_part;
use crate::fmt::Format;
use crate::fmt::one_line;
use crate::select::SelectBuilder;
use crate::select::with_part_generic;
use crate::text::texts_of;
use crate::text::trim_end_spec;
use crate::text::trim_end_str;
use crate::text::trim_spec;
use crate::text::trimmed;

verus! {

/// The renderable clauses of a DELETE statement, used to position raw
/// fragments.
#[derive(Clone, Copy, PartialEq, Eq, Structural)]
pub enum DeleteClause {
    DeleteFrom,
    Returning,
    Where,
    With,
}

impl ClauseTag for DeleteClause {
    fn tag_eq(&self, other: &Self) -> (r: bool)
        ensures
            r == (*self == *other),
    {
        *self == *other
    }
}

/// Builder of DELETE statement text.
pub struct DeleteBuilder {
    pub _delete_from: String,
    pub _raw: Vec<String>,
    pub _raw_after: Vec<(DeleteClause, String)>,
    pub _raw_before: Vec<(DeleteClause, String)>,
    pub _returning: Vec<String>,
    pub _where: Vec<String>,
    pub _with: Vec<(String, SelectBuilder)>,
}

/// The full DELETE statement text for the builder state under the given
/// formatting tokens, with trailing whitespace stripped once at the end.
pub open spec fn delete_concat_spec(
    b: DeleteBuilder,
    comma: Seq<char>,
    lb: Seq<char>,
    indent: Seq<char>,
    colorize: bool,
) -> Seq<char> {
    trim_end_spec(
        raw_clause_part(texts_of(b._raw@), lb) + with_part_generic(
            b._raw_before@,
            b._raw_after@,
            DeleteClause::With,
            b._with@,
            comma,
            lb,
            indent,
            colorize,
        ) + scalar_clause_part(
            b._raw_before@,
            b._raw_after@,
            DeleteClause::DeleteFrom,
            colored_kw("DELETE FROM "@, colorize),
            b._delete_from@,
            lb,
        ) + list_clause_part(
            b._raw_before@,
            b._raw_after@,
            DeleteClause::Where,
            colored_kw("WHERE "@, colorize),
            texts_of(b._where@),
            " AND "@,
            lb,
        ) + list_clause_part(
            b._raw_before@,
            b._raw_after@,
            DeleteClause::Returning,
            colored_kw("RETURNING "@, colorize),
            texts_of(b._returning@),
            comma,
            lb,
        ),
    )
}

impl ConcatMethods<DeleteClause> for DeleteBuilder {

}

impl DeleteBuilder {
    /// All accumulators empty: the state in which nothing renders.
    pub open spec fn is_initial(self) -> bool {
        &&& self._delete_from@.len() == 0
        &&& self._raw@.len() == 0
        &&& self._raw_after@.len() == 0
        &&& self._raw_before@.len() == 0
        &&& self._returning@.len() == 0
        &&& self._where@.len() == 0
        &&& self._with@.len() == 0
    }

    /// A builder with every accumulator empty.
    pub fn new() -> (r: Self)
        ensures
            r.is_initial(),
    {
        DeleteBuilder {
            _delete_from: String::new(),
            _raw: Vec::new(),
            _raw_after: Vec::new(),
            _raw_before: Vec::new(),
            _returning: Vec::new(),
            _where: Vec::new(),
            _with: Vec::new(),
        }
    }

    /// Accumulates a WHERE condition; a synonym of `where_clause`.
    pub fn and(self, condition: &str) -> (r: Self)
        ensures
            r == (DeleteBuilder { _where: r._where, ..self }),
            texts_of(r._where@) == push_unique_spec(texts_of(self._where@), trim_spec(condition@)),
    {
        self.where_clause(condition)
    }

    /// Sets the target table, replacing any previous value.
    pub fn delete_from(self, table_name: &str) -> (r: Self)
        ensures
            r == (DeleteBuilder { _delete_from: r._delete_from, ..self }),
            r._delete_from@ == trim_spec(table_name@),
    {
        let mut s = self;
        s._delete_from = trimmed(table_name);
        s
    }

    /// Adds an unassociated raw fragment, deduplicated by exact text.
    pub fn raw(self, raw_sql: &str) -> (r: Self)
        ensures
            r == (DeleteBuilder { _raw: r._raw, ..self }),
            texts_of(r._raw@) == push_unique_spec(texts_of(self._raw@), trim_spec(raw_sql@)),
    {
        let mut s = self;
        let t = trimmed(raw_sql);
        push_unique(&mut s._raw, t);
        s
    }

    /// Adds a raw fragment rendered after the given clause; duplicates are
    /// kept.
    pub fn raw_after(self, clause: DeleteClause, raw_sql: &str) -> (r: Self)
        ensures
            r == (DeleteBuilder { _raw_after: r._raw_after, ..self }),
            r._raw_after@.len() == self._raw_after@.len() + 1,
            r._raw_after@.drop_last() == self._raw_after@,
            r._raw_after@.last().0 == clause,
            r._raw_after@.last().1@ == trim_spec(raw_sql@),
    {
        let mut s = self;
        let t = trimmed(raw_sql);
        s._raw_after.push((clause, t));
        proof {
            assert(s._raw_after@.drop_last() =~= self._raw_after@);
        }
        s
    }

    /// Adds a raw fragment rendered before the given clause; duplicates are
    /// kept.
    pub fn raw_before(self, clause: DeleteClause, raw_sql: &str) -> (r: Self)
        ensures
            r == (DeleteBuilder { _raw_before: r._raw_before, ..self }),
            r._raw_before@.len() == self._raw_before@.len() + 1,
            r._raw_before@.drop_last() == self._raw_before@,
            r._raw_before@.last().0 == clause,
            r._raw_before@.last().1@ == trim_spec(raw_sql@),
    {
        let mut s = self;
        let t = trimmed(raw_sql);
        s._raw_before.push((clause, t));
        proof {
            assert(s._raw_before@.drop_last() =~= self._raw_before@);
        }
        s
    }

    /// Accumulates a RETURNING column.
    pub fn returning(self, column: &str) -> (r: Self)
        ensures
            r == (DeleteBuilder { _returning: r._returning, ..self }),
            texts_of(r._returning@) == texts_of(self._returning@).push(trim_spec(column@)),
    {
        let mut s = self;
        let t = trimmed(column);
        s._returning.push(t);
        proof {
            assert(texts_of(s._returning@) =~= texts_of(self._returning@).push(
                trim_spec(column@),
            ));
        }
        s
    }

    /// Accumulates a WHERE condition, deduplicated by exact text so that
    /// repeating an identical condition is idempotent.
    pub fn where_clause(self, condition: &str) -> (r: Self)
        ensures
            r == (DeleteBuilder { _where: r._where, ..self }),
            texts_of(r._where@) == push_unique_spec(texts_of(self._where@), trim_spec(condition@)),
    {
        let mut s = self;
        let t = trimmed(condition);
        push_unique(&mut s._where, t);
        s
    }

    /// Attaches a named sub-query to the WITH clause.
    pub fn with(self, name: &str, select: SelectBuilder) -> (r: Self)
        ensures
            r == (DeleteBuilder { _with: r._with, ..self }),
            r._with@.len() == self._with@.len() + 1,
            r._with@.drop_last() == self._with@,
            r._with@.last().0@ == trim_spec(name@),
            r._with@.last().1 == select,
    {
        let mut s = self;
        let t = trimmed(name);
        s._with.push((t, select));
        proof {
            assert(s._with@.drop_last() =~= self._with@);
        }
        s
    }

    /// The compact single-line rendering of the current builder state.
    pub fn as_string(&self) -> (r: String)
        ensures
            r@ == delete_concat_spec(*self, ", "@, ""@, ""@, false),
    {
        let fmts = one_line();
        self.concat(&fmts)
    }

    /// Renders the full statement under the given formatting policy.
    pub fn concat(&self, fmts: &Format) -> (r: String)
        ensures
            r@ == delete_concat_spec(*self, fmts.comma@, fmts.lb@, fmts.indent@, fmts.colorize),
    {
        let q = String::new();
        let q = self.concat_raw(q, fmts, &self._raw);
        let q = self.concat_with(
            &self._raw_before,
            &self._raw_after,
            q,
            fmts,
            DeleteClause::With,
            &self._with,
        );
        let q = self.concat_delete_from(q, fmts);
        let q = self.concat_where(
            &self._raw_before,
            &self._raw_after,
            q,
            fmts,
            DeleteClause::Where,
            &self._where,
        );
        let q = self.concat_returning(
            &self._raw_before,
            &self._raw_after,
            q,
            fmts,
            DeleteClause::Returning,
            &self._returning,
        );
        proof {
            assert(q@ =~= raw_clause_part(texts_of(self._raw@), fmts.lb@) + with_part_generic(
                self._raw_before@,
                self._raw_after@,
                DeleteClause::With,
                self._with@,
                fmts.comma@,
                fmts.lb@,
                fmts.indent@,
                fmts.colorize,
            ) + scalar_clause_part(
                self._raw_before@,
                self._raw_after@,
                DeleteClause::DeleteFrom,
                colored_kw("DELETE FROM "@, fmts.colorize),
                self._delete_from@,
                fmts.lb@,
            ) + list_clause_part(
                self._raw_before@,
                self._raw_after@,
                DeleteClause::Where,
                colored_kw("WHERE "@, fmts.colorize),
                texts_of(self._where@),
                " AND "@,
                fmts.lb@,
            ) + list_clause_part(
                self._raw_before@,
                self._raw_after@,
                DeleteClause::Returning,
                colored_kw("RETURNING "@, fmts.colorize),
                texts_of(self._returning@),
                fmts.comma@,
                fmts.lb@,
            ));
        }
        trim_end_str(q.as_str())
    }

    fn concat_delete_from(&self, query: String, fmts: &Format) -> (r: String)
        ensures
            r@ == query@ + scalar_clause_part(
                self._raw_before@,
                self._raw_after@,
                DeleteClause::DeleteFrom,
                colored_kw("DELETE FROM "@, fmts.colorize),
                self._delete_from@,
                fmts.lb@,
            ),
    {
        concat_scalar_clause(
            &self._raw_before,
            &self._raw_after,
            query,
            fmts,
            DeleteClause::DeleteFrom,
            "DELETE FROM ",
            self._delete_from.as_str(),
        )
    }
}

impl Concat for DeleteBuilder {
    open spec fn render_spec(
        &self,
        comma: Seq<char>,
        lb: Seq<char>,
        indent: Seq<char>,
        colorize: bool,
    ) -> Seq<char> {
        delete_concat_spec(*self, comma, lb, indent, colorize)
    }

    fn concat(&self, fmts: &Format) -> (r: String) {
        DeleteBuilder::concat(self, fmts)
    }
}

/// With no fragments set, rendering produces the empty string, under every
/// formatting policy.
pub proof fn lemma_initial_delete_renders_empty(
    b: DeleteBuilder,
    comma: Seq<char>,
    lb: Seq<char>,
    indent: Seq<char>,
    colorize: bool,
)
    requires
        b.is_initial(),
    ensures
        delete_concat_spec(b, comma, lb, indent, colorize) == Seq::<char>::empty(),
{
    assert forall|c: DeleteClause| #[trigger] raw_texts(b._raw_before@, c).len() == 0 by {
        assert(raw_texts(b._raw_before@, c) == Seq::<Seq<char>>::empty());
    }
    assert forall|c: DeleteClause| #[trigger] raw_texts(b._raw_after@, c).len() == 0 by {
        assert(raw_texts(b._raw_after@, c) == Seq::<Seq<char>>::empty());
    }
    assert(texts_of(b._raw@).len() == 0);
    assert(texts_of(b._where@).len() == 0);
    assert(texts_of(b._returning@).len() == 0);
    let core = raw_clause_part(texts_of(b._raw@), lb) + with_part_generic(
        b._raw_before@,
        b._raw_after@,
        DeleteClause::With,
        b._with@,
        comma,
        lb,
        indent,
        colorize,
    ) + scalar_clause_part(
        b._raw_before@,
        b._raw_after@,
        DeleteClause::DeleteFrom,
        colored_kw("DELETE FROM "@, colorize),
        b._delete_from@,
        lb,
    ) + list_clause_part(
        b._raw_before@,
        b._raw_after@,
        DeleteClause::Where,
        colored_kw("WHERE "@, colorize),
        texts_of(b._where@),
        " AND "@,
        lb,
    ) + list_clause_part(
        b._raw_before@,
        b._raw_after@,
        DeleteClause::Returning,
        colored_kw("RETURNING "@, colorize),
        texts_of(b._returning@),
        comma,
        lb,
    );
    assert(core =~= Seq::<char>::empty());
    assert(delete_concat_spec(b, comma, lb, indent, colorize) == trim_end_spec(core));
}

/// Rendering the same builder state twice, with no intervening mutation,
/// yields byte-identical output.
pub proof fn lemma_delete_render_stable(
    b: DeleteBuilder,
    comma: Seq<char>,
    lb: Seq<char>,
    indent: Seq<char>,
    colorize: bool,
    r1: Seq<char>,
    r2: Seq<char>,
)
    requires
        r1 == delete_concat_spec(b, comma, lb, indent, colorize),
        r2 == delete_concat_spec(b, comma, lb, indent, colorize),
    ensures
        r1 == r2,
{
}

} // verus!
