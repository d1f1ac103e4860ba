//! The UPDATE statement builder: accumulates the target table, assignments,
//! extra sources, conditions and raw fragments, and renders them in the
//! fixed clause order UPDATE, SET, FROM, WHERE, RETURNING.

use vstd::prelude::*;

use crate::behavior::ClauseTag;
use crate::behavior::Concat;
use crate::behavior::ConcatMethods;
use crate::behavior::colored_kw;
use crate::behavior::raw_texts;
use crate::behavior::concat_list_clause;
use crate::behavior::concat_scalar_clause;
use crate::behavior::list_clause_part;
use crate::behavior::push_unique;
use crate::behavior::push_unique_spec;
use crate::behavior::raw_clause_part;
use crate::behavior::scalar_clause_part;
use crate::fmt::Format;
use crate::fmt::one_line;
use crate::text::texts_of;
use crate::text::trim_end_spec;
use crate::text::trim_end_str;
use crate::text::trim_spec;
use crate::text::trimmed;

verus! {

/// The renderable clauses of an UPDATE statement, used to position raw
/// fragments.
#[derive(Clone, Copy, PartialEq, Eq, Structural)]
pub enum UpdateClause {
    From,
    Returning,
    Sets,
    Update,
    Where,
}

impl ClauseTag for UpdateClause {
    fn tag_eq(&self, other: &Self) -> (r: bool)
        ensures
            r == (*self == *other),
    {
        *self == *other
    }
}

/// Builder of UPDATE statement text.
pub struct Update {
    pub _from: Vec<String>,
    pub _raw: Vec<String>,
    pub _raw_after: Vec<(UpdateClause, String)>,
    pub _raw_before: Vec<(UpdateClause, String)>,
    pub _returning: Vec<String>,
    pub _set: Vec<String>,
    pub _update: String,
    pub _where: Vec<String>,
}

/// The full UPDATE statement text for the builder state under the given
/// formatting tokens, with trailing whitespace stripped once at the end.
pub open spec fn update_concat_spec(
    b: Update,
    comma: Seq<char>,
    lb: Seq<char>,
    indent: Seq<char>,
    colorize: bool,
) -> Seq<char> {
    trim_end_spec(
        raw_clause_part(texts_of(b._raw@), lb) + scalar_clause_part(
            b._raw_before@,
            b._raw_after@,
            UpdateClause::Update,
            colored_kw("UPDATE "@, colorize),
            b._update@,
            lb,
        ) + list_clause_part(
            b._raw_before@,
            b._raw_after@,
            UpdateClause::Sets,
            colored_kw("SET "@, colorize),
            texts_of(b._set@),
            comma,
            lb,
        ) + list_clause_part(
            b._raw_before@,
            b._raw_after@,
            UpdateClause::From,
            colored_kw("FROM "@, colorize),
            texts_of(b._from@),
            comma,
            lb,
        ) + list_clause_part(
            b._raw_before@,
            b._raw_after@,
            UpdateClause::Where,
            colored_kw("WHERE "@, colorize),
            texts_of(b._where@),
            " AND "@,
            lb,
        ) + list_clause_part(
            b._raw_before@,
            b._raw_after@,
            UpdateClause::Returning,
            colored_kw("RETURNING "@, colorize),
            texts_of(b._returning@),
            comma,
            lb,
        ),
    )
}

impl ConcatMethods<UpdateClause> for Update {

}

impl Update {
    /// All accumulators empty: the state in which nothing renders.
    pub open spec fn is_initial(self) -> bool {
        &&& self._from@.len() == 0
        &&& self._raw@.len() == 0
        &&& self._raw_after@.len() == 0
        &&& self._raw_before@.len() == 0
        &&& self._returning@.len() == 0
        &&& self._set@.len() == 0
        &&& self._update@.len() == 0
        &&& self._where@.len() == 0
    }

    /// A builder with every accumulator empty.
    pub fn new() -> (r: Self)
        ensures
            r.is_initial(),
    {
        Update {
            _from: Vec::new(),
            _raw: Vec::new(),
            _raw_after: Vec::new(),
            _raw_before: Vec::new(),
            _returning: Vec::new(),
            _set: Vec::new(),
            _update: String::new(),
            _where: Vec::new(),
        }
    }

    /// Accumulates a WHERE condition; a synonym of `where_clause`.
    pub fn and(self, condition: &str) -> (r: Self)
        ensures
            r == (Update { _where: r._where, ..self }),
            texts_of(r._where@) == push_unique_spec(texts_of(self._where@), trim_spec(condition@)),
    {
        self.where_clause(condition)
    }

    /// Accumulates an extra FROM source.
    pub fn from(self, tables: &str) -> (r: Self)
        ensures
            r == (Update { _from: r._from, ..self }),
            texts_of(r._from@) == texts_of(self._from@).push(trim_spec(tables@)),
    {
        let mut s = self;
        let t = trimmed(tables);
        s._from.push(t);
        proof {
            assert(texts_of(s._from@) =~= texts_of(self._from@).push(trim_spec(tables@)));
        }
        s
    }

    /// Adds an unassociated raw fragment, deduplicated by exact text.
    pub fn raw(self, raw_sql: &str) -> (r: Self)
        ensures
            r == (Update { _raw: r._raw, ..self }),
            texts_of(r._raw@) == push_unique_spec(texts_of(self._raw@), trim_spec(raw_sql@)),
    {
        let mut s = self;
        let t = trimmed(raw_sql);
        push_unique(&mut s._raw, t);
        s
    }

    /// Adds a raw fragment rendered after the given clause; duplicates are
    /// kept.
    pub fn raw_after(self, clause: UpdateClause, raw_sql: &str) -> (r: Self)
        ensures
            r == (Update { _raw_after: r._raw_after, ..self }),
            r._raw_after@.len() == self._raw_after@.len() + 1,
            r._raw_after@.drop_last() == self._raw_after@,
            r._raw_after@.last().0 == clause,
            r._raw_after@.last().1@ == trim_spec(raw_sql@),
    {
        let mut s = self;
        let t = trimmed(raw_sql);
        s._raw_after.push((clause, t));
        proof {
            assert(s._raw_after@.drop_last() =~= self._raw_after@);
        }
        s
    }

    /// Adds a raw fragment rendered before the given clause; duplicates are
    /// kept.
    pub fn raw_before(self, clause: UpdateClause, raw_sql: &str) -> (r: Self)
        ensures
            r == (Update { _raw_before: r._raw_before, ..self }),
            r._raw_before@.len() == self._raw_before@.len() + 1,
            r._raw_before@.drop_last() == self._raw_before@,
            r._raw_before@.last().0 == clause,
            r._raw_before@.last().1@ == trim_spec(raw_sql@),
    {
        let mut s = self;
        let t = trimmed(raw_sql);
        s._raw_before.push((clause, t));
        proof {
            assert(s._raw_before@.drop_last() =~= self._raw_before@);
        }
        s
    }

    /// Accumulates a RETURNING column.
    pub fn returning(self, column: &str) -> (r: Self)
        ensures
            r == (Update { _returning: r._returning, ..self }),
            texts_of(r._returning@) == texts_of(self._returning@).push(trim_spec(column@)),
    {
        let mut s = self;
        let t = trimmed(column);
        s._returning.push(t);
        proof {
            assert(texts_of(s._returning@) =~= texts_of(self._returning@).push(
                trim_spec(column@),
            ));
        }
        s
    }

    /// Accumulates a SET assignment.
    pub fn set(self, value: &str) -> (r: Self)
        ensures
            r == (Update { _set: r._set, ..self }),
            texts_of(r._set@) == texts_of(self._set@).push(trim_spec(value@)),
    {
        let mut s = self;
        let t = trimmed(value);
        s._set.push(t);
        proof {
            assert(texts_of(s._set@) =~= texts_of(self._set@).push(trim_spec(value@)));
        }
        s
    }

    /// Sets the target table, replacing any previous value.
    pub fn update(self, table_name: &str) -> (r: Self)
        ensures
            r == (Update { _update: r._update, ..self }),
            r._update@ == trim_spec(table_name@),
    {
        let mut s = self;
        s._update = trimmed(table_name);
        s
    }

    /// Accumulates a WHERE condition, deduplicated by exact text so that
    /// repeating an identical condition is idempotent.
    pub fn where_clause(self, condition: &str) -> (r: Self)
        ensures
            r == (Update { _where: r._where, ..self }),
            texts_of(r._where@) == push_unique_spec(texts_of(self._where@), trim_spec(condition@)),
    {
        let mut s = self;
        let t = trimmed(condition);
        push_unique(&mut s._where, t);
        s
    }

    /// The compact single-line rendering of the current builder state.
    pub fn as_string(&self) -> (r: String)
        ensures
            r@ == update_concat_spec(*self, ", "@, ""@, ""@, false),
    {
        let fmts = one_line();
        self.concat(&fmts)
    }

    /// Renders the full statement under the given formatting policy.
    pub fn concat(&self, fmts: &Format) -> (r: String)
        ensures
            r@ == update_concat_spec(*self, fmts.comma@, fmts.lb@, fmts.indent@, fmts.colorize),
    {
        let q = String::new();
        let q = self.concat_raw(q, fmts, &self._raw);
        let q = self.concat_update(q, fmts);
        let q = self.concat_set(q, fmts);
        let q = self.concat_from(
            &self._raw_before,
            &self._raw_after,
            q,
            fmts,
            UpdateClause::From,
            &self._from,
        );
        let q = self.concat_where(
            &self._raw_before,
            &self._raw_after,
            q,
            fmts,
            UpdateClause::Where,
            &self._where,
        );
        let q = self.concat_returning(
            &self._raw_before,
            &self._raw_after,
            q,
            fmts,
            UpdateClause::Returning,
            &self._returning,
        );
        proof {
            assert(q@ =~= raw_clause_part(texts_of(self._raw@), fmts.lb@) + scalar_clause_part(
                self._raw_before@,
                self._raw_after@,
                UpdateClause::Update,
                colored_kw("UPDATE "@, fmts.colorize),
                self._update@,
                fmts.lb@,
            ) + list_clause_part(
                self._raw_before@,
                self._raw_after@,
                UpdateClause::Sets,
                colored_kw("SET "@, fmts.colorize),
                texts_of(self._set@),
                fmts.comma@,
                fmts.lb@,
            ) + list_clause_part(
                self._raw_before@,
                self._raw_after@,
                UpdateClause::From,
                colored_kw("FROM "@, fmts.colorize),
                texts_of(self._from@),
                fmts.comma@,
                fmts.lb@,
            ) + list_clause_part(
                self._raw_before@,
                self._raw_after@,
                UpdateClause::Where,
                colored_kw("WHERE "@, fmts.colorize),
                texts_of(self._where@),
                " AND "@,
                fmts.lb@,
            ) + list_clause_part(
                self._raw_before@,
                self._raw_after@,
                UpdateClause::Returning,
                colored_kw("RETURNING "@, fmts.colorize),
                texts_of(self._returning@),
                fmts.comma@,
                fmts.lb@,
            ));
        }
        trim_end_str(q.as_str())
    }

    fn concat_set(&self, query: String, fmts: &Format) -> (r: String)
        ensures
            r@ == query@ + list_clause_part(
                self._raw_before@,
                self._raw_after@,
                UpdateClause::Sets,
                colored_kw("SET "@, fmts.colorize),
                texts_of(self._set@),
                fmts.comma@,
                fmts.lb@,
            ),
    {
        concat_list_clause(
            &self._raw_before,
            &self._raw_after,
            query,
            fmts,
            UpdateClause::Sets,
            "SET ",
            &self._set,
            fmts.comma.as_str(),
        )
    }

    fn concat_update(&self, query: String, fmts: &Format) -> (r: String)
        ensures
            r@ == query@ + scalar_clause_part(
                self._raw_before@,
                self._raw_after@,
                UpdateClause::Update,
                colored_kw("UPDATE "@, fmts.colorize),
                self._update@,
                fmts.lb@,
            ),
    {
        concat_scalar_clause(
            &self._raw_before,
            &self._raw_after,
            query,
            fmts,
            UpdateClause::Update,
            "UPDATE ",
            self._update.as_str(),
        )
    }
}

impl Concat for Update {
    open spec fn render_spec(
        &self,
        comma: Seq<char>,
        lb: Seq<char>,
        indent: Seq<char>,
        colorize: bool,
    ) -> Seq<char> {
        update_concat_spec(*self, comma, lb, indent, colorize)
    }

    fn concat(&self, fmts: &Format) -> (r: String) {
        Update::concat(self, fmts)
    }
}

/// With no fragments set, rendering produces the empty string, under every
/// formatting policy.
pub proof fn lemma_initial_update_renders_empty(
    b: Update,
    comma: Seq<char>,
    lb: Seq<char>,
    indent: Seq<char>,
    colorize: bool,
)
    requires
        b.is_initial(),
    ensures
        update_concat_spec(b, comma, lb, indent, colorize) == Seq::<char>::empty(),
{
    assert forall|c: UpdateClause| #[trigger] raw_texts(b._raw_before@, c).len() == 0 by {
        assert(raw_texts(b._raw_before@, c) == Seq::<Seq<char>>::empty());
    }
    assert forall|c: UpdateClause| #[trigger] raw_texts(b._raw_after@, c).len() == 0 by {
        assert(raw_texts(b._raw_after@, c) == Seq::<Seq<char>>::empty());
    }
    assert(texts_of(b._raw@).len() == 0);
    assert(texts_of(b._set@).len() == 0);
    assert(texts_of(b._from@).len() == 0);
    assert(texts_of(b._where@).len() == 0);
    assert(texts_of(b._returning@).len() == 0);
    let core = raw_clause_part(texts_of(b._raw@), lb) + scalar_clause_part(
        b._raw_before@,
        b._raw_after@,
        UpdateClause::Update,
        colored_kw("UPDATE "@, colorize),
        b._update@,
        lb,
    ) + list_clause_part(
        b._raw_before@,
        b._raw_after@,
        UpdateClause::Sets,
        colored_kw("SET "@, colorize),
        texts_of(b._set@),
        comma,
        lb,
    ) + list_clause_part(
        b._raw_before@,
        b._raw_after@,
        UpdateClause::From,
        colored_kw("FROM "@, colorize),
        texts_of(b._from@),
        comma,
        lb,
    ) + list_clause_part(
        b._raw_before@,
        b._raw_after@,
        UpdateClause::Where,
        colored_kw("WHERE "@, colorize),
        texts_of(b._where@),
        " AND "@,
        lb,
    ) + list_clause_part(
        b._raw_before@,
        b._raw_after@,
        UpdateClause::Returning,
        colored_kw("RETURNING "@, colorize),
        texts_of(b._returning@),
        comma,
        lb,
    );
    assert(core =~= Seq::<char>::empty());
    assert(update_concat_spec(b, comma, lb, indent, colorize) == trim_end_spec(core));
}

/// Rendering the same builder state twice, with no intervening mutation,
/// yields byte-identical output.
pub proof fn lemma_update_render_stable(
    b: Update,
    comma: Seq<char>,
    lb: Seq<char>,
    indent: Seq<char>,
    colorize: bool,
    r1: Seq<char>,
    r2: Seq<char>,
)
    requires
        r1 == update_concat_spec(b, comma, lb, indent, colorize),
        r2 == update_concat_spec(b, comma, lb, indent, colorize),
    ensures
        r1 == r2,
{
}

} // verus!
