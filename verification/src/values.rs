//! The VALUES statement builder: accumulates pre-formatted value tuples and
//! raw fragments, and renders a bare VALUES statement.

use vstd::prelude::*;

use crate::behavior::ClauseTag;
use crate::behavior::Concat;
use crate::behavior::ConcatMethods;
use crate::behavior::colored_kw;
use crate::behavior::raw_texts;
use crate::behavior::push_unique;
use crate::behavior::push_unique_spec;
use crate::behavior::raw_clause_part;
use crate::behavior::values_clause_part;
use crate::fmt::Format;
use crate::fmt::one_line;
use crate::text::texts_of;
use crate::text::trim_end_spec;
use crate::text::trim_end_str;
use crate::text::trim_spec;
use crate::text::trimmed;

verus! {

/// The single renderable clause of a VALUES statement, used to position raw
/// fragments.
#[derive(Clone, Copy, PartialEq, Eq, Structural)]
pub enum ValuesClause {
    Values,
}

impl ClauseTag for ValuesClause {
    fn tag_eq(&self, other: &Self) -> (r: bool)
        ensures
            r == (*self == *other),
    {
        *self == *other
    }
}

/// Builder of VALUES statement text.
pub struct Values {
    pub _raw: Vec<String>,
    pub _raw_after: Vec<(ValuesClause, String)>,
    pub _raw_before: Vec<(ValuesClause, String)>,
    pub _values: Vec<String>,
}

/// The full VALUES statement text for the builder state under the given
/// formatting tokens, with trailing whitespace stripped once at the end.
pub open spec fn values_concat_spec(
    b: Values,
    comma: Seq<char>,
    lb: Seq<char>,
    indent: Seq<char>,
    colorize: bool,
) -> Seq<char> {
    trim_end_spec(
        raw_clause_part(texts_of(b._raw@), lb) + values_clause_part(
            b._raw_before@,
            b._raw_after@,
            ValuesClause::Values,
            colored_kw("VALUES "@, colorize),
            texts_of(b._values@),
            comma,
            lb,
        ),
    )
}

impl ConcatMethods<ValuesClause> for Values {

}

impl Values {
    /// All accumulators empty: the state in which nothing renders.
    pub open spec fn is_initial(self) -> bool {
        &&& self._raw@.len() == 0
        &&& self._raw_after@.len() == 0
        &&& self._raw_before@.len() == 0
        &&& self._values@.len() == 0
    }

    /// A builder with every accumulator empty.
    pub fn new() -> (r: Self)
        ensures
            r.is_initial(),
    {
        Values {
            _raw: Vec::new(),
            _raw_after: Vec::new(),
            _raw_before: Vec::new(),
            _values: Vec::new(),
        }
    }

    /// Adds an unassociated raw fragment, deduplicated by exact text.
    pub fn raw(self, raw_sql: &str) -> (r: Self)
        ensures
            r == (Values { _raw: r._raw, ..self }),
            texts_of(r._raw@) == push_unique_spec(texts_of(self._raw@), trim_spec(raw_sql@)),
    {
        let mut s = self;
        let t = trimmed(raw_sql);
        push_unique(&mut s._raw, t);
        s
    }

    /// Adds a raw fragment rendered after the given clause; duplicates are
    /// kept.
    pub fn raw_after(self, clause: ValuesClause, raw_sql: &str) -> (r: Self)
        ensures
            r == (Values { _raw_after: r._raw_after, ..self }),
            r._raw_after@.len() == self._raw_after@.len() + 1,
            r._raw_after@.drop_last() == self._raw_after@,
            r._raw_after@.last().0 == clause,
            r._raw_after@.last().1@ == trim_spec(raw_sql@),
    {
        let mut s = self;
        let t = trimmed(raw_sql);
        s._raw_after.push((clause, t));
        proof {
            assert(s._raw_after@.drop_last() =~= self._raw_after@);
        }
        s
    }

    /// Adds a raw fragment rendered before the given clause; duplicates are
    /// kept.
    pub fn raw_before(self, clause: ValuesClause, raw_sql: &str) -> (r: Self)
        ensures
            r == (Values { _raw_before: r._raw_before, ..self }),
            r._raw_before@.len() == self._raw_before@.len() + 1,
            r._raw_before@.drop_last() == self._raw_before@,
            r._raw_before@.last().0 == clause,
            r._raw_before@.last().1@ == trim_spec(raw_sql@),
    {
        let mut s = self;
        let t = trimmed(raw_sql);
        s._raw_before.push((clause, t));
        proof {
            assert(s._raw_before@.drop_last() =~= self._raw_before@);
        }
        s
    }

    /// Accumulates one pre-formatted value tuple.
    pub fn values(self, value: &str) -> (r: Self)
        ensures
            r == (Values { _values: r._values, ..self }),
            texts_of(r._values@) == texts_of(self._values@).push(trim_spec(value@)),
    {
        let mut s = self;
        let t = trimmed(value);
        s._values.push(t);
        proof {
            assert(texts_of(s._values@) =~= texts_of(self._values@).push(trim_spec(value@)));
        }
        s
    }

    /// The compact single-line rendering of the current builder state.
    pub fn as_string(&self) -> (r: String)
        ensures
            r@ == values_concat_spec(*self, ", "@, ""@, ""@, false),
    {
        let fmts = one_line();
        self.concat(&fmts)
    }

    /// Renders the full statement under the given formatting policy.
    pub fn concat(&self, fmts: &Format) -> (r: String)
        ensures
            r@ == values_concat_spec(*self, fmts.comma@, fmts.lb@, fmts.indent@, fmts.colorize),
    {
        let q = String::new();
        let q = self.concat_raw(q, fmts, &self._raw);
        let q = self.concat_values(
            &self._raw_before,
            &self._raw_after,
            q,
            fmts,
            ValuesClause::Values,
            &self._values,
        );
        proof {
            assert(q@ =~= raw_clause_part(texts_of(self._raw@), fmts.lb@) + values_clause_part(
                self._raw_before@,
                self._raw_after@,
                ValuesClause::Values,
                colored_kw("VALUES "@, fmts.colorize),
                texts_of(self._values@),
                fmts.comma@,
                fmts.lb@,
            ));
        }
        trim_end_str(q.as_str())
    }
}

impl Concat for Values {
    open spec fn render_spec(
        &self,
        comma: Seq<char>,
        lb: Seq<char>,
        indent: Seq<char>,
        colorize: bool,
    ) -> Seq<char> {
        values_concat_spec(*self, comma, lb, indent, colorize)
    }

    fn concat(&self, fmts: &Format) -> (r: String) {
        Values::concat(self, fmts)
    }
}

/// With no fragments set, rendering produces the empty string, under every
/// formatting policy.
pub proof fn lemma_initial_values_renders_empty(
    b: Values,
    comma: Seq<char>,
    lb: Seq<char>,
    indent: Seq<char>,
    colorize: bool,
)
    requires
        b.is_initial(),
    ensures
        values_concat_spec(b, comma, lb, indent, colorize) == Seq::<char>::empty(),
{
    assert forall|c: ValuesClause| #[trigger] raw_texts(b._raw_before@, c).len() == 0 by {
        assert(raw_texts(b._raw_before@, c) == Seq::<Seq<char>>::empty());
    }
    assert forall|c: ValuesClause| #[trigger] raw_texts(b._raw_after@, c).len() == 0 by {
        assert(raw_texts(b._raw_after@, c) == Seq::<Seq<char>>::empty());
    }
    assert(texts_of(b._raw@).len() == 0);
    assert(texts_of(b._values@).len() == 0);
    let core = raw_clause_part(texts_of(b._raw@), lb) + values_clause_part(
        b._raw_before@,
        b._raw_after@,
        ValuesClause::Values,
        colored_kw("VALUES "@, colorize),
        texts_of(b._values@),
        comma,
        lb,
    );
    assert(core =~= Seq::<char>::empty());
    assert(values_concat_spec(b, comma, lb, indent, colorize) == trim_end_spec(core));
}

/// Rendering the same builder state twice, with no intervening mutation,
/// yields byte-identical output.
pub proof fn lemma_values_render_stable(
    b: Values,
    comma: Seq<char>,
    lb: Seq<char>,
    indent: Seq<char>,
    colorize: bool,
    r1: Seq<char>,
    r2: Seq<char>,
)
    requires
        r1 == values_concat_spec(b, comma, lb, indent, colorize),
        r2 == values_concat_spec(b, comma, lb, indent, colorize),
    ensures
        r1 == r2,
{
}

} // verus!
