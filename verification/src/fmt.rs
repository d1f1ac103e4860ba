//! Formatting policy and text finishing: the separator, line-break, indent
//! and colorization configuration under which a statement is rendered, the
//! separator-aware [`Joiner`], and the keyword colorization pass applied to
//! finished statement text.

use vstd::prelude::*;
use vstd::string::StrSliceExecFns;
use vstd::string::StringExecFns;

use crate::text::join_with;
use crate::text::replace_spec;
use crate::text::replace_str;
use crate::text::texts_of;

verus! {

/// Immutable formatting policy for one render pass.
///
/// `comma` joins list clauses, `lb` breaks lines (empty for single-line
/// output), `indent` is one indentation unit for nested sub-queries, `hr` is a
/// horizontal rule used when printing, and `colorize` asks for ANSI-colored
/// keywords.
pub struct Format {
    pub comma: String,
    pub hr: String,
    pub indent: String,
    pub lb: String,
    pub colorize: bool,
}

/// The compact policy: everything on a single line, no colorization.
pub fn one_line() -> (r: Format)
    ensures
        r.comma@ == ", "@,
        r.hr@ == ""@,
        r.indent@ == ""@,
        r.lb@ == ""@,
        r.colorize == false,
{
    Format {
        comma: ", ".to_owned(),
        hr: "".to_owned(),
        indent: "".to_owned(),
        lb: "".to_owned(),
        colorize: false,
    }
}

/// The readable policy: one clause per line, two-space indentation.
pub fn multiline() -> (r: Format)
    ensures
        r.comma@ == ", "@,
        r.hr@ == "-- ------------------------------------------------------------------------------\u{1b}[0m"@,
        r.indent@ == "  "@,
        r.lb@ == "\n"@,
        r.colorize == false,
{
    Format {
        comma: ", ".to_owned(),
        hr: "-- ------------------------------------------------------------------------------\u{1b}[0m".to_owned(),
        indent: "  ".to_owned(),
        lb: "\n".to_owned(),
        colorize: false,
    }
}

/// The readable policy with colorized keywords.
pub fn multiline_color() -> (r: Format)
    ensures
        r.comma@ == ", "@,
        r.hr@ == "-- ------------------------------------------------------------------------------\u{1b}[0m"@,
        r.indent@ == "  "@,
        r.lb@ == "\n"@,
        r.colorize == true,
{
    let mut f = multiline();
    f.colorize = true;
    f
}

/// Relies on `ansi_term`: `Colour::Blue.paint(text)` displays as the blue
/// foreground escape code, the text itself, then the reset escape code.
#[verifier::external_body]
fn paint_blue(text: &str) -> (r: String)
    ensures
        r@ == "\u{1b}[34m"@ + text@ + "\u{1b}[0m"@,
{
    ansi_term::Colour::Blue.paint(text).to_string()
}

impl Format {
    /// The token colorized when this policy asks for it, unchanged otherwise.
    pub fn write_blue(&self, text: &str) -> (r: String)
        ensures
            r@ == if self.colorize {
                "\u{1b}[34m"@ + text@ + "\u{1b}[0m"@
            } else {
                text@
            },
    {
        if self.colorize {
            paint_blue(text)
        } else {
            text.to_owned()
        }
    }
}

/// Accumulates entries into one string, writing the separator between
/// consecutive entries only.
pub struct Joiner {
    pub buf: String,
    pub sep: String,
    pub has_first: bool,
    pub entries: Ghost<Seq<Seq<char>>>,
}

impl Joiner {
    /// The buffer always holds exactly the entries seen so far, joined.
    pub open spec fn wf(self) -> bool {
        &&& self.buf@ == join_with(self.entries@, self.sep@)
        &&& (self.has_first <==> self.entries@.len() > 0)
    }

    /// An empty joiner for the given separator.
    pub fn new(sep: &str) -> (r: Joiner)
        ensures
            r.wf(),
            r.entries@ == Seq::<Seq<char>>::empty(),
            r.sep@ == sep@,
    {
        Joiner { buf: String::new(), sep: sep.to_owned(), has_first: false, entries: Ghost(Seq::empty()) }
    }

    /// Appends one entry, preceded by the separator when it is not the first.
    pub fn entry(&mut self, entry: &str)
        requires
            old(self).wf(),
        ensures
            final(self).wf(),
            final(self).entries@ == old(self).entries@.push(entry@),
            final(self).sep@ == old(self).sep@,
    {
        let ghost es = self.entries@;
        if self.has_first {
            let sep = self.sep.clone();
            self.buf.append(sep.as_str());
        } else {
            self.has_first = true;
        }
        self.buf.append(entry);
        proof {
            self.entries@ = es.push(entry@);
            let es2 = es.push(entry@);
            if es.len() == 0 {
                assert(es2[0] == entry@);
                assert(self.buf@ =~= entry@);
            } else {
                assert(es2.drop_last() =~= es);
                assert(es2.last() == entry@);
            }
        }
    }

    /// The joined text.
    pub fn finish(self) -> (r: String)
        requires
            self.wf(),
        ensures
            r@ == join_with(self.entries@, self.sep@),
    {
        self.buf
    }
}

/// Joins the items with the separator.
pub(crate) fn join_list(items: &Vec<String>, sep: &str) -> (r: String)
    ensures
        r@ == join_with(texts_of(items@), sep@),
{
    let mut j = Joiner::new(sep);
    proof {
        assert(texts_of(items@.take(0)) =~= Seq::<Seq<char>>::empty());
    }
    let mut i: usize = 0;
    while i < items.len()
        invariant
            i <= items@.len(),
            j.wf(),
            j.sep@ == sep@,
            j.entries@ == texts_of(items@.take(i as int)),
        decreases items@.len() - i,
    {
        j.entry(items[i].as_str());
        proof {
            assert(items@.take(i + 1).drop_last() =~= items@.take(i as int));
            assert(texts_of(items@.take(i + 1)) =~= texts_of(items@.take(i as int)).push(
                items@[i as int]@,
            ));
        }
        i = i + 1;
    }
    proof {
        assert(items@.take(items@.len() as int) =~= items@);
    }
    j.finish()
}

/// The text wrapped in the bold-blue escape pair.
pub open spec fn blue_wrap(t: Seq<char>) -> Seq<char> {
    "\u{1b}[34;1m"@ + t + "\u{1b}[0m"@
}

/// The text wrapped in the bold escape pair.
pub open spec fn bold_wrap(t: Seq<char>) -> Seq<char> {
    "\u{1b}[0;1m"@ + t + "\u{1b}[0m"@
}

/// The text preceded by the dim-green escape, left unterminated.
pub open spec fn comment_start_wrap(t: Seq<char>) -> Seq<char> {
    "\u{1b}[32;2m"@ + t
}

/// The text preceded by the dim-green escape and followed by the reset.
pub open spec fn comment_end_wrap(t: Seq<char>) -> Seq<char> {
    "\u{1b}[32;2m"@ + t + "\u{1b}[0m"@
}

/// One keyword row of the colorization table: the uppercase spelling, then
/// the lowercase spelling, each replaced by its blue-wrapped form.
pub open spec fn blue_pair(s: Seq<char>, up: Seq<char>, low: Seq<char>) -> Seq<char> {
    replace_spec(replace_spec(s, up, blue_wrap(up)), low, blue_wrap(low))
}

/// One comment-start row: the token substituted twice, as the fixed table
/// lists the same spelling for both casings.
pub open spec fn comment_start_pair(s: Seq<char>, p: Seq<char>) -> Seq<char> {
    replace_spec(replace_spec(s, p, comment_start_wrap(p)), p, comment_start_wrap(p))
}

/// One comment-end row: the token substituted twice, as the fixed table
/// lists the same spelling for both casings.
pub open spec fn comment_end_pair(s: Seq<char>, p: Seq<char>) -> Seq<char> {
    replace_spec(replace_spec(s, p, comment_end_wrap(p)), p, comment_end_wrap(p))
}

/// One numbered-placeholder row: the placeholder replaced by its bold form.
pub open spec fn bold_arg(s: Seq<char>, a: Seq<char>) -> Seq<char> {
    replace_spec(s, a, bold_wrap(a))
}

fn blue(text: &str) -> (r: String)
    ensures
        r@ == blue_wrap(text@),
{
    let mut s = "\u{1b}[34;1m".to_owned();
    s.append(text);
    s.append("\u{1b}[0m");
    s
}

fn bold(text: &str) -> (r: String)
    ensures
        r@ == bold_wrap(text@),
{
    let mut s = "\u{1b}[0;1m".to_owned();
    s.append(text);
    s.append("\u{1b}[0m");
    s
}

fn comment_start(text: &str) -> (r: String)
    ensures
        r@ == comment_start_wrap(text@),
{
    let mut s = "\u{1b}[32;2m".to_owned();
    s.append(text);
    s
}

fn comment_end(text: &str) -> (r: String)
    ensures
        r@ == comment_end_wrap(text@),
{
    let mut s = "\u{1b}[32;2m".to_owned();
    s.append(text);
    s.append("\u{1b}[0m");
    s
}

fn blue_pair_str(q: String, up: &str, low: &str) -> (r: String)
    ensures
        r@ == blue_pair(q@, up@, low@),
{
    let bu = blue(up);
    let q1 = replace_str(q.as_str(), up, bu.as_str());
    let bl = blue(low);
    replace_str(q1.as_str(), low, bl.as_str())
}

fn comment_start_pair_str(q: String, p: &str) -> (r: String)
    ensures
        r@ == comment_start_pair(q@, p@),
{
    let w = comment_start(p);
    let q1 = replace_str(q.as_str(), p, w.as_str());
    replace_str(q1.as_str(), p, w.as_str())
}

fn comment_end_pair_str(q: String, p: &str) -> (r: String)
    ensures
        r@ == comment_end_pair(q@, p@),
{
    let w = comment_end(p);
    let q1 = replace_str(q.as_str(), p, w.as_str());
    replace_str(q1.as_str(), p, w.as_str())
}

fn bold_arg_str(q: String, a: &str) -> (r: String)
    ensures
        r@ == bold_arg(q@, a@),
{
    let w = bold(a);
    replace_str(q.as_str(), a, w.as_str())
}

/// The full colorization pass over finished statement text: every keyword row
/// of the fixed table, upper and lower spelling, wrapped blue; the comment
/// tokens wrapped green; the placeholders `$1` through `$10` wrapped bold.
pub open spec fn colorize_spec(q: Seq<char>) -> Seq<char> {
    let q = blue_pair(q, "AND "@, "and "@);
    let q = blue_pair(q, "CROSS "@, "cross "@);
    let q = blue_pair(q, "DELETE "@, "delete "@);
    let q = blue_pair(q, "EXCEPT "@, "except "@);
    let q = blue_pair(q, "FROM "@, "from "@);
    let q = blue_pair(q, "FULL "@, "full "@);
    let q = blue_pair(q, "GROUP "@, "group "@);
    let q = blue_pair(q, "HAVING "@, "having "@);
    let q = blue_pair(q, "INNER "@, "inner "@);
    let q = blue_pair(q, "INSERT "@, "insert "@);
    let q = blue_pair(q, "INTERSECT "@, "intersect "@);
    let q = blue_pair(q, "INTO "@, "into "@);
    let q = blue_pair(q, "JOIN "@, "join "@);
    let q = blue_pair(q, "LEFT "@, "left "@);
    let q = blue_pair(q, "LIMIT "@, "limit "@);
    let q = blue_pair(q, "OFFSET "@, "offset "@);
    let q = blue_pair(q, "ORDER "@, "order "@);
    let q = blue_pair(q, "OVERRIDING "@, "overriding "@);
    let q = blue_pair(q, "RETURNING "@, "returning "@);
    let q = blue_pair(q, "RIGHT "@, "right "@);
    let q = blue_pair(q, "SELECT "@, "select "@);
    let q = blue_pair(q, "SET "@, "set "@);
    let q = blue_pair(q, "UNION "@, "union "@);
    let q = blue_pair(q, "UPDATE "@, "update "@);
    let q = blue_pair(q, "VALUES "@, "values "@);
    let q = blue_pair(q, "WHERE "@, "where "@);
    let q = blue_pair(q, "WITH "@, "with "@);
    let q = blue_pair(q, " ALL"@, " all"@);
    let q = blue_pair(q, " ASC"@, " asc"@);
    let q = blue_pair(q, " AS"@, " as"@);
    let q = blue_pair(q, " BY"@, " by"@);
    let q = blue_pair(q, " CONFLICT"@, " CONFLICT"@);
    let q = blue_pair(q, " DESC"@, " desc"@);
    let q = blue_pair(q, " DO"@, " do"@);
    let q = blue_pair(q, " DISTINCT"@, " distinct"@);
    let q = blue_pair(q, " FIRST"@, " first"@);
    let q = blue_pair(q, " IN"@, " in"@);
    let q = blue_pair(q, " LAST"@, " last"@);
    let q = blue_pair(q, " NOTHING"@, " nothing"@);
    let q = blue_pair(q, " ON"@, " on"@);
    let q = blue_pair(q, " OR"@, " or"@);
    let q = blue_pair(q, " OUTER"@, " OUTER"@);
    let q = blue_pair(q, " USING"@, " using"@);
    let q = comment_start_pair(q, "--"@);
    let q = comment_start_pair(q, "/*"@);
    let q = comment_end_pair(q, "*/"@);
    let q = bold_arg(q, "$1"@);
    let q = bold_arg(q, "$2"@);
    let q = bold_arg(q, "$3"@);
    let q = bold_arg(q, "$4"@);
    let q = bold_arg(q, "$5"@);
    let q = bold_arg(q, "$6"@);
    let q = bold_arg(q, "$7"@);
    let q = bold_arg(q, "$8"@);
    let q = bold_arg(q, "$9"@);
    let q = bold_arg(q, "$10"@);
    q
}

/// Applies the keyword colorization pass to finished statement text.
pub fn colorize(query: String) -> (r: String)
    ensures
        r@ == colorize_spec(query@),
{
    let q = blue_pair_str(query, "AND ", "and ");
    let q = blue_pair_str(q, "CROSS ", "cross ");
    let q = blue_pair_str(q, "DELETE ", "delete ");
    let q = blue_pair_str(q, "EXCEPT ", "except ");
    let q = blue_pair_str(q, "FROM ", "from ");
    let q = blue_pair_str(q, "FULL ", "full ");
    let q = blue_pair_str(q, "GROUP ", "group ");
    let q = blue_pair_str(q, "HAVING ", "having ");
    let q = blue_pair_str(q, "INNER ", "inner ");
    let q = blue_pair_str(q, "INSERT ", "insert ");
    let q = blue_pair_str(q, "INTERSECT ", "intersect ");
    let q = blue_pair_str(q, "INTO ", "into ");
    let q = blue_pair_str(q, "JOIN ", "join ");
    let q = blue_pair_str(q, "LEFT ", "left ");
    let q = blue_pair_str(q, "LIMIT ", "limit ");
    let q = blue_pair_str(q, "OFFSET ", "offset ");
    let q = blue_pair_str(q, "ORDER ", "order ");
    let q = blue_pair_str(q, "OVERRIDING ", "overriding ");
    let q = blue_pair_str(q, "RETURNING ", "returning ");
    let q = blue_pair_str(q, "RIGHT ", "right ");
    let q = blue_pair_str(q, "SELECT ", "select ");
    let q = blue_pair_str(q, "SET ", "set ");
    let q = blue_pair_str(q, "UNION ", "union ");
    let q = blue_pair_str(q, "UPDATE ", "update ");
    let q = blue_pair_str(q, "VALUES ", "values ");
    let q = blue_pair_str(q, "WHERE ", "where ");
    let q = blue_pair_str(q, "WITH ", "with ");
    let q = blue_pair_str(q, " ALL", " all");
    let q = blue_pair_str(q, " ASC", " asc");
    let q = blue_pair_str(q, " AS", " as");
    let q = blue_pair_str(q, " BY", " by");
    let q = blue_pair_str(q, " CONFLICT", " CONFLICT");
    let q = blue_pair_str(q, " DESC", " desc");
    let q = blue_pair_str(q, " DO", " do");
    let q = blue_pair_str(q, " DISTINCT", " distinct");
    let q = blue_pair_str(q, " FIRST", " first");
    let q = blue_pair_str(q, " IN", " in");
    let q = blue_pair_str(q, " LAST", " last");
    let q = blue_pair_str(q, " NOTHING", " nothing");
    let q = blue_pair_str(q, " ON", " on");
    let q = blue_pair_str(q, " OR", " or");
    let q = blue_pair_str(q, " OUTER", " OUTER");
    let q = blue_pair_str(q, " USING", " using");
    let q = comment_start_pair_str(q, "--");
    let q = comment_start_pair_str(q, "/*");
    let q = comment_end_pair_str(q, "*/");
    let q = bold_arg_str(q, "$1");
    let q = bold_arg_str(q, "$2");
    let q = bold_arg_str(q, "$3");
    let q = bold_arg_str(q, "$4");
    let q = bold_arg_str(q, "$5");
    let q = bold_arg_str(q, "$6");
    let q = bold_arg_str(q, "$7");
    let q = bold_arg_str(q, "$8");
    let q = bold_arg_str(q, "$9");
    let q = bold_arg_str(q, "$10");
    q
}

/// The statement text framed by line breaks and horizontal rules as the
/// policy directs, then colorized.
pub fn format(query: String, fmts: &Format) -> (r: String)
    ensures
        r@ == colorize_spec(
            fmts.lb@ + fmts.hr@ + fmts.lb@ + query@ + fmts.lb@ + fmts.hr@ + fmts.lb@,
        ),
{
    let mut template = fmts.lb.clone();
    template.append(fmts.hr.as_str());
    template.append(fmts.lb.as_str());
    template.append(query.as_str());
    template.append(fmts.lb.as_str());
    template.append(fmts.hr.as_str());
    template.append(fmts.lb.as_str());
    colorize(template)
}

} // verus!
