//! The validation report: a structured, field-keyed collection of rule
//! violations, together with its plain-text and JSON renderings.

use vstd::prelude::*;
use vstd::string::StringExecFns;
use crate::text::appears_in;
use crate::text::append_escaped;
use crate::text::json_escape;
use crate::text::lemma_appears_at;
use crate::text::lemma_appears_in_concat_left;
use crate::text::lemma_appears_in_concat_right;

verus! {

/// A single rule violation: the field it concerns and the code of the
/// violated rule.
#[derive(Debug, Clone, PartialEq, Eq)]
pub struct Violation {
    /// Name of the field whose rule was violated.
    pub field: String,
    /// Code of the violated rule.
    pub code: String,
}

impl View for Violation {
    type V = (Seq<char>, Seq<char>);

    open spec fn view(&self) -> (Seq<char>, Seq<char>) {
        (self.field@, self.code@)
    }
}

/// One line of the plain-text rendering of a report.
pub open spec fn line_of(v: (Seq<char>, Seq<char>)) -> Seq<char> {
    v.0 + ": "@ + v.1 + "\n"@
}

/// The plain-text rendering of a report: one `field: code` line per
/// violation.
pub open spec fn text_of(entries: Seq<(Seq<char>, Seq<char>)>) -> Seq<char>
    decreases entries.len(),
{
    if entries.len() == 0 {
        Seq::empty()
    } else {
        text_of(entries.drop_last()) + line_of(entries.last())
    }
}

/// One element of the JSON rendering of a report.
pub open spec fn json_item_of(v: (Seq<char>, Seq<char>)) -> Seq<char> {
    "{\"field\":\""@ + json_escape(v.0) + "\",\"code\":\""@ + json_escape(v.1) + "\"}"@
}

/// The comma-separated elements of the JSON rendering of a report.
pub open spec fn json_items_of(entries: Seq<(Seq<char>, Seq<char>)>) -> Seq<char>
    decreases entries.len(),
{
    if entries.len() == 0 {
        Seq::empty()
    } else if entries.len() == 1 {
        json_item_of(entries.last())
    } else {
        json_items_of(entries.drop_last()) + ","@ + json_item_of(entries.last())
    }
}

/// The JSON rendering of a report: an array of objects, one per violation.
pub open spec fn json_of(entries: Seq<(Seq<char>, Seq<char>)>) -> Seq<char> {
    "["@ + json_items_of(entries) + "]"@
}

/// Law: the plain-text rendering of a report names the field of every
/// violation the report holds — all violated field names, not just the first.
pub proof fn lemma_text_lists_every_field(entries: Seq<(Seq<char>, Seq<char>)>, i: int)
    requires
        0 <= i < entries.len(),
    ensures
        appears_in(entries[i].0, text_of(entries)),
    decreases entries.len(),
{
    let field = entries[i].0;
    if i == entries.len() - 1 {
        assert(line_of(entries.last()).subrange(0, field.len() as int) =~= field);
        lemma_appears_at(field, line_of(entries.last()), 0);
        lemma_appears_in_concat_right(field, text_of(entries.drop_last()), line_of(entries.last()));
    } else {
        lemma_text_lists_every_field(entries.drop_last(), i);
        assert(entries.drop_last()[i] == entries[i]);
        lemma_appears_in_concat_left(field, text_of(entries.drop_last()), line_of(entries.last()));
    }
}

/// The escaped field name appears in a JSON item, right after the opening of
/// its `field` member.
proof fn lemma_json_item_names_field(v: (Seq<char>, Seq<char>))
    ensures
        appears_in(json_escape(v.0), json_item_of(v)),
{
    reveal_strlit("{\"field\":\"");
    let lit = "{\"field\":\""@;
    let esc = json_escape(v.0);
    assert(json_item_of(v).subrange(lit.len() as int, lit.len() + esc.len() as int) =~= esc);
    lemma_appears_at(esc, json_item_of(v), lit.len() as int);
}

/// Law: the JSON rendering of a report names the field of every violation
/// the report holds — all violated field names, not just the first.
pub proof fn lemma_json_lists_every_field(entries: Seq<(Seq<char>, Seq<char>)>, i: int)
    requires
        0 <= i < entries.len(),
    ensures
        appears_in(json_escape(entries[i].0), json_of(entries)),
    decreases entries.len(),
{
    let esc = json_escape(entries[i].0);
    assert(appears_in(esc, json_items_of(entries))) by {
        lemma_json_items_list_every_field(entries, i);
    }
    lemma_appears_in_concat_left(esc, json_items_of(entries), "]"@);
    lemma_appears_in_concat_right(esc, "["@, json_items_of(entries) + "]"@);
    assert("["@ + (json_items_of(entries) + "]"@) =~= json_of(entries));
}

proof fn lemma_json_items_list_every_field(entries: Seq<(Seq<char>, Seq<char>)>, i: int)
    requires
        0 <= i < entries.len(),
    ensures
        appears_in(json_escape(entries[i].0), json_items_of(entries)),
    decreases entries.len(),
{
    let esc = json_escape(entries[i].0);
    if i == entries.len() - 1 {
        lemma_json_item_names_field(entries[i]);
        if entries.len() > 1 {
            lemma_appears_in_concat_right(
                esc,
                json_items_of(entries.drop_last()) + ","@,
                json_item_of(entries.last()),
            );
            assert((json_items_of(entries.drop_last()) + ","@) + json_item_of(entries.last())
                =~= json_items_of(entries));
        }
    } else {
        lemma_json_items_list_every_field(entries.drop_last(), i);
        assert(entries.drop_last()[i] == entries[i]);
        lemma_appears_in_concat_left(esc, json_items_of(entries.drop_last()), ","@);
        lemma_appears_in_concat_left(
            esc,
            json_items_of(entries.drop_last()) + ","@,
            json_item_of(entries.last()),
        );
        assert((json_items_of(entries.drop_last()) + ","@) + json_item_of(entries.last())
            =~= json_items_of(entries));
    }
}

/// A validation report: the violations found in one validation pass,
/// aggregated and keyed by field name.
#[derive(Debug, Clone, PartialEq, Eq)]
pub struct Report {
    entries: Vec<Violation>,
}

impl View for Report {
    type V = Seq<(Seq<char>, Seq<char>)>;

    closed spec fn view(&self) -> Seq<(Seq<char>, Seq<char>)> {
        self.entries@.map_values(|v: Violation| v@)
    }
}

impl Report {
    /// An empty report.
    pub fn new() -> (r: Report)
        ensures
            r@ =~= Seq::<(Seq<char>, Seq<char>)>::empty(),
    {
        Report { entries: Vec::new() }
    }

    /// Records that the rule `code` was violated on the field `field`.
    pub fn add(&mut self, field: &str, code: &str)
        ensures
            final(self)@ =~= old(self)@.push((field@, code@)),
    {
        self.entries.push(Violation { field: field.to_owned(), code: code.to_owned() });
    }

    /// The number of violations in the report.
    pub fn len(&self) -> (r: usize)
        ensures
            r == self@.len(),
    {
        self.entries.len()
    }

    /// Whether the report holds no violation.
    pub fn is_empty(&self) -> (r: bool)
        ensures
            r == (self@.len() == 0),
    {
        self.entries.len() == 0
    }

    /// The violation at position `i`.
    pub fn get(&self, i: usize) -> (r: &Violation)
        requires
            i < self@.len(),
        ensures
            r@ == self@[i as int],
    {
        &self.entries[i]
    }

    /// The plain-text rendering of the report, one `field: code` line per
    /// violation.
    #[verifier::loop_isolation(false)]
    pub fn render(&self) -> (r: String)
        ensures
            r@ == text_of(self@),
    {
        let mut out = String::new();
        let n = self.entries.len();
        let mut i: usize = 0;
        proof {
            assert(out@ =~= text_of(self@.take(0)));
        }
        while i < n
            invariant
                0 <= i <= n,
                n == self@.len(),
                out@ == text_of(self@.take(i as int)),
            decreases n - i,
        {
            proof {
                assert(self@.take(i + 1).drop_last() =~= self@.take(i as int));
                assert(self@.take(i + 1).last() == self@[i as int]);
            }
            out.append(self.entries[i].field.as_str());
            out.append(": ");
            out.append(self.entries[i].code.as_str());
            out.append("\n");
            proof {
                assert(out@ =~= text_of(self@.take(i + 1)));
            }
            i += 1;
        }
        proof {
            assert(self@.take(n as int) =~= self@);
        }
        out
    }

    /// The JSON rendering of the report: an array of objects, one per
    /// violation, each with the field name and the violated rule's code.
    #[verifier::loop_isolation(false)]
    pub fn to_json(&self) -> (r: String)
        ensures
            r@ == json_of(self@),
    {
        let mut out = String::new();
        out.append("[");
        let n = self.entries.len();
        let mut i: usize = 0;
        proof {
            assert(out@ =~= "["@ + json_items_of(self@.take(0)));
        }
        while i < n
            invariant
                0 <= i <= n,
                n == self@.len(),
                out@ == "["@ + json_items_of(self@.take(i as int)),
            decreases n - i,
        {
            proof {
                assert(self@.take(i + 1).drop_last() =~= self@.take(i as int));
                assert(self@.take(i + 1).last() == self@[i as int]);
            }
            if i > 0 {
                out.append(",");
            }
            out.append("{\"field\":\"");
            append_escaped(&mut out, self.entries[i].field.as_str());
            out.append("\",\"code\":\"");
            append_escaped(&mut out, self.entries[i].code.as_str());
            out.append("\"}");
            proof {
                assert(out@ =~= "["@ + json_items_of(self@.take(i + 1)));
            }
            i += 1;
        }
        out.append("]");
        proof {
            assert(self@.take(n as int) =~= self@);
            assert(out@ =~= json_of(self@));
        }
        out
    }
}

} // verus!
