//! The diagnostic model: immutable findings that a rule hands back to the
//! driver, each carrying a rule identifier, a message and one or more
//! labeled source ranges.

use vstd::prelude::*;
use crate::ast::SourceRange;

verus! {

/// The mathematical value of a [`Label`].
pub struct LabelView {
    pub range: SourceRange,
    pub annotation: Option<Seq<char>>,
}

/// A source range together with an optional annotation text.
#[derive(Debug)]
pub struct Label {
    pub range: SourceRange,
    pub annotation: Option<String>,
}

impl View for Label {
    type V = LabelView;

    open spec fn view(&self) -> LabelView {
        LabelView {
            range: self.range,
            annotation: match self.annotation {
                Option::Some(s) => Option::Some(s@),
                Option::None => Option::None,
            },
        }
    }
}

impl Label {
    /// Wraps a source range with no annotation text.
    pub fn new(range: SourceRange) -> (r: Label)
        ensures
            r@ == (LabelView { range, annotation: Option::None }),
    {
        Label { range, annotation: Option::None }
    }

    /// Structural equality on the label's value.
    fn eq_impl(&self, other: &Label) -> (r: bool)
        ensures
            r == (self@ == other@),
    {
        let ranges_eq = self.range == other.range;
        let annotations_eq = match (&self.annotation, &other.annotation) {
            (Option::Some(a), Option::Some(b)) => *a == *b,
            (Option::None, Option::None) => true,
            _ => false,
        };
        ranges_eq && annotations_eq
    }
}

impl PartialEq for Label {
    fn eq(&self, other: &Label) -> (r: bool) {
        self.eq_impl(other)
    }
}

impl Eq for Label {}

impl vstd::std_specs::cmp::PartialEqSpecImpl for Label {
    open spec fn obeys_eq_spec() -> bool {
        true
    }

    open spec fn eq_spec(&self, other: &Label) -> bool {
        self@ == other@
    }
}

/// The mathematical value of a [`Diagnostic`].
pub struct DiagnosticView {
    pub rule_id: Seq<char>,
    pub message: Seq<char>,
    pub labels: Seq<LabelView>,
}

/// A single finding reported by a rule: which rule fired, a human-readable
/// message, and the labeled source ranges it points at. Diagnostics are
/// created once per detected violation and never mutated afterwards; the
/// order of labels is significant and preserved.
#[derive(Debug)]
pub struct Diagnostic {
    pub rule_id: String,
    pub message: String,
    pub labels: Vec<Label>,
}

impl View for Diagnostic {
    type V = DiagnosticView;

    open spec fn view(&self) -> DiagnosticView {
        DiagnosticView {
            rule_id: self.rule_id@,
            message: self.message@,
            labels: self.labels@.map_values(|l: Label| l@),
        }
    }
}

impl Diagnostic {
    /// Builds a diagnostic with a single label. Pure constructor: the caller
    /// is trusted to pass a non-empty rule identifier.
    pub fn new(rule_id: &str, message: String, label: Label) -> (r: Diagnostic)
        ensures
            r@ == (DiagnosticView {
                rule_id: rule_id@,
                message: message@,
                labels: seq![label@],
            }),
    {
        let r = Diagnostic { rule_id: rule_id.to_owned(), message, labels: vec![label] };
        proof {
            assert(r.labels@.map_values(|l: Label| l@) =~= seq![label@]);
        }
        r
    }

    /// Structural equality on the diagnostic's value: no field is ignored.
    fn eq_impl(&self, other: &Diagnostic) -> (r: bool)
        ensures
            r == (self@ == other@),
    {
        if !(self.rule_id == other.rule_id) {
            proof {
                assert(self@ != other@);
            }
            return false;
        }
        if !(self.message == other.message) {
            proof {
                assert(self@ != other@);
            }
            return false;
        }
        if self.labels.len() != other.labels.len() {
            proof {
                assert(self@.labels.len() != other@.labels.len());
            }
            return false;
        }
        let n = self.labels.len();
        let mut i: usize = 0;
        while i < n
            invariant
                i <= n,
                n == self.labels.len(),
                n == other.labels.len(),
                forall|j: int| 0 <= j < i ==> self.labels@[j]@ == other.labels@[j]@,
            decreases n - i,
        {
            if !(self.labels[i] == other.labels[i]) {
                proof {
                    assert(self@.labels[i as int] != other@.labels[i as int]);
                }
                return false;
            }
            i += 1;
        }
        proof {
            assert(self@.labels =~= other@.labels);
        }
        true
    }
}

impl PartialEq for Diagnostic {
    fn eq(&self, other: &Diagnostic) -> (r: bool) {
        self.eq_impl(other)
    }
}

impl Eq for Diagnostic {}

impl vstd::std_specs::cmp::PartialEqSpecImpl for Diagnostic {
    open spec fn obeys_eq_spec() -> bool {
        true
    }

    open spec fn eq_spec(&self, other: &Diagnostic) -> bool {
        self@ == other@
    }
}

} // verus!
