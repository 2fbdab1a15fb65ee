//! A suspicious pattern that a rule reports, shared by every output form.

use vstd::prelude::*;

use crate::text::views_of;

verus! {

/// A finding of a detection rule.
#[derive(Debug)]
pub struct Finding {
    /// Rule identifier, such as `UPG-001`.
    pub id: String,
    /// `HIGH`, `MEDIUM` or `LOW`: how urgently a person should look.
    pub severity: String,
    /// Short title.
    pub title: String,
    /// Why the pattern deserves review.
    pub description: String,
    /// The contract in which the pattern was found.
    pub contract_name: String,
    /// The function it concerns, where the rule is about one function.
    pub function_name: Option<String>,
    /// The facts the verdict was reached on, one text each.
    pub evidence: Vec<String>,
}

/// A finding as characters: what contracts state of a `Finding`.
#[verifier::ext_equal]
pub struct FindingView {
    pub id: Seq<char>,
    pub severity: Seq<char>,
    pub title: Seq<char>,
    pub description: Seq<char>,
    pub contract_name: Seq<char>,
    pub function_name: Option<Seq<char>>,
    pub evidence: Seq<Seq<char>>,
}

impl View for Finding {
    type V = FindingView;

    open spec fn view(&self) -> FindingView {
        FindingView {
            id: self.id@,
            severity: self.severity@,
            title: self.title@,
            description: self.description@,
            contract_name: self.contract_name@,
            function_name: match self.function_name {
                Some(f) => Some(f@),
                None => None,
            },
            evidence: views_of(self.evidence@),
        }
    }
}

/// The views of a sequence of findings.
pub open spec fn findings_view(fs: Seq<Finding>) -> Seq<FindingView> {
    fs.map_values(|f: Finding| f@)
}

} // verus!
