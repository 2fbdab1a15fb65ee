//! Properties of the rules that hold for every AST.

use vstd::prelude::*;

use crate::finding::FindingView;
use crate::model::{
    ContractDefinition, ContractNode, FunctionDefinition, ModifierInvocation, SourceUnitNode,
    Statement,
};
use crate::text::{normalized, trim_end, trim_start, trimmed, whitespace};
use crate::spec::{
    all_findings, disables_initializers, has_constructor, has_initializer_function_given,
    member_disables_initializers, member_is_constructor,
    any_marks_access_control, lowered_names, marks_access_control, modifier_name_of, modifier_names,
    upgrade_access_findings, visibility_text,
    contract_evidence, contract_findings, function_findings, has_initializer_function,
    initializer_findings, member_findings, member_initializer_given, member_name_keys, rule_findings,
    statement_findings, unit_findings, unlocked_findings, Rule,
};

verus! {

broadcast use vstd::seq_lib::group_seq_properties;

// ---------------------------------------------------------------------------
// Facts about `flat_map`

pub(crate) proof fn lemma_flat_map_concat<A, B>(a: Seq<A>, b: Seq<A>, f: spec_fn(A) -> Seq<B>)
    ensures
        (a + b).flat_map(f) == a.flat_map(f) + b.flat_map(f),
{
    assert((a + b).map_values(f) =~= a.map_values(f) + b.map_values(f));
    vstd::seq_lib::lemma_flatten_concat(a.map_values(f), b.map_values(f));
}

pub(crate) proof fn lemma_flat_map_member<A, B>(s: Seq<A>, f: spec_fn(A) -> Seq<B>, x: B)
    requires
        s.flat_map(f).contains(x),
    ensures
        exists|i: int| 0 <= i < s.len() && #[trigger] f(s[i]).contains(x),
    decreases s.len(),
{
    if s.len() == 0 {
        assert(s.flat_map(f) =~= Seq::<B>::empty());
    } else {
        let t = s.drop_last();
        assert(s == t.push(s.last()));
        t.lemma_flat_map_push(f, s.last());
        if t.flat_map(f).contains(x) {
            lemma_flat_map_member(t, f, x);
            let i = choose|i: int| 0 <= i < t.len() && #[trigger] f(t[i]).contains(x);
            assert(s[i] == t[i]);
        } else {
            assert(f(s[s.len() - 1]).contains(x));
        }
    }
}

pub(crate) proof fn lemma_flat_map_member_rev<A, B>(s: Seq<A>, f: spec_fn(A) -> Seq<B>, i: int, x: B)
    requires
        0 <= i < s.len(),
        f(s[i]).contains(x),
    ensures
        s.flat_map(f).contains(x),
{
    let pre = s.take(i);
    let post = s.skip(i + 1);
    assert(s =~= pre + seq![s[i]] + post);
    lemma_flat_map_concat(pre + seq![s[i]], post, f);
    lemma_flat_map_concat(pre, seq![s[i]], f);
    seq![s[i]].lemma_flat_map_singleton(f);
}

// ---------------------------------------------------------------------------
// The shape of every finding

/// The identifier of each rule.
pub open spec fn rule_id(rule: Rule) -> Seq<char> {
    match rule {
        Rule::InitializerExposure => "UPG-001"@,
        Rule::UnlockedImplementation => "UPG-002"@,
        Rule::UpgradeAccessControl => "UPG-003"@,
        Rule::LowLevelCall => "UPG-004"@,
        Rule::DestructiveCall => "UPG-005"@,
    }
}

/// A finding of `rule` in the contract named `contract`: it carries the rule's
/// identifier and a known severity, names the contract, names a function
/// exactly where the rule is about functions, and its evidence starts with the
/// contract.
pub open spec fn finding_shape(rule: Rule, contract: Seq<char>, x: FindingView) -> bool {
    &&& x.id == rule_id(rule)
    &&& x.severity == "HIGH"@ || x.severity == "MEDIUM"@ || x.severity == "LOW"@
    &&& x.contract_name == contract
    &&& (x.function_name is None <==> rule == Rule::UnlockedImplementation)
    &&& x.evidence.len() > 0
    &&& x.evidence[0] == contract_evidence(contract)
}

/// A top-level node that is a contract with the given name.
pub open spec fn is_contract_named(n: SourceUnitNode, name: Seq<char>) -> bool {
    match n {
        SourceUnitNode::ContractDefinition(c) => c.name@ == name,
        SourceUnitNode::Other => false,
    }
}

proof fn lemma_contract_finding_shape(rule: Rule, c: ContractDefinition, x: FindingView)
    requires
        contract_findings(rule, c).contains(x),
    ensures
        finding_shape(rule, c.name@, x),
{
    if rule == Rule::UnlockedImplementation {
        assert(x == unlocked_findings(c)[0]);
    } else {
        let g = |m: ContractNode| member_findings(rule, c.name@, m);
        lemma_flat_map_member(c.nodes@, g, x);
        let j = choose|j: int| 0 <= j < c.nodes@.len() && #[trigger] g(c.nodes@[j]).contains(x);
        match c.nodes@[j] {
            ContractNode::FunctionDefinition(f) => {
                if rule == Rule::LowLevelCall || rule == Rule::DestructiveCall {
                    let b = f.body->0;
                    let h = |s: Statement| statement_findings(rule, c.name@, f.name@, s);
                    assert(function_findings(rule, c.name@, f) == b.statements@.flat_map(h));
                    lemma_flat_map_member(b.statements@, h, x);
                    let k = choose|k: int|
                        0 <= k < b.statements@.len() && #[trigger] h(b.statements@[k]).contains(
                            x,
                        );
                    assert(x == h(b.statements@[k])[0]);
                } else {
                    assert(x == function_findings(rule, c.name@, f)[0]);
                }
            },
            ContractNode::Other => {},
        }
    }
}

/// Every finding of a rule carries that rule's identifier (`UPG-001` to
/// `UPG-005`) and a severity of `HIGH`, `MEDIUM` or `LOW`; it names a
/// contract of the source unit, and its evidence starts with
/// `Contract '<name>'`; it names a function for every rule but UPG-002, which
/// is about a whole contract.
pub proof fn law_findings_are_well_formed(rule: Rule, nodes: Seq<SourceUnitNode>, x: FindingView)
    requires
        rule_findings(rule, nodes).contains(x),
    ensures
        finding_shape(rule, x.contract_name, x),
        exists|i: int| 0 <= i < nodes.len() && #[trigger] is_contract_named(nodes[i], x.contract_name),
{
    let g = |n: SourceUnitNode| unit_findings(rule, n);
    lemma_flat_map_member(nodes, g, x);
    let i = choose|i: int| 0 <= i < nodes.len() && #[trigger] g(nodes[i]).contains(x);
    match nodes[i] {
        SourceUnitNode::ContractDefinition(c) => {
            lemma_contract_finding_shape(rule, c, x);
            assert(is_contract_named(nodes[i], x.contract_name));
        },
        SourceUnitNode::Other => {},
    }
}

/// The rules judge contract by contract: the findings for two runs of
/// top-level nodes one after the other are the findings for the first
/// followed by those for the second.
pub proof fn law_findings_compose(rule: Rule, a: Seq<SourceUnitNode>, b: Seq<SourceUnitNode>)
    ensures
        rule_findings(rule, a + b) == rule_findings(rule, a) + rule_findings(rule, b),
{
    lemma_flat_map_concat(a, b, |n: SourceUnitNode| unit_findings(rule, n));
}

/// Top-level nodes that are not contracts change no rule's findings.
pub proof fn law_other_nodes_are_ignored(
    rule: Rule,
    a: Seq<SourceUnitNode>,
    b: Seq<SourceUnitNode>,
)
    ensures
        rule_findings(rule, a + seq![SourceUnitNode::Other] + b) == rule_findings(rule, a + b),
{
    let g = |n: SourceUnitNode| unit_findings(rule, n);
    lemma_flat_map_concat(a + seq![SourceUnitNode::Other], b, g);
    lemma_flat_map_concat(a, seq![SourceUnitNode::Other], g);
    seq![SourceUnitNode::Other].lemma_flat_map_singleton(g);
    lemma_flat_map_concat(a, b, g);
    assert(rule_findings(rule, seq![SourceUnitNode::Other]) =~= Seq::<FindingView>::empty());
}

/// Every contract that UPG-002 reports as possibly unlocked also has a
/// function that UPG-001 reports: the lock is only missed where there is
/// an initializer to protect.
pub proof fn law_unlocked_implies_initializer_finding(
    nodes: Seq<SourceUnitNode>,
    x: FindingView,
)
    requires
        rule_findings(Rule::UnlockedImplementation, nodes).contains(x),
    ensures
        exists|y: FindingView|
            #[trigger] rule_findings(Rule::InitializerExposure, nodes).contains(y)
                && y.contract_name == x.contract_name,
{
    let g = |n: SourceUnitNode| unit_findings(Rule::UnlockedImplementation, n);
    lemma_flat_map_member(nodes, g, x);
    let i = choose|i: int| 0 <= i < nodes.len() && #[trigger] g(nodes[i]).contains(x);
    match nodes[i] {
        SourceUnitNode::ContractDefinition(c) => {
            assert(has_initializer_function(c));
            assert(x == unlocked_findings(c)[0]);
            let keys = member_name_keys(c.nodes@);
            let j = choose|j: int|
                0 <= j < c.nodes@.len() && #[trigger] member_initializer_given(
                    c.nodes@[j],
                    keys[j],
                );
            let f = c.nodes@[j]->FunctionDefinition_0;
            assert(keys[j] == normalized(f.name@));
            let y = initializer_findings(c.name@, f)[0];
            let h = |m: ContractNode| member_findings(Rule::InitializerExposure, c.name@, m);
            assert(h(c.nodes@[j]).contains(y)) by {
                assert(h(c.nodes@[j])[0] == y);
            }
            lemma_flat_map_member_rev(c.nodes@, h, j, y);
            let g1 = |n: SourceUnitNode| unit_findings(Rule::InitializerExposure, n);
            assert(g1(nodes[i]).contains(y));
            lemma_flat_map_member_rev(nodes, g1, i, y);
            assert(rule_findings(Rule::InitializerExposure, nodes).contains(y));
        },
        SourceUnitNode::Other => {},
    }
}

// ---------------------------------------------------------------------------
// Adding modifiers

/// `idx` places each item of `x` at a position of `y` that holds the same
/// item, the positions strictly increasing.
pub open spec fn embeds<K>(idx: Seq<int>, x: Seq<K>, y: Seq<K>) -> bool {
    &&& idx.len() == x.len()
    &&& forall|i: int, j: int| 0 <= i < j < idx.len() ==> #[trigger] idx[i] < #[trigger] idx[j]
    &&& forall|i: int| 0 <= i < idx.len() ==> 0 <= #[trigger] idx[i] < y.len() && x[i] == y[idx[i]]
}

/// `x` is `y` with some items left out.
pub open spec fn is_subsequence<K>(x: Seq<K>, y: Seq<K>) -> bool {
    exists|idx: Seq<int>| embeds(idx, x, y)
}

/// The contract and function each finding is about.
pub open spec fn finding_keys(fs: Seq<FindingView>) -> Seq<(Seq<char>, Option<Seq<char>>)> {
    fs.map_values(|x: FindingView| (x.contract_name, x.function_name))
}

proof fn lemma_subsequence_empty<K>(y: Seq<K>)
    ensures
        is_subsequence(Seq::<K>::empty(), y),
{
    assert(embeds(Seq::<int>::empty(), Seq::<K>::empty(), y));
}

proof fn lemma_subsequence_refl<K>(x: Seq<K>)
    ensures
        is_subsequence(x, x),
{
    let idx = Seq::new(x.len(), |i: int| i);
    assert(embeds(idx, x, x));
}

proof fn lemma_subsequence_concat<K>(x1: Seq<K>, y1: Seq<K>, x2: Seq<K>, y2: Seq<K>)
    requires
        is_subsequence(x1, y1),
        is_subsequence(x2, y2),
    ensures
        is_subsequence(x1 + x2, y1 + y2),
{
    let i1 = choose|idx: Seq<int>| embeds(idx, x1, y1);
    let i2 = choose|idx: Seq<int>| embeds(idx, x2, y2);
    let off = y1.len() as int;
    let idx = i1 + i2.map_values(|v: int| v + off);
    assert forall|i: int, j: int| 0 <= i < j < idx.len() implies #[trigger] idx[i] < #[trigger] idx[j] by {
        if j < i1.len() {
            assert(i1[i] < i1[j]);
        } else if i < i1.len() {
            assert(i1[i] < y1.len());
            assert(0 <= i2[j - i1.len()]);
        } else {
            assert(i2[i - i1.len()] < i2[j - i1.len()]);
        }
    }
    assert forall|i: int| 0 <= i < idx.len() implies 0 <= #[trigger] idx[i] < (y1 + y2).len() && (
    x1 + x2)[i] == (y1 + y2)[idx[i]] by {
        if i < i1.len() {
            assert(0 <= i1[i] < y1.len());
        } else {
            assert(0 <= i2[i - i1.len()] < y2.len());
        }
    }
    assert(embeds(idx, x1 + x2, y1 + y2));
}

proof fn lemma_subsequence_len<K>(x: Seq<K>, y: Seq<K>)
    requires
        is_subsequence(x, y),
    ensures
        x.len() <= y.len(),
{
    let idx = choose|idx: Seq<int>| embeds(idx, x, y);
    if x.len() > 0 {
        lemma_increasing_at_least_index(idx, x.len() - 1);
        assert(idx[x.len() - 1] < y.len());
    }
}

proof fn lemma_increasing_at_least_index(idx: Seq<int>, k: int)
    requires
        0 <= k < idx.len(),
        forall|i: int, j: int| 0 <= i < j < idx.len() ==> #[trigger] idx[i] < #[trigger] idx[j],
        forall|i: int| 0 <= i < idx.len() ==> 0 <= #[trigger] idx[i],
    ensures
        idx[k] >= k,
    decreases k,
{
    if k > 0 {
        lemma_increasing_at_least_index(idx, k - 1);
        assert(idx[k - 1] < idx[k]);
    }
}

proof fn lemma_flat_map_keys_subsequence<A>(
    a: Seq<A>,
    b: Seq<A>,
    fa: spec_fn(A) -> Seq<FindingView>,
    fb: spec_fn(A) -> Seq<FindingView>,
)
    requires
        a.len() == b.len(),
        forall|i: int|
            0 <= i < a.len() ==> #[trigger] is_subsequence(
                finding_keys(fb(b[i])),
                finding_keys(fa(a[i])),
            ),
    ensures
        is_subsequence(finding_keys(b.flat_map(fb)), finding_keys(a.flat_map(fa))),
    decreases a.len(),
{
    if a.len() == 0 {
        assert(a.flat_map(fa) =~= Seq::<FindingView>::empty());
        assert(b.flat_map(fb) =~= Seq::<FindingView>::empty());
        lemma_subsequence_empty(finding_keys(a.flat_map(fa)));
        assert(finding_keys(b.flat_map(fb)) =~= Seq::empty());
    } else {
        let a2 = a.drop_last();
        let b2 = b.drop_last();
        assert forall|i: int| 0 <= i < a2.len() implies #[trigger] is_subsequence(
            finding_keys(fb(b2[i])),
            finding_keys(fa(a2[i])),
        ) by {
            assert(a2[i] == a[i] && b2[i] == b[i]);
            assert(is_subsequence(finding_keys(fb(b[i])), finding_keys(fa(a[i]))));
        }
        lemma_flat_map_keys_subsequence(a2, b2, fa, fb);
        assert(a == a2.push(a.last()));
        assert(b == b2.push(b.last()));
        a2.lemma_flat_map_push(fa, a.last());
        b2.lemma_flat_map_push(fb, b.last());
        let last = a.len() - 1;
        assert(is_subsequence(finding_keys(fb(b[last])), finding_keys(fa(a[last]))));
        lemma_subsequence_concat(
            finding_keys(b2.flat_map(fb)),
            finding_keys(a2.flat_map(fa)),
            finding_keys(fb(b.last())),
            finding_keys(fa(a.last())),
        );
        assert(finding_keys(a.flat_map(fa)) =~= finding_keys(a2.flat_map(fa)) + finding_keys(
            fa(a.last()),
        ));
        assert(finding_keys(b.flat_map(fb)) =~= finding_keys(b2.flat_map(fb)) + finding_keys(
            fb(b.last()),
        ));
    }
}

/// `f1` is `f0` with modifiers added: the same name and visibility, and every
/// modifier of `f0` among those of `f1`. Its kind and body may differ.
pub open spec fn adds_modifiers_to_function(f0: FunctionDefinition, f1: FunctionDefinition) -> bool {
    &&& f1.name@ == f0.name@
    &&& visibility_text(f1.visibility) == visibility_text(f0.visibility)
    &&& forall|k: int|
        0 <= k < f0.modifiers@.len() ==> f1.modifiers@.contains(#[trigger] f0.modifiers@[k])
}

/// `m1` is `m0`, or, where both are functions, `m0` with modifiers added.
pub open spec fn adds_modifiers_to_member(m0: ContractNode, m1: ContractNode) -> bool {
    match m0 {
        ContractNode::FunctionDefinition(f0) => match m1 {
            ContractNode::FunctionDefinition(f1) => adds_modifiers_to_function(f0, f1),
            ContractNode::Other => false,
        },
        ContractNode::Other => m1 is Other,
    }
}

/// `u1` is `u0` with modifiers added to some of its functions.
pub open spec fn adds_modifiers_to_unit(u0: SourceUnitNode, u1: SourceUnitNode) -> bool {
    match u0 {
        SourceUnitNode::ContractDefinition(c0) => match u1 {
            SourceUnitNode::ContractDefinition(c1) => {
                &&& c1.name@ == c0.name@
                &&& c1.nodes@.len() == c0.nodes@.len()
                &&& forall|j: int|
                    0 <= j < c0.nodes@.len() ==> #[trigger] adds_modifiers_to_member(
                        c0.nodes@[j],
                        c1.nodes@[j],
                    )
            },
            SourceUnitNode::Other => false,
        },
        SourceUnitNode::Other => u1 is Other,
    }
}

/// `b` is the source unit `a` with modifiers added to some of its functions.
pub open spec fn adds_modifiers(a: Seq<SourceUnitNode>, b: Seq<SourceUnitNode>) -> bool {
    &&& b.len() == a.len()
    &&& forall|i: int| 0 <= i < a.len() ==> #[trigger] adds_modifiers_to_unit(a[i], b[i])
}

proof fn lemma_modifier_name_kept(f0: FunctionDefinition, f1: FunctionDefinition, i: int)
    requires
        adds_modifiers_to_function(f0, f1),
        0 <= i < modifier_names(f0.modifiers@).len(),
    ensures
        modifier_names(f1.modifiers@).contains(modifier_names(f0.modifiers@)[i]),
{
    let g = |m: ModifierInvocation| modifier_name_of(m);
    let name = modifier_names(f0.modifiers@)[i];
    assert(f0.modifiers@.flat_map(g).contains(name));
    lemma_flat_map_member(f0.modifiers@, g, name);
    let k = choose|k: int| 0 <= k < f0.modifiers@.len() && #[trigger] g(f0.modifiers@[k]).contains(name);
    assert(f1.modifiers@.contains(f0.modifiers@[k]));
    let k1 = choose|k1: int| 0 <= k1 < f1.modifiers@.len() && f1.modifiers@[k1] == f0.modifiers@[k];
    lemma_flat_map_member_rev(f1.modifiers@, g, k1, name);
}

proof fn lemma_upgrade_function_adds_modifiers(
    contract: Seq<char>,
    f0: FunctionDefinition,
    f1: FunctionDefinition,
)
    requires
        adds_modifiers_to_function(f0, f1),
    ensures
        is_subsequence(
            finding_keys(upgrade_access_findings(contract, f1)),
            finding_keys(upgrade_access_findings(contract, f0)),
        ),
{
    let found1 = upgrade_access_findings(contract, f1);
    let found0 = upgrade_access_findings(contract, f0);
    if found1.len() == 0 {
        assert(finding_keys(found1) =~= Seq::empty());
        lemma_subsequence_empty(finding_keys(found0));
    } else {
        let names0 = modifier_names(f0.modifiers@);
        let names1 = modifier_names(f1.modifiers@);
        let low0 = lowered_names(names0);
        let low1 = lowered_names(names1);
        assert(!any_marks_access_control(low1));
        assert(!any_marks_access_control(low0)) by {
            if any_marks_access_control(low0) {
                let i = choose|i: int| 0 <= i < low0.len() && #[trigger] marks_access_control(low0[i]);
                lemma_modifier_name_kept(f0, f1, i);
                let k = choose|k: int| 0 <= k < names1.len() && names1[k] == names0[i];
                assert(marks_access_control(low1[k]));
            }
        }
        assert(found0.len() == 1);
        assert(finding_keys(found1) =~= finding_keys(found0));
        lemma_subsequence_refl(finding_keys(found0));
    }
}

/// Adding modifiers to functions never adds a UPG-003 finding: every function
/// reported after the change was reported before, in the same order.
pub proof fn law_added_modifiers_add_no_upgrade_finding(
    a: Seq<SourceUnitNode>,
    b: Seq<SourceUnitNode>,
)
    requires
        adds_modifiers(a, b),
    ensures
        is_subsequence(
            finding_keys(rule_findings(Rule::UpgradeAccessControl, b)),
            finding_keys(rule_findings(Rule::UpgradeAccessControl, a)),
        ),
        rule_findings(Rule::UpgradeAccessControl, b).len() <= rule_findings(
            Rule::UpgradeAccessControl,
            a,
        ).len(),
{
    let rule = Rule::UpgradeAccessControl;
    let g = |n: SourceUnitNode| unit_findings(rule, n);
    assert forall|i: int| 0 <= i < a.len() implies #[trigger] is_subsequence(
        finding_keys(g(b[i])),
        finding_keys(g(a[i])),
    ) by {
        assert(adds_modifiers_to_unit(a[i], b[i]));
        match a[i] {
            SourceUnitNode::ContractDefinition(c0) => {
                let c1 = b[i]->ContractDefinition_0;
                let h0 = |m: ContractNode| member_findings(rule, c0.name@, m);
                let h1 = |m: ContractNode| member_findings(rule, c1.name@, m);
                assert forall|j: int| 0 <= j < c0.nodes@.len() implies #[trigger] is_subsequence(
                    finding_keys(h1(c1.nodes@[j])),
                    finding_keys(h0(c0.nodes@[j])),
                ) by {
                    assert(adds_modifiers_to_member(c0.nodes@[j], c1.nodes@[j]));
                    match c0.nodes@[j] {
                        ContractNode::FunctionDefinition(f0) => {
                            let f1 = c1.nodes@[j]->FunctionDefinition_0;
                            lemma_upgrade_function_adds_modifiers(c0.name@, f0, f1);
                        },
                        ContractNode::Other => {
                            assert(finding_keys(h1(c1.nodes@[j])) =~= Seq::empty());
                            lemma_subsequence_empty(finding_keys(h0(c0.nodes@[j])));
                        },
                    }
                }
                lemma_flat_map_keys_subsequence(c0.nodes@, c1.nodes@, h0, h1);
            },
            SourceUnitNode::Other => {
                assert(finding_keys(g(b[i])) =~= Seq::empty());
                lemma_subsequence_empty(finding_keys(g(a[i])));
            },
        }
    }
    lemma_flat_map_keys_subsequence(a, b, g, g);
    lemma_subsequence_len(
        finding_keys(rule_findings(rule, b)),
        finding_keys(rule_findings(rule, a)),
    );
}

// ---------------------------------------------------------------------------
// What each rule reads

/// Top-level nodes that are not contracts change nothing in the findings of
/// all rules together.
pub proof fn law_other_nodes_are_ignored_by_all_rules(
    a: Seq<SourceUnitNode>,
    b: Seq<SourceUnitNode>,
)
    ensures
        all_findings(a + seq![SourceUnitNode::Other] + b) == all_findings(a + b),
{
    law_other_nodes_are_ignored(Rule::InitializerExposure, a, b);
    law_other_nodes_are_ignored(Rule::UnlockedImplementation, a, b);
    law_other_nodes_are_ignored(Rule::UpgradeAccessControl, a, b);
    law_other_nodes_are_ignored(Rule::LowLevelCall, a, b);
    law_other_nodes_are_ignored(Rule::DestructiveCall, a, b);
}

/// UPG-001 reads a function's name, visibility and identifier modifier names
/// only: its kind, its body and modifiers that are not plain identifiers
/// change nothing.
pub proof fn law_initializer_reads_name_visibility_modifiers(
    contract: Seq<char>,
    f0: FunctionDefinition,
    f1: FunctionDefinition,
)
    requires
        f1.name@ == f0.name@,
        visibility_text(f1.visibility) == visibility_text(f0.visibility),
        modifier_names(f1.modifiers@) == modifier_names(f0.modifiers@),
    ensures
        initializer_findings(contract, f1) == initializer_findings(contract, f0),
{
}

/// UPG-003 reads a function's name, visibility and identifier modifier names
/// only: its kind, its body and modifiers that are not plain identifiers
/// change nothing.
pub proof fn law_upgrade_reads_name_visibility_modifiers(
    contract: Seq<char>,
    f0: FunctionDefinition,
    f1: FunctionDefinition,
)
    requires
        f1.name@ == f0.name@,
        visibility_text(f1.visibility) == visibility_text(f0.visibility),
        modifier_names(f1.modifiers@) == modifier_names(f0.modifiers@),
    ensures
        upgrade_access_findings(contract, f1) == upgrade_access_findings(contract, f0),
{
}

/// UPG-004 and UPG-005 read a function's name and body only: its kind,
/// visibility and modifiers change nothing.
pub proof fn law_call_rules_read_name_and_body(
    rule: Rule,
    contract: Seq<char>,
    f0: FunctionDefinition,
    f1: FunctionDefinition,
)
    requires
        rule == Rule::LowLevelCall || rule == Rule::DestructiveCall,
        f1.name@ == f0.name@,
        f1.body == f0.body,
    ensures
        function_findings(rule, contract, f1) == function_findings(rule, contract, f0),
{
    let h0 = |s: Statement| statement_findings(rule, contract, f0.name@, s);
    let h1 = |s: Statement| statement_findings(rule, contract, f1.name@, s);
    assert(h0 =~= h1);
}

/// Two members that UPG-002 cannot tell apart: both not functions, or both
/// functions with the same name, kind and body.
pub open spec fn same_for_lock_rule(m0: ContractNode, m1: ContractNode) -> bool {
    match m0 {
        ContractNode::FunctionDefinition(f0) => match m1 {
            ContractNode::FunctionDefinition(f1) => f1.name@ == f0.name@ && f1.kind == f0.kind
                && f1.body == f0.body,
            ContractNode::Other => false,
        },
        ContractNode::Other => m1 is Other,
    }
}

/// UPG-002 reads the names, kinds and bodies of a contract's functions only:
/// their visibility and modifiers change nothing.
pub proof fn law_lock_rule_ignores_visibility_and_modifiers(
    c0: ContractDefinition,
    c1: ContractDefinition,
)
    requires
        c1.name@ == c0.name@,
        c1.nodes@.len() == c0.nodes@.len(),
        forall|j: int|
            0 <= j < c0.nodes@.len() ==> #[trigger] same_for_lock_rule(c0.nodes@[j], c1.nodes@[j]),
    ensures
        unlocked_findings(c1) == unlocked_findings(c0),
{
    let k0 = member_name_keys(c0.nodes@);
    let k1 = member_name_keys(c1.nodes@);
    assert(has_initializer_function_given(c0, k0) == has_initializer_function_given(c1, k1)) by {
        if has_initializer_function_given(c0, k0) {
            let j = choose|j: int|
                0 <= j < c0.nodes@.len() && #[trigger] member_initializer_given(c0.nodes@[j], k0[j]);
            assert(same_for_lock_rule(c0.nodes@[j], c1.nodes@[j]));
            assert(member_initializer_given(c1.nodes@[j], k1[j]));
        }
        if has_initializer_function_given(c1, k1) {
            let j = choose|j: int|
                0 <= j < c1.nodes@.len() && #[trigger] member_initializer_given(c1.nodes@[j], k1[j]);
            assert(same_for_lock_rule(c0.nodes@[j], c1.nodes@[j]));
            assert(member_initializer_given(c0.nodes@[j], k0[j]));
        }
    }
    assert(has_constructor(c0) == has_constructor(c1)) by {
        if has_constructor(c0) {
            let j = choose|j: int| 0 <= j < c0.nodes@.len() && #[trigger] member_is_constructor(c0.nodes@[j]);
            assert(same_for_lock_rule(c0.nodes@[j], c1.nodes@[j]));
            assert(member_is_constructor(c1.nodes@[j]));
        }
        if has_constructor(c1) {
            let j = choose|j: int| 0 <= j < c1.nodes@.len() && #[trigger] member_is_constructor(c1.nodes@[j]);
            assert(same_for_lock_rule(c0.nodes@[j], c1.nodes@[j]));
            assert(member_is_constructor(c0.nodes@[j]));
        }
    }
    assert(disables_initializers(c0) == disables_initializers(c1)) by {
        if disables_initializers(c0) {
            let j = choose|j: int|
                0 <= j < c0.nodes@.len() && #[trigger] member_disables_initializers(c0.nodes@[j]);
            assert(same_for_lock_rule(c0.nodes@[j], c1.nodes@[j]));
            assert(member_disables_initializers(c1.nodes@[j]));
        }
        if disables_initializers(c1) {
            let j = choose|j: int|
                0 <= j < c1.nodes@.len() && #[trigger] member_disables_initializers(c1.nodes@[j]);
            assert(same_for_lock_rule(c0.nodes@[j], c1.nodes@[j]));
            assert(member_disables_initializers(c0.nodes@[j]));
        }
    }
}

// ---------------------------------------------------------------------------
// Trimming

proof fn lemma_trim_start(s: Seq<char>) -> (lo: int)
    ensures
        0 <= lo <= s.len(),
        trim_start(s) == s.subrange(lo, s.len() as int),
        forall|k: int| 0 <= k < lo ==> whitespace(#[trigger] s[k]),
        lo < s.len() ==> !whitespace(s[lo]),
    decreases s.len(),
{
    if s.len() > 0 && whitespace(s[0]) {
        let rest = s.drop_first();
        let lo1 = lemma_trim_start(rest);
        assert(rest.subrange(lo1, rest.len() as int) =~= s.subrange(lo1 + 1, s.len() as int));
        assert forall|k: int| 0 <= k < lo1 + 1 implies whitespace(#[trigger] s[k]) by {
            if k > 0 {
                assert(s[k] == rest[k - 1]);
            }
        }
        lo1 + 1
    } else {
        assert(s.subrange(0, s.len() as int) =~= s);
        0
    }
}

proof fn lemma_trim_end(s: Seq<char>) -> (hi: int)
    ensures
        0 <= hi <= s.len(),
        trim_end(s) == s.subrange(0, hi),
        forall|k: int| hi <= k < s.len() ==> whitespace(#[trigger] s[k]),
        hi > 0 ==> !whitespace(s[hi - 1]),
    decreases s.len(),
{
    if s.len() > 0 && whitespace(s.last()) {
        let rest = s.drop_last();
        let hi1 = lemma_trim_end(rest);
        assert(rest.subrange(0, hi1) =~= s.subrange(0, hi1));
        assert forall|k: int| hi1 <= k < s.len() implies whitespace(#[trigger] s[k]) by {
            if k < s.len() - 1 {
                assert(s[k] == rest[k]);
            }
        }
        hi1
    } else {
        assert(s.subrange(0, s.len() as int) =~= s);
        s.len() as int
    }
}

/// Trimming removes exactly the whitespace at both ends: the result is a
/// contiguous part of the text, everything before and after it is whitespace,
/// and it neither starts nor ends with whitespace.
pub proof fn law_trim_removes_exactly_outer_whitespace(s: Seq<char>)
    ensures
        exists|lo: int, hi: int|
            #![trigger s.subrange(lo, hi)]
            {
                &&& 0 <= lo <= hi <= s.len()
                &&& trimmed(s) == s.subrange(lo, hi)
                &&& forall|k: int| 0 <= k < lo ==> whitespace(#[trigger] s[k])
                &&& forall|k: int| hi <= k < s.len() ==> whitespace(#[trigger] s[k])
                &&& lo < hi ==> !whitespace(s[lo]) && !whitespace(s[hi - 1])
            },
{
    let lo = lemma_trim_start(s);
    let t = s.subrange(lo, s.len() as int);
    let h = lemma_trim_end(t);
    let hi = lo + h;
    assert(t.subrange(0, h) =~= s.subrange(lo, hi));
    assert forall|k: int| hi <= k < s.len() implies whitespace(#[trigger] s[k]) by {
        assert(s[k] == t[k - lo]);
    }
    if lo < hi {
        assert(s[hi - 1] == t[h - 1]);
        assert(s[lo] == t[0]);
    }
    assert(trimmed(s) == s.subrange(lo, hi));
}

} // verus!
