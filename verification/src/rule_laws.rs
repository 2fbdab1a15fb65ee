//! What each rule reports, stated over the raw fields of the AST: which
//! functions and statements give a finding, with which identifier, severity
//! and title, whatever else the AST holds.

use vstd::prelude::*;

use crate::finding::FindingView;
use crate::laws::{lemma_flat_map_member, lemma_flat_map_member_rev};
use crate::model::{
    ContractDefinition, ContractNode, Expression, FunctionDefinition, ModifierInvocation,
    ModifierName, SourceUnitNode, Statement,
};
use crate::spec::{
    contract_findings, function_findings, member_findings, modifier_name_of, modifier_names,
    lowered_names, rule_findings, statement_findings, unit_findings, Rule,
};
use crate::text::{contains_text, lowercased, normalized};

verus! {

broadcast use vstd::seq_lib::group_seq_properties;

// ---------------------------------------------------------------------------
// Positions in a source unit

/// The contract at position `i` of the top-level nodes, if one stands there.
pub open spec fn contract_at(nodes: Seq<SourceUnitNode>, i: int) -> Option<ContractDefinition> {
    if 0 <= i < nodes.len() {
        match nodes[i] {
            SourceUnitNode::ContractDefinition(c) => Some(c),
            SourceUnitNode::Other => None,
        }
    } else {
        None
    }
}

/// The function at member position `j` of the contract at position `i`.
pub open spec fn function_at(nodes: Seq<SourceUnitNode>, i: int, j: int) -> Option<
    FunctionDefinition,
> {
    match contract_at(nodes, i) {
        Some(c) => if 0 <= j < c.nodes@.len() {
            match c.nodes@[j] {
                ContractNode::FunctionDefinition(f) => Some(f),
                ContractNode::Other => None,
            }
        } else {
            None
        },
        None => None,
    }
}

/// Statement `t` of the body of the function at `(i, j)`.
pub open spec fn statement_at(nodes: Seq<SourceUnitNode>, i: int, j: int, t: int) -> Option<
    Statement,
> {
    match function_at(nodes, i, j) {
        Some(f) => match f.body {
            Some(b) => if 0 <= t < b.statements@.len() {
                Some(b.statements@[t])
            } else {
                None
            },
            None => None,
        },
        None => None,
    }
}

/// An expression statement `callee(...)` that calls a plain identifier.
pub open spec fn calls_identifier(s: Statement, callee: Seq<char>) -> bool {
    match s {
        Statement::ExpressionStatement(es) => match es.expression {
            Expression::FunctionCall(call) => match *call.expression {
                Expression::Identifier { name } => name@ == callee,
                _ => false,
            },
            _ => false,
        },
        Statement::Other => false,
    }
}

/// An expression statement `base.member(...)` that calls through a member.
pub open spec fn calls_member(s: Statement, member: Seq<char>) -> bool {
    match s {
        Statement::ExpressionStatement(es) => match es.expression {
            Expression::FunctionCall(call) => match *call.expression {
                Expression::MemberAccess(m) => m.member_name@ == member,
                _ => false,
            },
            _ => false,
        },
        Statement::Other => false,
    }
}

/// A finding about function `function` of contract `contract` with the given
/// identifier, severity and title.
pub open spec fn reports(
    x: FindingView,
    id: Seq<char>,
    severity: Seq<char>,
    contract: Seq<char>,
    function: Seq<char>,
) -> bool {
    &&& x.id == id
    &&& x.severity == severity
    &&& x.contract_name == contract
    &&& x.function_name == Some(function)
}

// ---------------------------------------------------------------------------
// From a function's findings to the source unit's

proof fn lemma_function_finding_reaches_rule(
    rule: Rule,
    nodes: Seq<SourceUnitNode>,
    i: int,
    j: int,
    x: FindingView,
)
    requires
        rule != Rule::UnlockedImplementation,
        function_at(nodes, i, j) is Some,
        function_findings(
            rule,
            contract_at(nodes, i)->0.name@,
            function_at(nodes, i, j)->0,
        ).contains(x),
    ensures
        rule_findings(rule, nodes).contains(x),
{
    let c = contract_at(nodes, i)->0;
    let h = |m: ContractNode| member_findings(rule, c.name@, m);
    assert(h(c.nodes@[j]).contains(x));
    lemma_flat_map_member_rev(c.nodes@, h, j, x);
    assert(contract_findings(rule, c).contains(x));
    let g = |n: SourceUnitNode| unit_findings(rule, n);
    assert(g(nodes[i]).contains(x));
    lemma_flat_map_member_rev(nodes, g, i, x);
}

proof fn lemma_statement_finding_reaches_rule(
    rule: Rule,
    nodes: Seq<SourceUnitNode>,
    i: int,
    j: int,
    t: int,
    x: FindingView,
)
    requires
        rule == Rule::LowLevelCall || rule == Rule::DestructiveCall,
        statement_at(nodes, i, j, t) is Some,
        statement_findings(
            rule,
            contract_at(nodes, i)->0.name@,
            function_at(nodes, i, j)->0.name@,
            statement_at(nodes, i, j, t)->0,
        ).contains(x),
    ensures
        rule_findings(rule, nodes).contains(x),
{
    let c = contract_at(nodes, i)->0;
    let f = function_at(nodes, i, j)->0;
    let b = f.body->0;
    let h = |s: Statement| statement_findings(rule, c.name@, f.name@, s);
    assert(h(b.statements@[t]).contains(x));
    lemma_flat_map_member_rev(b.statements@, h, t, x);
    assert(function_findings(rule, c.name@, f).contains(x));
    lemma_function_finding_reaches_rule(rule, nodes, i, j, x);
}

// ---------------------------------------------------------------------------
// UPG-004 and UPG-005: every call statement of every function body

/// Every statement `base.delegatecall(...)` in the body of any function of any
/// contract, whatever the function's visibility, kind or modifiers, gives a
/// UPG-004 finding of severity HIGH, titled `Low-level delegatecall usage
/// detected`, about that contract and function.
pub proof fn law_every_delegatecall_is_reported(nodes: Seq<SourceUnitNode>, i: int, j: int, t: int)
    requires
        statement_at(nodes, i, j, t) matches Some(s) && calls_member(s, "delegatecall"@),
    ensures
        exists|x: FindingView|
            #[trigger] rule_findings(Rule::LowLevelCall, nodes).contains(x) && reports(
                x,
                "UPG-004"@,
                "HIGH"@,
                contract_at(nodes, i)->0.name@,
                function_at(nodes, i, j)->0.name@,
            ) && x.title == "Low-level delegatecall usage detected"@,
{
    let c = contract_at(nodes, i)->0;
    let f = function_at(nodes, i, j)->0;
    let s = statement_at(nodes, i, j, t)->0;
    let x = statement_findings(Rule::LowLevelCall, c.name@, f.name@, s)[0];
    assert(statement_findings(Rule::LowLevelCall, c.name@, f.name@, s).contains(x));
    lemma_statement_finding_reaches_rule(Rule::LowLevelCall, nodes, i, j, t, x);
    reveal_strlit("delegatecall");
    reveal_strlit("call");
    reveal_strlit("Low-level ");
    reveal_strlit(" usage detected");
    reveal_strlit("Low-level delegatecall usage detected");
    assert(x.title =~= "Low-level delegatecall usage detected"@);
}

/// Every statement `base.call(...)` in the body of any function of any
/// contract, whatever the function's visibility, kind or modifiers, gives a
/// UPG-004 finding of severity MEDIUM, titled `Low-level call usage detected`,
/// about that contract and function.
pub proof fn law_every_low_level_call_is_reported(nodes: Seq<SourceUnitNode>, i: int, j: int, t: int)
    requires
        statement_at(nodes, i, j, t) matches Some(s) && calls_member(s, "call"@),
    ensures
        exists|x: FindingView|
            #[trigger] rule_findings(Rule::LowLevelCall, nodes).contains(x) && reports(
                x,
                "UPG-004"@,
                "MEDIUM"@,
                contract_at(nodes, i)->0.name@,
                function_at(nodes, i, j)->0.name@,
            ) && x.title == "Low-level call usage detected"@,
{
    let c = contract_at(nodes, i)->0;
    let f = function_at(nodes, i, j)->0;
    let s = statement_at(nodes, i, j, t)->0;
    let x = statement_findings(Rule::LowLevelCall, c.name@, f.name@, s)[0];
    assert(statement_findings(Rule::LowLevelCall, c.name@, f.name@, s).contains(x));
    lemma_statement_finding_reaches_rule(Rule::LowLevelCall, nodes, i, j, t, x);
    reveal_strlit("delegatecall");
    reveal_strlit("call");
    reveal_strlit("Low-level ");
    reveal_strlit(" usage detected");
    reveal_strlit("Low-level call usage detected");
    assert(x.title =~= "Low-level call usage detected"@);
}

/// Every statement `selfdestruct(...)` or `suicide(...)` in the body of any
/// function of any contract, whatever the function's visibility, kind or
/// modifiers, gives a UPG-005 finding of severity HIGH about that contract and
/// function.
pub proof fn law_every_destructive_call_is_reported(
    nodes: Seq<SourceUnitNode>,
    i: int,
    j: int,
    t: int,
)
    requires
        statement_at(nodes, i, j, t) matches Some(s) && (calls_identifier(s, "selfdestruct"@)
            || calls_identifier(s, "suicide"@)),
    ensures
        exists|x: FindingView|
            #[trigger] rule_findings(Rule::DestructiveCall, nodes).contains(x) && reports(
                x,
                "UPG-005"@,
                "HIGH"@,
                contract_at(nodes, i)->0.name@,
                function_at(nodes, i, j)->0.name@,
            ) && (calls_identifier(statement_at(nodes, i, j, t)->0, "selfdestruct"@) ==> x.title
                == "Destructive selfdestruct usage detected"@) && (calls_identifier(
                statement_at(nodes, i, j, t)->0,
                "suicide"@,
            ) ==> x.title == "Destructive suicide usage detected"@),
{
    let c = contract_at(nodes, i)->0;
    let f = function_at(nodes, i, j)->0;
    let s = statement_at(nodes, i, j, t)->0;
    let x = statement_findings(Rule::DestructiveCall, c.name@, f.name@, s)[0];
    assert(statement_findings(Rule::DestructiveCall, c.name@, f.name@, s).contains(x));
    lemma_statement_finding_reaches_rule(Rule::DestructiveCall, nodes, i, j, t, x);
    reveal_strlit("selfdestruct");
    reveal_strlit("suicide");
    reveal_strlit("Destructive ");
    reveal_strlit(" usage detected");
    reveal_strlit("Destructive selfdestruct usage detected");
    reveal_strlit("Destructive suicide usage detected");
    if calls_identifier(s, "selfdestruct"@) {
        assert(x.title =~= "Destructive selfdestruct usage detected"@);
    }
    if calls_identifier(s, "suicide"@) {
        assert(x.title =~= "Destructive suicide usage detected"@);
    }
}

// ---------------------------------------------------------------------------
// Modifier names as written in the AST

/// A plain-identifier modifier whose lower-cased name satisfies `p`.
pub open spec fn identifier_modifier_satisfies(
    m: ModifierInvocation,
    p: spec_fn(Seq<char>) -> bool,
) -> bool {
    match m.modifier_name {
        Some(ModifierName::Identifier { name }) => p(lowercased(name@)),
        _ => false,
    }
}

/// One of the modifiers is a plain identifier whose lower-cased name
/// satisfies `p`.
pub open spec fn has_identifier_modifier(
    mods: Seq<ModifierInvocation>,
    p: spec_fn(Seq<char>) -> bool,
) -> bool {
    exists|k: int| 0 <= k < mods.len() && #[trigger] identifier_modifier_satisfies(mods[k], p)
}

proof fn lemma_identifier_modifiers(mods: Seq<ModifierInvocation>, p: spec_fn(Seq<char>) -> bool)
    ensures
        has_identifier_modifier(mods, p) <==> exists|i: int|
            0 <= i < lowered_names(modifier_names(mods)).len() && #[trigger] p(
                lowered_names(modifier_names(mods))[i],
            ),
{
    let g = |m: ModifierInvocation| modifier_name_of(m);
    let names = modifier_names(mods);
    let low = lowered_names(names);
    if has_identifier_modifier(mods, p) {
        let k = choose|k: int| 0 <= k < mods.len() && #[trigger] identifier_modifier_satisfies(mods[k], p);
        let name = mods[k].modifier_name->0->Identifier_name;
        assert(g(mods[k]) == seq![name@]);
        assert(g(mods[k]).contains(name@));
        lemma_flat_map_member_rev(mods, g, k, name@);
        let i = choose|i: int| 0 <= i < names.len() && names[i] == name@;
        assert(p(low[i]));
    }
    if exists|i: int| 0 <= i < low.len() && #[trigger] p(low[i]) {
        let i = choose|i: int| 0 <= i < low.len() && #[trigger] p(low[i]);
        assert(names.contains(names[i]));
        lemma_flat_map_member(mods, g, names[i]);
        let k = choose|k: int| 0 <= k < mods.len() && #[trigger] g(mods[k]).contains(names[i]);
        assert(identifier_modifier_satisfies(mods[k], p));
    }
}

// ---------------------------------------------------------------------------
// UPG-001

/// The function's declared visibility is `lit`.
pub open spec fn visibility_is(f: FunctionDefinition, lit: Seq<char>) -> bool {
    f.visibility matches Some(v) && v@ == lit
}

/// Every function named `initialize` or `init` (after trimming and
/// lower-casing) gives a UPG-001 finding about it. Its severity depends on the
/// visibility only through whether the function is reachable from outside:
/// for `public` and for `external` it is HIGH without an `initializer` or
/// `reinitializer` modifier and LOW with one; for `internal` and `private` it
/// is LOW; for any other or no visibility it is MEDIUM.
pub proof fn law_initializer_severity(nodes: Seq<SourceUnitNode>, i: int, j: int)
    requires
        function_at(nodes, i, j) matches Some(f) && (normalized(f.name@) == "initialize"@
            || normalized(f.name@) == "init"@),
    ensures
        exists|x: FindingView|
            #[trigger] rule_findings(Rule::InitializerExposure, nodes).contains(x) && {
                let f = function_at(nodes, i, j)->0;
                let guarded = has_identifier_modifier(
                    f.modifiers@,
                    |l: Seq<char>| l == "initializer"@ || l == "reinitializer"@,
                );
                &&& x.id == "UPG-001"@
                &&& x.contract_name == contract_at(nodes, i)->0.name@
                &&& x.function_name == Some(f.name@)
                &&& (visibility_is(f, "public"@) || visibility_is(f, "external"@)) ==> x.severity == (
                if guarded {
                    "LOW"@
                } else {
                    "HIGH"@
                })
                &&& (visibility_is(f, "internal"@) || visibility_is(f, "private"@)) ==> x.severity
                    == "LOW"@
                &&& !(visibility_is(f, "public"@) || visibility_is(f, "external"@) || visibility_is(
                    f,
                    "internal"@,
                ) || visibility_is(f, "private"@)) ==> x.severity == "MEDIUM"@
                &&& x.title == if guarded {
                    "Initializer-like function found with initializer-style modifier"@
                } else {
                    "Initializer-like function may be insufficiently protected"@
                }
                &&& x.evidence.len() == 6
                &&& x.evidence[1] == "Function '"@ + f.name@ + "'"@
                &&& x.evidence[3] == "Visibility '"@ + (match f.visibility {
                    Some(v) => v@,
                    None => "unknown"@,
                }) + "'"@
                &&& x.evidence[5] == if guarded {
                    "Initializer-style modifier detected"@
                } else {
                    "Initializer-style modifier not detected"@
                }
            },
{
    let c = contract_at(nodes, i)->0;
    let f = function_at(nodes, i, j)->0;
    reveal_strlit("unknown");
    reveal_strlit("public");
    reveal_strlit("external");
    reveal_strlit("internal");
    reveal_strlit("private");
    assert("internal"@ != "external"@) by {
        assert("internal"@[0] != "external"@[0]);
    }
    assert("unknown"@ != "private"@) by {
        assert("unknown"@[0] != "private"@[0]);
    }
    let p = |l: Seq<char>| l == "initializer"@ || l == "reinitializer"@;
    let found = function_findings(Rule::InitializerExposure, c.name@, f);
    let x = found[0];
    assert(found.contains(x));
    lemma_function_finding_reaches_rule(Rule::InitializerExposure, nodes, i, j, x);
    lemma_identifier_modifiers(f.modifiers@, p);
    let low = lowered_names(modifier_names(f.modifiers@));
    assert(has_identifier_modifier(f.modifiers@, p) == crate::spec::any_marks_initializer(low)) by {
        if has_identifier_modifier(f.modifiers@, p) {
            let k = choose|k: int| 0 <= k < low.len() && #[trigger] p(low[k]);
            assert(crate::spec::marks_initializer(low[k]));
        }
        if crate::spec::any_marks_initializer(low) {
            let k = choose|k: int| 0 <= k < low.len() && #[trigger] crate::spec::marks_initializer(low[k]);
            assert(p(low[k]));
        }
    }
    let guarded = has_identifier_modifier(f.modifiers@, p);
    assert(x.id == "UPG-001"@);
    assert(x.contract_name == c.name@);
    assert(x.function_name == Some(f.name@));
    assert((visibility_is(f, "public"@) || visibility_is(f, "external"@)) ==> x.severity == (if guarded { "LOW"@ } else { "HIGH"@ }));
    assert((visibility_is(f, "internal"@) || visibility_is(f, "private"@)) ==> x.severity == "LOW"@);
    assert(!(visibility_is(f, "public"@) || visibility_is(f, "external"@) || visibility_is(f, "internal"@) || visibility_is(f, "private"@)) ==> x.severity == "MEDIUM"@);
}

// ---------------------------------------------------------------------------
// UPG-002

/// Member `j` of the contract is a constructor (kind `constructor`) whose
/// statement `t` is a call `_disableInitializers(...)`.
pub open spec fn locks_at(c: ContractDefinition, j: int, t: int) -> bool {
    &&& 0 <= j < c.nodes@.len()
    &&& c.nodes@[j] matches ContractNode::FunctionDefinition(f)
    &&& f.kind matches Some(k) && k@ == "constructor"@
    &&& f.body matches Some(b) && 0 <= t < b.statements@.len() && calls_identifier(
        b.statements@[t],
        "_disableInitializers"@,
    )
}

/// A contract with a constructor that calls `_disableInitializers` at any
/// statement of its body, in any position among other statements, gets no
/// UPG-002 finding, whatever its other members are.
pub proof fn law_locked_contract_is_not_reported(c: ContractDefinition, j: int, t: int)
    requires
        locks_at(c, j, t),
    ensures
        unit_findings(Rule::UnlockedImplementation, SourceUnitNode::ContractDefinition(c)).len()
            == 0,
{
    let f = c.nodes@[j]->FunctionDefinition_0;
    let b = f.body->0;
    assert(crate::spec::calls_disable_initializers(b.statements@[t]));
    assert(crate::spec::constructor_disables_initializers(f));
    assert(crate::spec::member_disables_initializers(c.nodes@[j]));
    assert(crate::spec::disables_initializers(c));
}

/// A contract with a function named `initialize` or `init` (after trimming and
/// lower-casing) and no constructor that calls `_disableInitializers` gets
/// exactly one UPG-002 finding, of severity HIGH, about the contract as a
/// whole.
pub proof fn law_unlocked_contract_is_reported(c: ContractDefinition, j: int)
    requires
        0 <= j < c.nodes@.len(),
        c.nodes@[j] matches ContractNode::FunctionDefinition(f) && (normalized(f.name@)
            == "initialize"@ || normalized(f.name@) == "init"@),
        forall|j2: int, t2: int| !#[trigger] locks_at(c, j2, t2),
    ensures
        exists|x: FindingView|
            unit_findings(Rule::UnlockedImplementation, SourceUnitNode::ContractDefinition(c))
                == seq![x] && x.id == "UPG-002"@ && x.severity == "HIGH"@ && x.contract_name
                == c.name@ && x.function_name is None && x.title
                == "Implementation lock may be missing"@ && x.evidence.len() == 4 && x.evidence[2]
                == if exists|j2: int|
                0 <= j2 < c.nodes@.len() && (#[trigger] c.nodes@[j2] matches ContractNode::FunctionDefinition(
                    f2,
                ) && f2.kind matches Some(k) && k@ == "constructor"@) {
                "Constructor found"@
            } else {
                "Constructor not found"@
            },
{
    let keys = crate::spec::member_name_keys(c.nodes@);
    assert(crate::spec::member_initializer_given(c.nodes@[j], keys[j]));
    assert(crate::spec::has_initializer_function(c));
    assert(!crate::spec::disables_initializers(c)) by {
        if crate::spec::disables_initializers(c) {
            let j2 = choose|j2: int|
                0 <= j2 < c.nodes@.len() && #[trigger] crate::spec::member_disables_initializers(
                    c.nodes@[j2],
                );
            let f2 = c.nodes@[j2]->FunctionDefinition_0;
            let b2 = f2.body->0;
            let t2 = choose|t2: int|
                0 <= t2 < b2.statements@.len() && #[trigger] crate::spec::calls_disable_initializers(
                    b2.statements@[t2],
                );
            assert(locks_at(c, j2, t2));
        }
    }
    assert(crate::spec::has_constructor(c) == exists|j2: int|
        0 <= j2 < c.nodes@.len() && (#[trigger] c.nodes@[j2] matches ContractNode::FunctionDefinition(
            f2,
        ) && f2.kind matches Some(k) && k@ == "constructor"@)) by {
        if crate::spec::has_constructor(c) {
            let j2 = choose|j2: int|
                0 <= j2 < c.nodes@.len() && #[trigger] crate::spec::member_is_constructor(c.nodes@[j2]);
            assert(c.nodes@[j2] matches ContractNode::FunctionDefinition(f2) && f2.kind matches Some(k)
                && k@ == "constructor"@);
        }
        if exists|j2: int|
            0 <= j2 < c.nodes@.len() && (#[trigger] c.nodes@[j2] matches ContractNode::FunctionDefinition(
                f2,
            ) && f2.kind matches Some(k) && k@ == "constructor"@) {
            let j2 = choose|j2: int|
                0 <= j2 < c.nodes@.len() && (#[trigger] c.nodes@[j2] matches ContractNode::FunctionDefinition(
                    f2,
                ) && f2.kind matches Some(k) && k@ == "constructor"@);
            assert(crate::spec::member_is_constructor(c.nodes@[j2]));
        }
    }
    let x = unit_findings(Rule::UnlockedImplementation, SourceUnitNode::ContractDefinition(c))[0];
    assert(unit_findings(Rule::UnlockedImplementation, SourceUnitNode::ContractDefinition(c))
        == seq![x]);
}

/// A contract none of whose functions is named `initialize` or `init` (after
/// trimming and lower-casing) gets no UPG-002 finding.
pub proof fn law_contract_without_initializer_is_not_reported(c: ContractDefinition)
    requires
        forall|j: int|
            0 <= j < c.nodes@.len() ==> !(#[trigger] c.nodes@[j] matches ContractNode::FunctionDefinition(
                f,
            ) && (normalized(f.name@) == "initialize"@ || normalized(f.name@) == "init"@)),
    ensures
        unit_findings(Rule::UnlockedImplementation, SourceUnitNode::ContractDefinition(c)).len()
            == 0,
{
    let keys = crate::spec::member_name_keys(c.nodes@);
    if crate::spec::has_initializer_function(c) {
        let j = choose|j: int|
            0 <= j < c.nodes@.len() && #[trigger] crate::spec::member_initializer_given(
                c.nodes@[j],
                keys[j],
            );
        assert(c.nodes@[j] matches ContractNode::FunctionDefinition(f) && (normalized(f.name@)
            == "initialize"@ || normalized(f.name@) == "init"@));
    }
}

// ---------------------------------------------------------------------------
// UPG-003

/// Every public or external function named `upgrade`, `upgradeTo`,
/// `upgradeToAndCall` or `setImplementation` (after trimming and
/// lower-casing) none of whose identifier modifiers, lower-cased, contains
/// `onlyowner`, `onlyadmin`, `adminonly`, `onlyrole` or `auth` gives a UPG-003
/// finding of severity HIGH about it. Any other modifier, such as
/// `nonReentrant`, does not keep it from being reported.
pub proof fn law_unguarded_upgrade_is_reported(nodes: Seq<SourceUnitNode>, i: int, j: int)
    requires
        function_at(nodes, i, j) matches Some(f) && ({
            let n = normalized(f.name@);
            n == "upgrade"@ || n == "upgradeto"@ || n == "upgradetoandcall"@ || n
                == "setimplementation"@
        }) && (visibility_is(f, "public"@) || visibility_is(f, "external"@))
            && !has_identifier_modifier(
            f.modifiers@,
            |l: Seq<char>|
                contains_text(l, "onlyowner"@) || contains_text(l, "onlyadmin"@) || contains_text(
                    l,
                    "adminonly"@,
                ) || contains_text(l, "onlyrole"@) || contains_text(l, "auth"@),
        ),
    ensures
        exists|x: FindingView|
            #[trigger] rule_findings(Rule::UpgradeAccessControl, nodes).contains(x) && reports(
                x,
                "UPG-003"@,
                "HIGH"@,
                contract_at(nodes, i)->0.name@,
                function_at(nodes, i, j)->0.name@,
            ) && x.title == "Upgrade-like function may lack access control"@,
{
    let c = contract_at(nodes, i)->0;
    let f = function_at(nodes, i, j)->0;
    let p = |l: Seq<char>|
        contains_text(l, "onlyowner"@) || contains_text(l, "onlyadmin"@) || contains_text(
            l,
            "adminonly"@,
        ) || contains_text(l, "onlyrole"@) || contains_text(l, "auth"@);
    lemma_identifier_modifiers(f.modifiers@, p);
    let low = lowered_names(modifier_names(f.modifiers@));
    assert(!crate::spec::any_marks_access_control(low)) by {
        if crate::spec::any_marks_access_control(low) {
            let k = choose|k: int|
                0 <= k < low.len() && #[trigger] crate::spec::marks_access_control(low[k]);
            assert(p(low[k]));
        }
    }
    let found = function_findings(Rule::UpgradeAccessControl, c.name@, f);
    let x = found[0];
    assert(found.contains(x));
    lemma_function_finding_reaches_rule(Rule::UpgradeAccessControl, nodes, i, j, x);
}

/// A function with an identifier modifier whose lower-cased name contains
/// `onlyowner`, `onlyadmin`, `adminonly`, `onlyrole` or `auth`, or that is
/// neither public nor external, gets no UPG-003 finding.
pub proof fn law_guarded_or_internal_upgrade_is_not_reported(contract: Seq<char>, f: FunctionDefinition)
    requires
        has_identifier_modifier(
            f.modifiers@,
            |l: Seq<char>|
                contains_text(l, "onlyowner"@) || contains_text(l, "onlyadmin"@) || contains_text(
                    l,
                    "adminonly"@,
                ) || contains_text(l, "onlyrole"@) || contains_text(l, "auth"@),
        ) || !(visibility_is(f, "public"@) || visibility_is(f, "external"@)),
    ensures
        member_findings(Rule::UpgradeAccessControl, contract, ContractNode::FunctionDefinition(f)).len()
            == 0,
{
    let p = |l: Seq<char>|
        contains_text(l, "onlyowner"@) || contains_text(l, "onlyadmin"@) || contains_text(
            l,
            "adminonly"@,
        ) || contains_text(l, "onlyrole"@) || contains_text(l, "auth"@);
    reveal_strlit("unknown");
    reveal_strlit("public");
    reveal_strlit("external");
    reveal_strlit("internal");
    reveal_strlit("private");
    assert("internal"@ != "external"@) by {
        assert("internal"@[0] != "external"@[0]);
    }
    assert("unknown"@ != "private"@) by {
        assert("unknown"@[0] != "private"@[0]);
    }
    lemma_identifier_modifiers(f.modifiers@, p);
    let low = lowered_names(modifier_names(f.modifiers@));
    if has_identifier_modifier(f.modifiers@, p) {
        let k = choose|k: int| 0 <= k < low.len() && #[trigger] p(low[k]);
        assert(crate::spec::marks_access_control(low[k]));
    }
}

// ---------------------------------------------------------------------------
// UPG-004 and UPG-005 over a whole source unit

proof fn lemma_flat_map_pointwise<A, B>(
    a: Seq<A>,
    b: Seq<A>,
    fa: spec_fn(A) -> Seq<B>,
    fb: spec_fn(A) -> Seq<B>,
)
    requires
        a.len() == b.len(),
        forall|i: int| 0 <= i < a.len() ==> #[trigger] fa(a[i]) == fb(b[i]),
    ensures
        a.flat_map(fa) == b.flat_map(fb),
{
    assert(a.map_values(fa) =~= b.map_values(fb));
}

/// Two members that differ at most in what the call rules do not read: both
/// not functions, or both functions with the same name and body.
pub open spec fn same_name_and_body(m0: ContractNode, m1: ContractNode) -> bool {
    match m0 {
        ContractNode::FunctionDefinition(f0) => match m1 {
            ContractNode::FunctionDefinition(f1) => f1.name@ == f0.name@ && f1.body == f0.body,
            ContractNode::Other => false,
        },
        ContractNode::Other => m1 is Other,
    }
}

/// Two top-level nodes that differ at most in the visibility, kind and
/// modifiers of their functions.
pub open spec fn same_names_and_bodies_unit(u0: SourceUnitNode, u1: SourceUnitNode) -> bool {
    match u0 {
        SourceUnitNode::ContractDefinition(c0) => match u1 {
            SourceUnitNode::ContractDefinition(c1) => {
                &&& c1.name@ == c0.name@
                &&& c1.nodes@.len() == c0.nodes@.len()
                &&& forall|j: int|
                    0 <= j < c0.nodes@.len() ==> #[trigger] same_name_and_body(
                        c0.nodes@[j],
                        c1.nodes@[j],
                    )
            },
            SourceUnitNode::Other => false,
        },
        SourceUnitNode::Other => u1 is Other,
    }
}

/// Over a whole source unit, the findings of UPG-004 and of UPG-005 do not
/// depend on the visibility, kind or modifiers of any function: two source
/// units that differ only in those get the same findings.
pub proof fn law_call_rules_ignore_visibility_kind_modifiers(
    rule: Rule,
    a: Seq<SourceUnitNode>,
    b: Seq<SourceUnitNode>,
)
    requires
        rule == Rule::LowLevelCall || rule == Rule::DestructiveCall,
        b.len() == a.len(),
        forall|i: int| 0 <= i < a.len() ==> #[trigger] same_names_and_bodies_unit(a[i], b[i]),
    ensures
        rule_findings(rule, a) == rule_findings(rule, b),
{
    let g = |n: SourceUnitNode| unit_findings(rule, n);
    assert forall|i: int| 0 <= i < a.len() implies #[trigger] g(a[i]) == g(b[i]) by {
        assert(same_names_and_bodies_unit(a[i], b[i]));
        match a[i] {
            SourceUnitNode::ContractDefinition(c0) => {
                let c1 = b[i]->ContractDefinition_0;
                let h0 = |m: ContractNode| member_findings(rule, c0.name@, m);
                let h1 = |m: ContractNode| member_findings(rule, c1.name@, m);
                assert forall|j: int| 0 <= j < c0.nodes@.len() implies #[trigger] h0(c0.nodes@[j])
                    == h1(c1.nodes@[j]) by {
                    assert(same_name_and_body(c0.nodes@[j], c1.nodes@[j]));
                    match c0.nodes@[j] {
                        ContractNode::FunctionDefinition(f0) => {
                            let f1 = c1.nodes@[j]->FunctionDefinition_0;
                            crate::laws::law_call_rules_read_name_and_body(rule, c0.name@, f0, f1);
                        },
                        ContractNode::Other => {},
                    }
                }
                lemma_flat_map_pointwise(c0.nodes@, c1.nodes@, h0, h1);
            },
            SourceUnitNode::Other => {},
        }
    }
    lemma_flat_map_pointwise(a, b, g, g);
}

// ---------------------------------------------------------------------------
// Every finding comes from a function or statement that the rule names

proof fn lemma_finding_source(rule: Rule, nodes: Seq<SourceUnitNode>, x: FindingView) -> (ij: (
    int,
    int,
))
    requires
        rule != Rule::UnlockedImplementation,
        rule_findings(rule, nodes).contains(x),
    ensures
        function_at(nodes, ij.0, ij.1) is Some,
        function_findings(
            rule,
            contract_at(nodes, ij.0)->0.name@,
            function_at(nodes, ij.0, ij.1)->0,
        ).contains(x),
{
    let g = |n: SourceUnitNode| unit_findings(rule, n);
    lemma_flat_map_member(nodes, g, x);
    let i = choose|i: int| 0 <= i < nodes.len() && #[trigger] g(nodes[i]).contains(x);
    let c = nodes[i]->ContractDefinition_0;
    let h = |m: ContractNode| member_findings(rule, c.name@, m);
    lemma_flat_map_member(c.nodes@, h, x);
    let j = choose|j: int| 0 <= j < c.nodes@.len() && #[trigger] h(c.nodes@[j]).contains(x);
    (i, j)
}

proof fn lemma_statement_source(rule: Rule, nodes: Seq<SourceUnitNode>, x: FindingView) -> (ijt: (
    int,
    int,
    int,
))
    requires
        rule == Rule::LowLevelCall || rule == Rule::DestructiveCall,
        rule_findings(rule, nodes).contains(x),
    ensures
        statement_at(nodes, ijt.0, ijt.1, ijt.2) is Some,
        statement_findings(
            rule,
            contract_at(nodes, ijt.0)->0.name@,
            function_at(nodes, ijt.0, ijt.1)->0.name@,
            statement_at(nodes, ijt.0, ijt.1, ijt.2)->0,
        ).contains(x),
{
    let (i, j) = lemma_finding_source(rule, nodes, x);
    let c = contract_at(nodes, i)->0;
    let f = function_at(nodes, i, j)->0;
    let b = f.body->0;
    let h = |s: Statement| statement_findings(rule, c.name@, f.name@, s);
    lemma_flat_map_member(b.statements@, h, x);
    let t = choose|t: int| 0 <= t < b.statements@.len() && #[trigger] h(b.statements@[t]).contains(x);
    (i, j, t)
}

/// Every UPG-004 finding is about a statement `base.delegatecall(...)` or
/// `base.call(...)` of the function and contract it names.
pub proof fn law_low_level_findings_come_from_calls(nodes: Seq<SourceUnitNode>, x: FindingView)
    requires
        rule_findings(Rule::LowLevelCall, nodes).contains(x),
    ensures
        exists|i: int, j: int, t: int|
            #[trigger] statement_at(nodes, i, j, t) matches Some(s) && (calls_member(
                s,
                "delegatecall"@,
            ) || calls_member(s, "call"@)) && x.contract_name == contract_at(nodes, i)->0.name@
                && x.function_name == Some(function_at(nodes, i, j)->0.name@),
{
    let (i, j, t) = lemma_statement_source(Rule::LowLevelCall, nodes, x);
    let s = statement_at(nodes, i, j, t)->0;
    assert(calls_member(s, "delegatecall"@) || calls_member(s, "call"@));
}

/// Every UPG-005 finding is about a statement `selfdestruct(...)` or
/// `suicide(...)` of the function and contract it names.
pub proof fn law_destructive_findings_come_from_calls(nodes: Seq<SourceUnitNode>, x: FindingView)
    requires
        rule_findings(Rule::DestructiveCall, nodes).contains(x),
    ensures
        exists|i: int, j: int, t: int|
            #[trigger] statement_at(nodes, i, j, t) matches Some(s) && (calls_identifier(
                s,
                "selfdestruct"@,
            ) || calls_identifier(s, "suicide"@)) && x.contract_name == contract_at(nodes, i)->0.name@
                && x.function_name == Some(function_at(nodes, i, j)->0.name@),
{
    let (i, j, t) = lemma_statement_source(Rule::DestructiveCall, nodes, x);
    let s = statement_at(nodes, i, j, t)->0;
    assert(calls_identifier(s, "selfdestruct"@) || calls_identifier(s, "suicide"@));
}

/// Every UPG-001 finding is about a function named `initialize` or `init`
/// (after trimming and lower-casing) of the contract it names.
pub proof fn law_initializer_findings_come_from_initializers(
    nodes: Seq<SourceUnitNode>,
    x: FindingView,
)
    requires
        rule_findings(Rule::InitializerExposure, nodes).contains(x),
    ensures
        exists|i: int, j: int|
            #[trigger] function_at(nodes, i, j) matches Some(f) && (normalized(f.name@)
                == "initialize"@ || normalized(f.name@) == "init"@) && x.contract_name == contract_at(
                nodes,
                i,
            )->0.name@ && x.function_name == Some(f.name@),
{
    let (i, j) = lemma_finding_source(Rule::InitializerExposure, nodes, x);
    let f = function_at(nodes, i, j)->0;
    assert(normalized(f.name@) == "initialize"@ || normalized(f.name@) == "init"@);
}

/// Every UPG-003 finding is about a public or external function named
/// `upgrade`, `upgradeTo`, `upgradeToAndCall` or `setImplementation` (after
/// trimming and lower-casing) none of whose identifier modifiers, lower-cased,
/// contains `onlyowner`, `onlyadmin`, `adminonly`, `onlyrole` or `auth`.
pub proof fn law_upgrade_findings_come_from_unguarded_upgrades(
    nodes: Seq<SourceUnitNode>,
    x: FindingView,
)
    requires
        rule_findings(Rule::UpgradeAccessControl, nodes).contains(x),
    ensures
        exists|i: int, j: int|
            #[trigger] function_at(nodes, i, j) matches Some(f) && ({
                let n = normalized(f.name@);
                n == "upgrade"@ || n == "upgradeto"@ || n == "upgradetoandcall"@ || n
                    == "setimplementation"@
            }) && (visibility_is(f, "public"@) || visibility_is(f, "external"@))
                && !has_identifier_modifier(
                f.modifiers@,
                |l: Seq<char>|
                    contains_text(l, "onlyowner"@) || contains_text(l, "onlyadmin"@)
                        || contains_text(l, "adminonly"@) || contains_text(l, "onlyrole"@)
                        || contains_text(l, "auth"@),
            ) && x.contract_name == contract_at(nodes, i)->0.name@ && x.function_name == Some(
                f.name@,
            ),
{
    let (i, j) = lemma_finding_source(Rule::UpgradeAccessControl, nodes, x);
    let c = contract_at(nodes, i)->0;
    let f = function_at(nodes, i, j)->0;
    reveal_strlit("unknown");
    reveal_strlit("public");
    reveal_strlit("external");
    let p = |l: Seq<char>|
        contains_text(l, "onlyowner"@) || contains_text(l, "onlyadmin"@) || contains_text(
            l,
            "adminonly"@,
        ) || contains_text(l, "onlyrole"@) || contains_text(l, "auth"@);
    lemma_identifier_modifiers(f.modifiers@, p);
    let low = lowered_names(modifier_names(f.modifiers@));
    if has_identifier_modifier(f.modifiers@, p) {
        let k = choose|k: int| 0 <= k < low.len() && #[trigger] p(low[k]);
        assert(crate::spec::marks_access_control(low[k]));
    }
    assert(visibility_is(f, "public"@) || visibility_is(f, "external"@));
    assert(function_at(nodes, i, j) matches Some(ff) && ff == f);
}

} // verus!
