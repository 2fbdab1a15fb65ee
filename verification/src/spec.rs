//! What each detection rule reports, stated over the AST model: the findings
//! as characters, in the order in which the rules visit the AST.

use vstd::prelude::*;

use crate::finding::FindingView;
use crate::model::{
    ContractDefinition, ContractNode, Expression, FunctionDefinition, ModifierInvocation,
    ModifierName, SourceUnitNode, Statement,
};
use crate::text::{contains_text, joined, lowercased, normalized};

verus! {

/// The five detection rules, in the order in which all of them run.
#[derive(Debug, Clone, Copy, PartialEq, Eq, Structural)]
pub enum Rule {
    /// UPG-001: initializer exposure.
    InitializerExposure,
    /// UPG-002: implementation contract that may be unlocked.
    UnlockedImplementation,
    /// UPG-003: upgrade path that may lack access control.
    UpgradeAccessControl,
    /// UPG-004: low-level `delegatecall` / `call`.
    LowLevelCall,
    /// UPG-005: `selfdestruct` / `suicide`.
    DestructiveCall,
}

// ---------------------------------------------------------------------------
// Evidence texts shared by the rules

pub open spec fn contract_evidence(contract: Seq<char>) -> Seq<char> {
    "Contract '"@ + contract + "'"@
}

pub open spec fn function_evidence(name: Seq<char>) -> Seq<char> {
    "Function '"@ + name + "'"@
}

pub open spec fn visibility_evidence(vis: Seq<char>) -> Seq<char> {
    "Visibility '"@ + vis + "'"@
}

/// The evidence line on the modifier names of a function.
pub open spec fn modifiers_evidence(names: Seq<Seq<char>>) -> Seq<char> {
    if names.len() == 0 {
        "No recognized modifier names found"@
    } else {
        "Modifiers: "@ + joined(names, ", "@)
    }
}

// ---------------------------------------------------------------------------
// Facts about one function

/// The visibility a function declares, `unknown` where it declares none.
pub open spec fn visibility_text(vis: Option<String>) -> Seq<char> {
    match vis {
        Some(v) => v@,
        None => "unknown"@,
    }
}

/// The name of one modifier invocation, where it is a plain identifier.
pub open spec fn modifier_name_of(m: ModifierInvocation) -> Seq<Seq<char>> {
    match m.modifier_name {
        Some(ModifierName::Identifier { name }) => seq![name@],
        _ => Seq::empty(),
    }
}

/// The identifier names of a function's modifiers, in order.
pub open spec fn modifier_names(mods: Seq<ModifierInvocation>) -> Seq<Seq<char>> {
    mods.flat_map(|m: ModifierInvocation| modifier_name_of(m))
}

/// A normalized function name that reads `initialize` or `init`.
pub open spec fn names_initializer(n: Seq<char>) -> bool {
    n == "initialize"@ || n == "init"@
}

/// A normalized function name of one that replaces the implementation.
pub open spec fn names_upgrade(n: Seq<char>) -> bool {
    n == "upgrade"@ || n == "upgradeto"@ || n == "upgradetoandcall"@ || n == "setimplementation"@
}

/// A lower-cased modifier name that marks an initializer.
pub open spec fn marks_initializer(l: Seq<char>) -> bool {
    l == "initializer"@ || l == "reinitializer"@
}

/// The lower-cased form of each name.
pub open spec fn lowered_names(names: Seq<Seq<char>>) -> Seq<Seq<char>> {
    names.map_values(|n: Seq<char>| lowercased(n))
}

/// One of the lower-cased modifier names marks an initializer.
pub open spec fn any_marks_initializer(lowered: Seq<Seq<char>>) -> bool {
    exists|i: int| 0 <= i < lowered.len() && #[trigger] marks_initializer(lowered[i])
}

/// A lower-cased modifier name that suggests access control.
pub open spec fn marks_access_control(l: Seq<char>) -> bool {
    contains_text(l, "onlyowner"@) || contains_text(l, "onlyadmin"@) || contains_text(
        l,
        "adminonly"@,
    ) || contains_text(l, "onlyrole"@) || contains_text(l, "auth"@)
}

/// One of the lower-cased modifier names suggests access control.
pub open spec fn any_marks_access_control(lowered: Seq<Seq<char>>) -> bool {
    exists|i: int| 0 <= i < lowered.len() && #[trigger] marks_access_control(lowered[i])
}

/// Visibility `public` or `external`.
pub open spec fn is_externally_reachable(vis: Seq<char>) -> bool {
    vis == "public"@ || vis == "external"@
}

/// The severity of an initializer-like function.
pub open spec fn initializer_severity(vis: Seq<char>, guarded: bool) -> Seq<char> {
    if is_externally_reachable(vis) {
        if guarded {
            "LOW"@
        } else {
            "HIGH"@
        }
    } else if vis == "internal"@ || vis == "private"@ {
        "LOW"@
    } else {
        "MEDIUM"@
    }
}

/// A function whose kind is `constructor`.
pub open spec fn is_constructor(f: FunctionDefinition) -> bool {
    match f.kind {
        Some(k) => k@ == "constructor"@,
        None => false,
    }
}

/// The callee of a call statement, where the statement is one.
pub open spec fn called_expression(s: Statement) -> Option<Expression> {
    match s {
        Statement::ExpressionStatement(es) => match es.expression {
            Expression::FunctionCall(call) => Some(*call.expression),
            _ => None,
        },
        Statement::Other => None,
    }
}

/// A statement that calls `_disableInitializers` by name.
pub open spec fn calls_disable_initializers(s: Statement) -> bool {
    match called_expression(s) {
        Some(Expression::Identifier { name }) => name@ == "_disableInitializers"@,
        _ => false,
    }
}

/// A constructor whose body calls `_disableInitializers`.
pub open spec fn constructor_disables_initializers(f: FunctionDefinition) -> bool {
    is_constructor(f) && match f.body {
        Some(b) => exists|k: int|
            0 <= k < b.statements@.len() && #[trigger] calls_disable_initializers(
                b.statements@[k],
            ),
        None => false,
    }
}

// ---------------------------------------------------------------------------
// Facts about one contract

/// The form in which a member's name is compared: the function's name
/// trimmed and lower-cased; empty for a member that is not a function.
pub open spec fn member_name_key(m: ContractNode) -> Seq<char> {
    match m {
        ContractNode::FunctionDefinition(f) => normalized(f.name@),
        ContractNode::Other => Seq::empty(),
    }
}

/// The name keys of the members, in order.
pub open spec fn member_name_keys(members: Seq<ContractNode>) -> Seq<Seq<char>> {
    members.map_values(|m: ContractNode| member_name_key(m))
}

/// A member that is a function whose name key reads `initialize` or `init`.
pub open spec fn member_initializer_given(m: ContractNode, key: Seq<char>) -> bool {
    m is FunctionDefinition && names_initializer(key)
}

pub open spec fn member_is_constructor(m: ContractNode) -> bool {
    match m {
        ContractNode::FunctionDefinition(f) => is_constructor(f),
        ContractNode::Other => false,
    }
}

pub open spec fn member_disables_initializers(m: ContractNode) -> bool {
    match m {
        ContractNode::FunctionDefinition(f) => constructor_disables_initializers(f),
        ContractNode::Other => false,
    }
}

/// Given the members' name keys: one member is an initializer-like function.
pub open spec fn has_initializer_function_given(c: ContractDefinition, keys: Seq<Seq<char>>) -> bool {
    exists|j: int|
        0 <= j < c.nodes@.len() && #[trigger] member_initializer_given(c.nodes@[j], keys[j])
}

pub open spec fn has_initializer_function(c: ContractDefinition) -> bool {
    has_initializer_function_given(c, member_name_keys(c.nodes@))
}

pub open spec fn has_constructor(c: ContractDefinition) -> bool {
    exists|j: int| 0 <= j < c.nodes@.len() && #[trigger] member_is_constructor(c.nodes@[j])
}

pub open spec fn disables_initializers(c: ContractDefinition) -> bool {
    exists|j: int|
        0 <= j < c.nodes@.len() && #[trigger] member_disables_initializers(c.nodes@[j])
}

// ---------------------------------------------------------------------------
// The findings of each rule

/// UPG-001 at one function, given its name trimmed and lower-cased
/// (`name_key`) and its modifier names lower-cased (`lowered`).
pub open spec fn initializer_findings_given(
    contract: Seq<char>,
    f: FunctionDefinition,
    name_key: Seq<char>,
    lowered: Seq<Seq<char>>,
) -> Seq<FindingView> {
    if names_initializer(name_key) {
        let vis = visibility_text(f.visibility);
        let names = modifier_names(f.modifiers@);
        let guarded = any_marks_initializer(lowered);
        seq![
            FindingView {
                id: "UPG-001"@,
                severity: initializer_severity(vis, guarded),
                title: if guarded {
                    "Initializer-like function found with initializer-style modifier"@
                } else {
                    "Initializer-like function may be insufficiently protected"@
                },
                description: if guarded {
                    "A function named initialize/init was found with an initializer-like modifier. Review whether initialization is properly restricted and whether the implementation contract is locked."@
                } else {
                    "A function named initialize/init was found without a recognized initializer-style modifier. Review whether the function is externally reachable and properly protected."@
                },
                contract_name: contract,
                function_name: Some(f.name@),
                evidence: seq![
                    contract_evidence(contract),
                    function_evidence(f.name@),
                    "Name matches initializer-like pattern"@,
                    visibility_evidence(vis),
                    modifiers_evidence(names),
                    if guarded {
                        "Initializer-style modifier detected"@
                    } else {
                        "Initializer-style modifier not detected"@
                    },
                ],
            },
        ]
    } else {
        Seq::empty()
    }
}

/// UPG-001 at one function.
pub open spec fn initializer_findings(contract: Seq<char>, f: FunctionDefinition) -> Seq<
    FindingView,
> {
    initializer_findings_given(
        contract,
        f,
        normalized(f.name@),
        lowered_names(modifier_names(f.modifiers@)),
    )
}

/// UPG-002 at one contract, given the name key of each member.
pub open spec fn unlocked_findings_given(c: ContractDefinition, keys: Seq<Seq<char>>) -> Seq<
    FindingView,
> {
    if has_initializer_function_given(c, keys) && !disables_initializers(c) {
        seq![
            FindingView {
                id: "UPG-002"@,
                severity: "HIGH"@,
                title: "Implementation lock may be missing"@,
                description: "An initializer-like function was found, but a constructor-level _disableInitializers() pattern was not detected. Review whether the implementation contract is properly locked."@,
                contract_name: c.name@,
                function_name: None,
                evidence: seq![
                    contract_evidence(c.name@),
                    "Initializer-like function detected in contract"@,
                    if has_constructor(c) {
                        "Constructor found"@
                    } else {
                        "Constructor not found"@
                    },
                    "_disableInitializers() call not detected in constructor"@,
                ],
            },
        ]
    } else {
        Seq::empty()
    }
}

/// UPG-002 at one contract.
pub open spec fn unlocked_findings(c: ContractDefinition) -> Seq<FindingView> {
    unlocked_findings_given(c, member_name_keys(c.nodes@))
}

/// UPG-003 at one function, given its name trimmed and lower-cased
/// (`name_key`) and its modifier names lower-cased (`lowered`).
pub open spec fn upgrade_access_findings_given(
    contract: Seq<char>,
    f: FunctionDefinition,
    name_key: Seq<char>,
    lowered: Seq<Seq<char>>,
) -> Seq<FindingView> {
    let vis = visibility_text(f.visibility);
    let names = modifier_names(f.modifiers@);
    if names_upgrade(name_key) && is_externally_reachable(vis) && !any_marks_access_control(
        lowered,
    ) {
        seq![
            FindingView {
                id: "UPG-003"@,
                severity: "HIGH"@,
                title: "Upgrade-like function may lack access control"@,
                description: "An externally reachable upgrade-like function was found without a recognized access-control modifier. Review whether upgrade authorization is properly enforced."@,
                contract_name: contract,
                function_name: Some(f.name@),
                evidence: seq![
                    contract_evidence(contract),
                    function_evidence(f.name@),
                    "Name matches upgrade-like sensitive function pattern"@,
                    visibility_evidence(vis),
                    modifiers_evidence(names),
                    "No recognized access-control modifier detected"@,
                ],
            },
        ]
    } else {
        Seq::empty()
    }
}

/// UPG-003 at one function.
pub open spec fn upgrade_access_findings(contract: Seq<char>, f: FunctionDefinition) -> Seq<
    FindingView,
> {
    upgrade_access_findings_given(
        contract,
        f,
        normalized(f.name@),
        lowered_names(modifier_names(f.modifiers@)),
    )
}

/// The low-level member a call statement goes through, where it is
/// `delegatecall` or `call`.
pub open spec fn low_level_member(s: Statement) -> Option<Seq<char>> {
    match called_expression(s) {
        Some(Expression::MemberAccess(m)) => if m.member_name@ == "delegatecall"@
            || m.member_name@ == "call"@ {
            Some(m.member_name@)
        } else {
            None
        },
        _ => None,
    }
}

/// UPG-004 at one statement of a function.
pub open spec fn low_level_statement_findings(
    contract: Seq<char>,
    function: Seq<char>,
    s: Statement,
) -> Seq<FindingView> {
    match low_level_member(s) {
        Some(m) => seq![
            FindingView {
                id: "UPG-004"@,
                severity: if m == "delegatecall"@ {
                    "HIGH"@
                } else {
                    "MEDIUM"@
                },
                title: "Low-level "@ + m + " usage detected"@,
                description: "A low-level "@ + m
                    + " usage pattern was detected. Review whether the target, input data, return handling, and authorization checks are safe."@,
                contract_name: contract,
                function_name: Some(function),
                evidence: seq![
                    contract_evidence(contract),
                    function_evidence(function),
                    "Low-level member access '"@ + m + "'"@,
                ],
            },
        ],
        None => Seq::empty(),
    }
}

/// The destructive function a call statement calls by name, where it is
/// `selfdestruct` or `suicide`.
pub open spec fn destructive_callee(s: Statement) -> Option<Seq<char>> {
    match called_expression(s) {
        Some(Expression::Identifier { name }) => if name@ == "selfdestruct"@ || name@
            == "suicide"@ {
            Some(name@)
        } else {
            None
        },
        _ => None,
    }
}

/// UPG-005 at one statement of a function.
pub open spec fn destructive_statement_findings(
    contract: Seq<char>,
    function: Seq<char>,
    s: Statement,
) -> Seq<FindingView> {
    match destructive_callee(s) {
        Some(name) => seq![
            FindingView {
                id: "UPG-005"@,
                severity: "HIGH"@,
                title: "Destructive "@ + name + " usage detected"@,
                description: "A destructive "@ + name
                    + " usage pattern was detected. Review whether contract destruction is intended, authorized, and safe in the upgradeable architecture."@,
                contract_name: contract,
                function_name: Some(function),
                evidence: seq![
                    contract_evidence(contract),
                    function_evidence(function),
                    "Destructive call '"@ + name + "'"@,
                ],
            },
        ],
        None => Seq::empty(),
    }
}

/// The findings of a statement-level rule at one statement.
pub open spec fn statement_findings(
    rule: Rule,
    contract: Seq<char>,
    function: Seq<char>,
    s: Statement,
) -> Seq<FindingView> {
    match rule {
        Rule::LowLevelCall => low_level_statement_findings(contract, function, s),
        Rule::DestructiveCall => destructive_statement_findings(contract, function, s),
        _ => Seq::empty(),
    }
}

/// The findings of a rule at one function of a contract.
pub open spec fn function_findings(rule: Rule, contract: Seq<char>, f: FunctionDefinition) -> Seq<
    FindingView,
> {
    match rule {
        Rule::InitializerExposure => initializer_findings(contract, f),
        Rule::UpgradeAccessControl => upgrade_access_findings(contract, f),
        Rule::LowLevelCall | Rule::DestructiveCall => match f.body {
            Some(b) => b.statements@.flat_map(
                |s: Statement| statement_findings(rule, contract, f.name@, s),
            ),
            None => Seq::empty(),
        },
        Rule::UnlockedImplementation => Seq::empty(),
    }
}

/// The findings of a rule at one member of a contract.
pub open spec fn member_findings(rule: Rule, contract: Seq<char>, m: ContractNode) -> Seq<
    FindingView,
> {
    match m {
        ContractNode::FunctionDefinition(f) => function_findings(rule, contract, f),
        ContractNode::Other => Seq::empty(),
    }
}

/// The findings of a rule at one contract.
pub open spec fn contract_findings(rule: Rule, c: ContractDefinition) -> Seq<FindingView> {
    match rule {
        Rule::UnlockedImplementation => unlocked_findings(c),
        _ => c.nodes@.flat_map(|m: ContractNode| member_findings(rule, c.name@, m)),
    }
}

/// The findings of a rule at one top-level node.
pub open spec fn unit_findings(rule: Rule, n: SourceUnitNode) -> Seq<FindingView> {
    match n {
        SourceUnitNode::ContractDefinition(c) => contract_findings(rule, c),
        SourceUnitNode::Other => Seq::empty(),
    }
}

/// The findings of a rule on a source unit's nodes, contract by contract.
pub open spec fn rule_findings(rule: Rule, nodes: Seq<SourceUnitNode>) -> Seq<FindingView> {
    nodes.flat_map(|n: SourceUnitNode| unit_findings(rule, n))
}

/// The findings of all rules, rule by rule.
pub open spec fn all_findings(nodes: Seq<SourceUnitNode>) -> Seq<FindingView> {
    rule_findings(Rule::InitializerExposure, nodes) + rule_findings(
        Rule::UnlockedImplementation,
        nodes,
    ) + rule_findings(Rule::UpgradeAccessControl, nodes) + rule_findings(
        Rule::LowLevelCall,
        nodes,
    ) + rule_findings(Rule::DestructiveCall, nodes)
}

} // verus!
