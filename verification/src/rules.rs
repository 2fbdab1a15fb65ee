//! The detection rules. Each walks the AST in order and reports exactly the
//! findings that `crate::spec` states for it.

use vstd::prelude::*;

use crate::finding::{findings_view, Finding};
use crate::model::{
    AstRoot, ContractDefinition, ContractNode, Expression, FunctionDefinition, ModifierInvocation,
    ModifierName, SourceUnitNode, Statement,
};
use crate::spec::{
    all_findings, any_marks_access_control, any_marks_initializer, called_expression,
    calls_disable_initializers, constructor_disables_initializers, contract_findings,
    destructive_statement_findings, function_findings, initializer_findings,
    initializer_findings_given, initializer_severity, is_constructor, is_externally_reachable,
    low_level_statement_findings, lowered_names, marks_access_control, marks_initializer,
    member_disables_initializers, member_findings, member_initializer_given, member_is_constructor,
    member_name_key, member_name_keys, modifier_name_of, modifier_names, modifiers_evidence,
    names_initializer, names_upgrade, rule_findings, statement_findings, unit_findings,
    unlocked_findings, unlocked_findings_given, upgrade_access_findings,
    upgrade_access_findings_given, visibility_text, Rule,
};
use crate::text::{
    concat_text, join_texts, lowercase_text, normalize, lowercased, surround, text_contains,
    text_equals, to_owned_text, views_of,
};

verus! {

broadcast use vstd::seq_lib::group_seq_properties;

/// Whether a trimmed, lower-cased function name reads `initialize` or `init`.
pub fn is_initializer_like_name(normalized: &str) -> (r: bool)
    ensures
        r == names_initializer(normalized@),
{
    text_equals(normalized, "initialize") || text_equals(normalized, "init")
}

/// Whether a trimmed, lower-cased function name reads like one that replaces
/// the implementation.
pub fn is_upgrade_like_name(normalized: &str) -> (r: bool)
    ensures
        r == names_upgrade(normalized@),
{
    text_equals(normalized, "upgrade") || text_equals(normalized, "upgradeto") || text_equals(
        normalized,
        "upgradetoandcall",
    ) || text_equals(normalized, "setimplementation")
}

/// Whether a lower-cased modifier name is `initializer` or `reinitializer`.
pub fn is_initializer_modifier_name(lowered: &str) -> (r: bool)
    ensures
        r == marks_initializer(lowered@),
{
    text_equals(lowered, "initializer") || text_equals(lowered, "reinitializer")
}

/// Whether a lower-cased modifier name holds one of the access-control markers.
pub fn is_access_control_modifier_name(lowered: &str) -> (r: bool)
    ensures
        r == marks_access_control(lowered@),
{
    text_contains(lowered, "onlyowner") || text_contains(lowered, "onlyadmin") || text_contains(
        lowered,
        "adminonly",
    ) || text_contains(lowered, "onlyrole") || text_contains(lowered, "auth")
}

/// Whether a visibility is `public` or `external`.
pub fn is_externally_reachable_text(visibility: &str) -> (r: bool)
    ensures
        r == is_externally_reachable(visibility@),
{
    text_equals(visibility, "public") || text_equals(visibility, "external")
}

/// The severity of an initializer-like function with this visibility, with
/// or without an initializer-style modifier.
pub fn initializer_severity_text(visibility: &str, guarded: bool) -> (r: String)
    ensures
        r@ == initializer_severity(visibility@, guarded),
{
    if is_externally_reachable_text(visibility) {
        if guarded {
            to_owned_text("LOW")
        } else {
            to_owned_text("HIGH")
        }
    } else if text_equals(visibility, "internal") || text_equals(visibility, "private") {
        to_owned_text("LOW")
    } else {
        to_owned_text("MEDIUM")
    }
}

/// Moves the findings of `src` to the end of `dst`.
fn append_findings(dst: &mut Vec<Finding>, src: Vec<Finding>)
    ensures
        findings_view(final(dst)@) == findings_view(old(dst)@) + findings_view(src@),
{
    let ghost added = src@;
    let mut src = src;
    dst.append(&mut src);
    assert(findings_view(dst@) =~= findings_view(old(dst)@) + findings_view(added));
}

/// A list holding one finding.
fn single(f: Finding) -> (r: Vec<Finding>)
    ensures
        findings_view(r@) == seq![f@],
{
    let mut r: Vec<Finding> = Vec::new();
    r.push(f);
    assert(findings_view(r@) =~= seq![f@]);
    r
}

/// The identifier names of the modifiers, in order.
fn modifier_names_of(mods: &Vec<ModifierInvocation>) -> (r: Vec<String>)
    ensures
        views_of(r@) == modifier_names(mods@),
{
    let mut r: Vec<String> = Vec::new();
    let n = mods.len();
    let mut i: usize = 0;
    while i < n
        invariant
            n == mods@.len(),
            i <= n,
            views_of(r@) == modifier_names(mods@.take(i as int)),
        decreases n - i,
    {
        proof {
            mods@.lemma_flat_map_take_append(|m: ModifierInvocation| modifier_name_of(m), i as int);
        }
        match &mods[i].modifier_name {
            Some(ModifierName::Identifier { name }) => {
                r.push(name.clone());
            },
            _ => {},
        }
        assert(views_of(r@) =~= modifier_names(mods@.take(i + 1)));
        i += 1;
    }
    assert(mods@.take(n as int) =~= mods@);
    r
}

/// The lower-cased form of each name (what `str::to_lowercase` returns for it).
fn lowered_of(names: &Vec<String>) -> (r: Vec<String>)
    ensures
        views_of(r@) == lowered_names(views_of(names@)),
{
    let mut r: Vec<String> = Vec::new();
    let n = names.len();
    let mut i: usize = 0;
    while i < n
        invariant
            n == names@.len(),
            i <= n,
            r@.len() == i,
            forall|k: int| 0 <= k < i ==> #[trigger] r@[k]@ == lowercased(names@[k]@),
        decreases n - i,
    {
        r.push(lowercase_text(names[i].as_str()));
        i += 1;
    }
    assert(views_of(r@) =~= lowered_names(views_of(names@)));
    r
}

/// Whether one of the lower-cased modifier names is `initializer` or `reinitializer`.
pub fn any_initializer_modifier_name(lowered: &Vec<String>) -> (r: bool)
    ensures
        r == any_marks_initializer(views_of(lowered@)),
{
    let n = lowered.len();
    let mut i: usize = 0;
    while i < n
        invariant
            n == lowered@.len(),
            i <= n,
            forall|k: int| 0 <= k < i ==> !#[trigger] marks_initializer(lowered@[k]@),
        decreases n - i,
    {
        if is_initializer_modifier_name(lowered[i].as_str()) {
            assert(marks_initializer(views_of(lowered@)[i as int]));
            return true;
        }
        i += 1;
    }
    assert(!any_marks_initializer(views_of(lowered@))) by {
        assert forall|k: int| 0 <= k < lowered@.len() implies !#[trigger] marks_initializer(
            views_of(lowered@)[k],
        ) by {
            assert(!marks_initializer(lowered@[k]@));
        }
    }
    false
}

/// Whether one of the lower-cased modifier names holds an access-control marker.
pub fn any_access_control_modifier_name(lowered: &Vec<String>) -> (r: bool)
    ensures
        r == any_marks_access_control(views_of(lowered@)),
{
    let n = lowered.len();
    let mut i: usize = 0;
    while i < n
        invariant
            n == lowered@.len(),
            i <= n,
            forall|k: int| 0 <= k < i ==> !#[trigger] marks_access_control(lowered@[k]@),
        decreases n - i,
    {
        if is_access_control_modifier_name(lowered[i].as_str()) {
            assert(marks_access_control(views_of(lowered@)[i as int]));
            return true;
        }
        i += 1;
    }
    assert(!any_marks_access_control(views_of(lowered@))) by {
        assert forall|k: int|
            0 <= k < lowered@.len() implies !#[trigger] marks_access_control(
            views_of(lowered@)[k],
        ) by {
            assert(!marks_access_control(lowered@[k]@));
        }
    }
    false
}

/// The visibility a function declares, `unknown` where it declares none.
fn visibility_of(f: &FunctionDefinition) -> (r: String)
    ensures
        r@ == visibility_text(f.visibility),
{
    match &f.visibility {
        Some(v) => v.clone(),
        None => to_owned_text("unknown"),
    }
}

/// The evidence line on the modifier names.
fn modifiers_evidence_of(names: &Vec<String>) -> (r: String)
    ensures
        r@ == modifiers_evidence(views_of(names@)),
{
    if names.len() == 0 {
        to_owned_text("No recognized modifier names found")
    } else {
        let joined = join_texts(names, ", ");
        concat_text("Modifiers: ", joined.as_str())
    }
}

/// UPG-001 at one function.
fn initializer_finding_at(contract: &String, f: &FunctionDefinition) -> (r: Vec<Finding>)
    ensures
        findings_view(r@) == initializer_findings(contract@, *f),
{
    let name_key = normalize(f.name.as_str());
    let names = modifier_names_of(&f.modifiers);
    let lowered = lowered_of(&names);
    initializer_finding_for(contract, f, name_key.as_str(), &lowered)
}

/// UPG-001 at one function, given the function's name trimmed and
/// lower-cased (`name_key`) and its modifier names lower-cased (`lowered`).
pub fn initializer_finding_for(
    contract: &String,
    f: &FunctionDefinition,
    name_key: &str,
    lowered: &Vec<String>,
) -> (r: Vec<Finding>)
    ensures
        findings_view(r@) == initializer_findings_given(contract@, *f, name_key@, views_of(lowered@)),
{
    if !is_initializer_like_name(name_key) {
        return Vec::new();
    }
    let visibility = visibility_of(f);
    let names = modifier_names_of(&f.modifiers);
    let guarded = any_initializer_modifier_name(lowered);
    let severity = initializer_severity_text(visibility.as_str(), guarded);
    let title = if guarded {
        to_owned_text("Initializer-like function found with initializer-style modifier")
    } else {
        to_owned_text("Initializer-like function may be insufficiently protected")
    };
    let description = if guarded {
        to_owned_text(
            "A function named initialize/init was found with an initializer-like modifier. Review whether initialization is properly restricted and whether the implementation contract is locked.",
        )
    } else {
        to_owned_text(
            "A function named initialize/init was found without a recognized initializer-style modifier. Review whether the function is externally reachable and properly protected.",
        )
    };
    let mut evidence: Vec<String> = Vec::new();
    evidence.push(surround("Contract '", contract.as_str(), "'"));
    evidence.push(surround("Function '", f.name.as_str(), "'"));
    evidence.push(to_owned_text("Name matches initializer-like pattern"));
    evidence.push(surround("Visibility '", visibility.as_str(), "'"));
    evidence.push(modifiers_evidence_of(&names));
    if guarded {
        evidence.push(to_owned_text("Initializer-style modifier detected"));
    } else {
        evidence.push(to_owned_text("Initializer-style modifier not detected"));
    }
    let finding = Finding {
        id: to_owned_text("UPG-001"),
        severity,
        title,
        description,
        contract_name: contract.clone(),
        function_name: Some(f.name.clone()),
        evidence,
    };
    let ghost expected = initializer_findings_given(contract@, *f, name_key@, views_of(lowered@));
    assert(finding@ =~~= expected[0]);
    let r = single(finding);
    assert(findings_view(r@) =~~= expected);
    r
}

/// UPG-003 at one function.
fn upgrade_access_finding_at(contract: &String, f: &FunctionDefinition) -> (r: Vec<Finding>)
    ensures
        findings_view(r@) == upgrade_access_findings(contract@, *f),
{
    let name_key = normalize(f.name.as_str());
    let names = modifier_names_of(&f.modifiers);
    let lowered = lowered_of(&names);
    upgrade_access_finding_for(contract, f, name_key.as_str(), &lowered)
}

/// UPG-003 at one function, given the function's name trimmed and
/// lower-cased (`name_key`) and its modifier names lower-cased (`lowered`).
pub fn upgrade_access_finding_for(
    contract: &String,
    f: &FunctionDefinition,
    name_key: &str,
    lowered: &Vec<String>,
) -> (r: Vec<Finding>)
    ensures
        findings_view(r@) == upgrade_access_findings_given(
            contract@,
            *f,
            name_key@,
            views_of(lowered@),
        ),
{
    if !is_upgrade_like_name(name_key) {
        return Vec::new();
    }
    let visibility = visibility_of(f);
    let names = modifier_names_of(&f.modifiers);
    let guarded = any_access_control_modifier_name(lowered);
    let reachable = is_externally_reachable_text(visibility.as_str());
    if !reachable || guarded {
        return Vec::new();
    }
    let mut evidence: Vec<String> = Vec::new();
    evidence.push(surround("Contract '", contract.as_str(), "'"));
    evidence.push(surround("Function '", f.name.as_str(), "'"));
    evidence.push(to_owned_text("Name matches upgrade-like sensitive function pattern"));
    evidence.push(surround("Visibility '", visibility.as_str(), "'"));
    evidence.push(modifiers_evidence_of(&names));
    evidence.push(to_owned_text("No recognized access-control modifier detected"));
    let finding = Finding {
        id: to_owned_text("UPG-003"),
        severity: to_owned_text("HIGH"),
        title: to_owned_text("Upgrade-like function may lack access control"),
        description: to_owned_text(
            "An externally reachable upgrade-like function was found without a recognized access-control modifier. Review whether upgrade authorization is properly enforced.",
        ),
        contract_name: contract.clone(),
        function_name: Some(f.name.clone()),
        evidence,
    };
    let ghost expected = upgrade_access_findings_given(
        contract@,
        *f,
        name_key@,
        views_of(lowered@),
    );
    assert(finding@ =~~= expected[0]);
    let r = single(finding);
    assert(findings_view(r@) =~~= expected);
    r
}

/// Whether a function's kind is `constructor`.
fn is_constructor_fn(f: &FunctionDefinition) -> (r: bool)
    ensures
        r == is_constructor(*f),
{
    match &f.kind {
        Some(k) => text_equals(k.as_str(), "constructor"),
        None => false,
    }
}

/// The callee of a call statement, where the statement is one.
fn called_expression_of(s: &Statement) -> (r: Option<&Expression>)
    ensures
        match r {
            Some(e) => called_expression(*s) == Some(*e),
            None => called_expression(*s) is None,
        },
{
    match s {
        Statement::ExpressionStatement(es) => match &es.expression {
            Expression::FunctionCall(call) => Some(&*call.expression),
            _ => None,
        },
        Statement::Other => None,
    }
}

/// Whether a statement calls `_disableInitializers` by name.
fn calls_disable_initializers_at(s: &Statement) -> (r: bool)
    ensures
        r == calls_disable_initializers(*s),
{
    match called_expression_of(s) {
        Some(Expression::Identifier { name }) => text_equals(name.as_str(), "_disableInitializers"),
        _ => false,
    }
}

/// Whether a constructor's body calls `_disableInitializers`.
fn constructor_disables_at(f: &FunctionDefinition) -> (r: bool)
    ensures
        r == constructor_disables_initializers(*f),
{
    if !is_constructor_fn(f) {
        return false;
    }
    match &f.body {
        Some(b) => {
            let n = b.statements.len();
            let mut k: usize = 0;
            while k < n
                invariant
                    n == b.statements@.len(),
                    k <= n,
                    is_constructor(*f),
                    f.body == Some(*b),
                    forall|t: int|
                        0 <= t < k ==> !#[trigger] calls_disable_initializers(b.statements@[t]),
                decreases n - k,
            {
                if calls_disable_initializers_at(&b.statements[k]) {
                    assert(f.body->0.statements@[k as int] == b.statements@[k as int]);
                    return true;
                }
                k += 1;
            }
            false
        },
        None => false,
    }
}

/// UPG-002 at one contract.
fn unlocked_finding_at(c: &ContractDefinition) -> (r: Vec<Finding>)
    ensures
        findings_view(r@) == unlocked_findings(*c),
{
    let keys = member_name_keys_of(&c.nodes);
    unlocked_finding_for(c, &keys)
}

/// The name key of each member: a function's name trimmed and lower-cased,
/// empty for a member that is not a function.
fn member_name_keys_of(members: &Vec<ContractNode>) -> (r: Vec<String>)
    ensures
        r@.len() == members@.len(),
        views_of(r@) == member_name_keys(members@),
{
    let mut r: Vec<String> = Vec::new();
    let n = members.len();
    let mut i: usize = 0;
    while i < n
        invariant
            n == members@.len(),
            i <= n,
            r@.len() == i,
            forall|k: int| 0 <= k < i ==> #[trigger] r@[k]@ == member_name_key(members@[k]),
        decreases n - i,
    {
        match &members[i] {
            ContractNode::FunctionDefinition(f) => r.push(normalize(f.name.as_str())),
            ContractNode::Other => r.push(String::new()),
        }
        i += 1;
    }
    assert(views_of(r@) =~= member_name_keys(members@));
    r
}

/// UPG-002 at one contract, given the name key of each member (a function's
/// name trimmed and lower-cased), one key per member.
pub fn unlocked_finding_for(c: &ContractDefinition, keys: &Vec<String>) -> (r: Vec<Finding>)
    requires
        keys@.len() == c.nodes@.len(),
    ensures
        findings_view(r@) == unlocked_findings_given(*c, views_of(keys@)),
{
    let ghost key_views = views_of(keys@);
    let n = c.nodes.len();
    let mut has_init = false;
    let mut has_ctor = false;
    let mut disabled = false;
    let mut j: usize = 0;
    while j < n
        invariant
            n == c.nodes@.len(),
            j <= n,
            keys@.len() == n,
            key_views == views_of(keys@),
            has_init == exists|k: int|
                0 <= k < j && #[trigger] member_initializer_given(c.nodes@[k], key_views[k]),
            has_ctor == exists|k: int| 0 <= k < j && #[trigger] member_is_constructor(c.nodes@[k]),
            disabled == exists|k: int|
                0 <= k < j && #[trigger] member_disables_initializers(c.nodes@[k]),
        decreases n - j,
    {
        let (is_init, is_ctor, disables) = match &c.nodes[j] {
            ContractNode::FunctionDefinition(func) => {
                let is_init = is_initializer_like_name(keys[j].as_str());
                (is_init, is_constructor_fn(func), constructor_disables_at(func))
            },
            ContractNode::Other => (false, false, false),
        };
        proof {
            let m = c.nodes@[j as int];
            assert(is_init == member_initializer_given(m, key_views[j as int]));
            assert(is_ctor == member_is_constructor(m));
            assert(disables == member_disables_initializers(m));
        }
        has_init = has_init || is_init;
        has_ctor = has_ctor || is_ctor;
        disabled = disabled || disables;
        j += 1;
    }
    if !has_init || disabled {
        return Vec::new();
    }
    let mut evidence: Vec<String> = Vec::new();
    evidence.push(surround("Contract '", c.name.as_str(), "'"));
    evidence.push(to_owned_text("Initializer-like function detected in contract"));
    if has_ctor {
        evidence.push(to_owned_text("Constructor found"));
    } else {
        evidence.push(to_owned_text("Constructor not found"));
    }
    if disabled {
        evidence.push(to_owned_text("_disableInitializers() call detected in constructor"));
    } else {
        evidence.push(to_owned_text("_disableInitializers() call not detected in constructor"));
    }
    let finding = Finding {
        id: to_owned_text("UPG-002"),
        severity: to_owned_text("HIGH"),
        title: to_owned_text("Implementation lock may be missing"),
        description: to_owned_text(
            "An initializer-like function was found, but a constructor-level _disableInitializers() pattern was not detected. Review whether the implementation contract is properly locked.",
        ),
        contract_name: c.name.clone(),
        function_name: None,
        evidence,
    };
    let ghost expected = unlocked_findings_given(*c, key_views);
    assert(finding@ =~~= expected[0]);
    let r = single(finding);
    assert(findings_view(r@) =~~= expected);
    r
}

/// UPG-004 at one statement.
fn low_level_finding_at(contract: &String, function: &String, s: &Statement) -> (r: Vec<Finding>)
    ensures
        findings_view(r@) == low_level_statement_findings(contract@, function@, *s),
{
    let member = match called_expression_of(s) {
        Some(Expression::MemberAccess(m)) => {
            if text_equals(m.member_name.as_str(), "delegatecall") || text_equals(
                m.member_name.as_str(),
                "call",
            ) {
                &m.member_name
            } else {
                return Vec::new();
            }
        },
        _ => {
            return Vec::new();
        },
    };
    let severity = if text_equals(member.as_str(), "delegatecall") {
        to_owned_text("HIGH")
    } else {
        to_owned_text("MEDIUM")
    };
    let mut evidence: Vec<String> = Vec::new();
    evidence.push(surround("Contract '", contract.as_str(), "'"));
    evidence.push(surround("Function '", function.as_str(), "'"));
    evidence.push(surround("Low-level member access '", member.as_str(), "'"));
    let finding = Finding {
        id: to_owned_text("UPG-004"),
        severity,
        title: surround("Low-level ", member.as_str(), " usage detected"),
        description: surround(
            "A low-level ",
            member.as_str(),
            " usage pattern was detected. Review whether the target, input data, return handling, and authorization checks are safe.",
        ),
        contract_name: contract.clone(),
        function_name: Some(function.clone()),
        evidence,
    };
    let ghost expected = low_level_statement_findings(contract@, function@, *s);
    assert(finding@ =~~= expected[0]);
    let r = single(finding);
    assert(findings_view(r@) =~~= expected);
    r
}

/// UPG-005 at one statement.
fn destructive_finding_at(contract: &String, function: &String, s: &Statement) -> (r: Vec<
    Finding,
>)
    ensures
        findings_view(r@) == destructive_statement_findings(contract@, function@, *s),
{
    let callee = match called_expression_of(s) {
        Some(Expression::Identifier { name }) => {
            if text_equals(name.as_str(), "selfdestruct") || text_equals(
                name.as_str(),
                "suicide",
            ) {
                name
            } else {
                return Vec::new();
            }
        },
        _ => {
            return Vec::new();
        },
    };
    let mut evidence: Vec<String> = Vec::new();
    evidence.push(surround("Contract '", contract.as_str(), "'"));
    evidence.push(surround("Function '", function.as_str(), "'"));
    evidence.push(surround("Destructive call '", callee.as_str(), "'"));
    let finding = Finding {
        id: to_owned_text("UPG-005"),
        severity: to_owned_text("HIGH"),
        title: surround("Destructive ", callee.as_str(), " usage detected"),
        description: surround(
            "A destructive ",
            callee.as_str(),
            " usage pattern was detected. Review whether contract destruction is intended, authorized, and safe in the upgradeable architecture.",
        ),
        contract_name: contract.clone(),
        function_name: Some(function.clone()),
        evidence,
    };
    let ghost expected = destructive_statement_findings(contract@, function@, *s);
    assert(finding@ =~~= expected[0]);
    let r = single(finding);
    assert(findings_view(r@) =~~= expected);
    r
}

/// The findings of a statement-level rule at one statement.
fn statement_findings_at(rule: Rule, contract: &String, function: &String, s: &Statement) -> (r:
    Vec<Finding>)
    ensures
        findings_view(r@) == statement_findings(rule, contract@, function@, *s),
{
    match rule {
        Rule::LowLevelCall => low_level_finding_at(contract, function, s),
        Rule::DestructiveCall => destructive_finding_at(contract, function, s),
        _ => Vec::new(),
    }
}

/// The findings of a rule at one function.
fn function_findings_at(rule: Rule, contract: &String, f: &FunctionDefinition) -> (r: Vec<
    Finding,
>)
    ensures
        findings_view(r@) == function_findings(rule, contract@, *f),
{
    match rule {
        Rule::InitializerExposure => initializer_finding_at(contract, f),
        Rule::UpgradeAccessControl => upgrade_access_finding_at(contract, f),
        Rule::LowLevelCall | Rule::DestructiveCall => match &f.body {
            Some(b) => {
                let mut r: Vec<Finding> = Vec::new();
                let n = b.statements.len();
                let mut k: usize = 0;
                while k < n
                    invariant
                        n == b.statements@.len(),
                        k <= n,
                        rule == Rule::LowLevelCall || rule == Rule::DestructiveCall,
                        findings_view(r@) == b.statements@.take(k as int).flat_map(
                            |s: Statement| statement_findings(rule, contract@, f.name@, s),
                        ),
                    decreases n - k,
                {
                    proof {
                        b.statements@.lemma_flat_map_take_append(
                            |s: Statement| statement_findings(rule, contract@, f.name@, s),
                            k as int,
                        );
                    }
                    let found = statement_findings_at(rule, contract, &f.name, &b.statements[k]);
                    append_findings(&mut r, found);
                    k += 1;
                }
                assert(b.statements@.take(n as int) =~= b.statements@);
                r
            },
            None => Vec::new(),
        },
        Rule::UnlockedImplementation => Vec::new(),
    }
}

/// The findings of a rule at one contract.
fn contract_findings_at(rule: Rule, c: &ContractDefinition) -> (r: Vec<Finding>)
    ensures
        findings_view(r@) == contract_findings(rule, *c),
{
    if let Rule::UnlockedImplementation = rule {
        return unlocked_finding_at(c);
    }
    let mut r: Vec<Finding> = Vec::new();
    let n = c.nodes.len();
    let mut j: usize = 0;
    while j < n
        invariant
            n == c.nodes@.len(),
            j <= n,
            rule != Rule::UnlockedImplementation,
            findings_view(r@) == c.nodes@.take(j as int).flat_map(
                |m: ContractNode| member_findings(rule, c.name@, m),
            ),
        decreases n - j,
    {
        proof {
            c.nodes@.lemma_flat_map_take_append(
                |m: ContractNode| member_findings(rule, c.name@, m),
                j as int,
            );
        }
        match &c.nodes[j] {
            ContractNode::FunctionDefinition(f) => {
                let found = function_findings_at(rule, &c.name, f);
                append_findings(&mut r, found);
            },
            ContractNode::Other => {},
        }
        j += 1;
    }
    assert(c.nodes@.take(n as int) =~= c.nodes@);
    r
}

/// Runs one rule over a source unit: the findings of each contract, in
/// the order in which the contracts stand.
pub fn detect(rule: Rule, ast: &AstRoot) -> (r: Vec<Finding>)
    ensures
        findings_view(r@) == rule_findings(rule, ast.nodes@),
{
    let mut r: Vec<Finding> = Vec::new();
    let n = ast.nodes.len();
    let mut i: usize = 0;
    while i < n
        invariant
            n == ast.nodes@.len(),
            i <= n,
            findings_view(r@) == rule_findings(rule, ast.nodes@.take(i as int)),
        decreases n - i,
    {
        proof {
            ast.nodes@.lemma_flat_map_take_append(
                |u: SourceUnitNode| unit_findings(rule, u),
                i as int,
            );
        }
        match &ast.nodes[i] {
            SourceUnitNode::ContractDefinition(c) => {
                let found = contract_findings_at(rule, c);
                append_findings(&mut r, found);
            },
            SourceUnitNode::Other => {},
        }
        i += 1;
    }
    assert(ast.nodes@.take(n as int) =~= ast.nodes@);
    r
}

/// UPG-001: every function named `initialize` or `init` (ignoring case and
/// surrounding whitespace), with a severity by its visibility and modifiers.
pub fn detect_initializer_exposure(ast: &AstRoot) -> (r: Vec<Finding>)
    ensures
        findings_view(r@) == rule_findings(Rule::InitializerExposure, ast.nodes@),
{
    detect(Rule::InitializerExposure, ast)
}

/// UPG-002: every contract with an initializer-like function and no
/// constructor that calls `_disableInitializers`.
pub fn detect_unlocked_implementation_candidate(ast: &AstRoot) -> (r: Vec<Finding>)
    ensures
        findings_view(r@) == rule_findings(Rule::UnlockedImplementation, ast.nodes@),
{
    detect(Rule::UnlockedImplementation, ast)
}

/// UPG-003: every public or external upgrade-like function without an
/// access-control modifier.
pub fn detect_upgrade_access_control_candidate(ast: &AstRoot) -> (r: Vec<Finding>)
    ensures
        findings_view(r@) == rule_findings(Rule::UpgradeAccessControl, ast.nodes@),
{
    detect(Rule::UpgradeAccessControl, ast)
}

/// UPG-004: every statement that calls through `.delegatecall` or `.call`.
pub fn detect_low_level_call_candidates(ast: &AstRoot) -> (r: Vec<Finding>)
    ensures
        findings_view(r@) == rule_findings(Rule::LowLevelCall, ast.nodes@),
{
    detect(Rule::LowLevelCall, ast)
}

/// UPG-005: every statement that calls `selfdestruct` or `suicide`.
pub fn detect_destructive_call_candidates(ast: &AstRoot) -> (r: Vec<Finding>)
    ensures
        findings_view(r@) == rule_findings(Rule::DestructiveCall, ast.nodes@),
{
    detect(Rule::DestructiveCall, ast)
}

/// All five rules, one after another, their findings in that order.
pub fn run_all_rules(ast: &AstRoot) -> (r: Vec<Finding>)
    ensures
        findings_view(r@) == all_findings(ast.nodes@),
{
    let mut findings: Vec<Finding> = Vec::new();
    append_findings(&mut findings, detect_initializer_exposure(ast));
    append_findings(&mut findings, detect_unlocked_implementation_candidate(ast));
    append_findings(&mut findings, detect_upgrade_access_control_candidate(ast));
    append_findings(&mut findings, detect_low_level_call_candidates(ast));
    append_findings(&mut findings, detect_destructive_call_candidates(ast));
    findings
}

} // verus!
