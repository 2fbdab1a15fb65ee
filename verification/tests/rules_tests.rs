use upgrade_sentinel::finding::Finding;
use upgrade_sentinel::model::{
    AstRoot, Block, ContractDefinition, ContractNode, Expression, ExpressionStatement,
    FunctionCall, FunctionDefinition, MemberAccess, ModifierInvocation, ModifierName,
    SourceUnitNode, Statement,
};
use upgrade_sentinel::rules::{
    any_access_control_modifier_name, any_initializer_modifier_name, initializer_finding_for,
    unlocked_finding_for, upgrade_access_finding_for, initializer_severity_text, is_access_control_modifier_name, is_externally_reachable_text,
    is_initializer_like_name, is_initializer_modifier_name, is_upgrade_like_name, detect, detect_destructive_call_candidates, detect_initializer_exposure,
    detect_low_level_call_candidates, detect_unlocked_implementation_candidate,
    detect_upgrade_access_control_candidate, run_all_rules,
};
use upgrade_sentinel::spec::Rule;

fn modifier(name: &str) -> ModifierInvocation {
    ModifierInvocation { modifier_name: Some(ModifierName::Identifier { name: name.to_string() }) }
}

fn function(
    name: &str,
    kind: Option<&str>,
    visibility: Option<&str>,
    modifiers: Vec<ModifierInvocation>,
    body: Option<Vec<Statement>>,
) -> ContractNode {
    ContractNode::FunctionDefinition(FunctionDefinition {
        name: name.to_string(),
        kind: kind.map(|k| k.to_string()),
        visibility: visibility.map(|v| v.to_string()),
        modifiers,
        body: body.map(|statements| Block { statements }),
    })
}

fn plain(name: &str, visibility: &str) -> ContractNode {
    function(name, Some("function"), Some(visibility), vec![], Some(vec![]))
}

fn call_of(callee: Expression) -> Statement {
    Statement::ExpressionStatement(ExpressionStatement {
        expression: Expression::FunctionCall(FunctionCall { expression: Box::new(callee) }),
    })
}

fn call_name(name: &str) -> Statement {
    call_of(Expression::Identifier { name: name.to_string() })
}

fn call_member(member: &str) -> Statement {
    call_of(Expression::MemberAccess(MemberAccess { member_name: member.to_string() }))
}

fn contract(name: &str, nodes: Vec<ContractNode>) -> SourceUnitNode {
    SourceUnitNode::ContractDefinition(ContractDefinition { name: name.to_string(), nodes })
}

fn ast(nodes: Vec<SourceUnitNode>) -> AstRoot {
    AstRoot { nodes }
}

fn ev(f: &Finding) -> Vec<&str> {
    f.evidence.iter().map(|e| e.as_str()).collect()
}

#[test]
fn initializer_public_without_modifier_is_high() {
    let a = ast(vec![contract("Vault", vec![plain("initialize", "public")])]);
    let fs = detect_initializer_exposure(&a);
    assert_eq!(fs.len(), 1);
    let f = &fs[0];
    assert_eq!(f.id, "UPG-001");
    assert_eq!(f.severity, "HIGH");
    assert_eq!(f.title, "Initializer-like function may be insufficiently protected");
    assert_eq!(
        f.description,
        "A function named initialize/init was found without a recognized initializer-style modifier. Review whether the function is externally reachable and properly protected."
    );
    assert_eq!(f.contract_name, "Vault");
    assert_eq!(f.function_name.as_deref(), Some("initialize"));
    assert_eq!(
        ev(f),
        vec![
            "Contract 'Vault'",
            "Function 'initialize'",
            "Name matches initializer-like pattern",
            "Visibility 'public'",
            "No recognized modifier names found",
            "Initializer-style modifier not detected",
        ]
    );
}

#[test]
fn initializer_external_with_modifier_is_low() {
    let a = ast(vec![contract(
        "Vault",
        vec![function(
            "init",
            Some("function"),
            Some("external"),
            vec![modifier("Initializer"), modifier("onlyOwner")],
            Some(vec![]),
        )],
    )]);
    let fs = detect_initializer_exposure(&a);
    assert_eq!(fs.len(), 1);
    let f = &fs[0];
    assert_eq!(f.severity, "LOW");
    assert_eq!(f.title, "Initializer-like function found with initializer-style modifier");
    assert_eq!(
        f.description,
        "A function named initialize/init was found with an initializer-like modifier. Review whether initialization is properly restricted and whether the implementation contract is locked."
    );
    assert_eq!(ev(f)[3], "Visibility 'external'");
    assert_eq!(ev(f)[4], "Modifiers: Initializer, onlyOwner");
    assert_eq!(ev(f)[5], "Initializer-style modifier detected");
}

#[test]
fn initializer_severity_by_visibility() {
    let a = ast(vec![contract(
        "C",
        vec![
            plain("initialize", "internal"),
            plain("init", "private"),
            function("initialize", Some("function"), None, vec![], None),
            plain("initialize", "weird"),
        ],
    )]);
    let fs = detect_initializer_exposure(&a);
    let sev: Vec<&str> = fs.iter().map(|f| f.severity.as_str()).collect();
    assert_eq!(sev, vec!["LOW", "LOW", "MEDIUM", "MEDIUM"]);
    assert_eq!(ev(&fs[2])[3], "Visibility 'unknown'");
    assert_eq!(ev(&fs[3])[3], "Visibility 'weird'");
}

#[test]
fn initializer_name_is_trimmed_and_case_folded() {
    let a = ast(vec![contract(
        "C",
        vec![
            plain("  Initialize\t", "public"),
            plain("INIT", "public"),
            plain("initializer", "public"),
            plain("reinit", "public"),
            plain("in it", "public"),
        ],
    )]);
    let fs = detect_initializer_exposure(&a);
    assert_eq!(fs.len(), 2);
    assert_eq!(fs[0].function_name.as_deref(), Some("  Initialize\t"));
    assert_eq!(ev(&fs[0])[1], "Function '  Initialize\t'");
    assert_eq!(fs[1].function_name.as_deref(), Some("INIT"));
}

#[test]
fn initializer_modifier_names_skip_non_identifiers() {
    let a = ast(vec![contract(
        "C",
        vec![function(
            "initialize",
            None,
            Some("public"),
            vec![
                ModifierInvocation { modifier_name: None },
                ModifierInvocation { modifier_name: Some(ModifierName::Other) },
                modifier("reinitializer"),
            ],
            None,
        )],
    )]);
    let fs = detect_initializer_exposure(&a);
    assert_eq!(fs[0].severity, "LOW");
    assert_eq!(ev(&fs[0])[4], "Modifiers: reinitializer");
}

#[test]
fn initializer_modifier_must_match_exactly() {
    let a = ast(vec![contract(
        "C",
        vec![function("initialize", None, Some("public"), vec![modifier("initializerGuard")], None)],
    )]);
    let fs = detect_initializer_exposure(&a);
    assert_eq!(fs[0].severity, "HIGH");
    assert_eq!(ev(&fs[0])[4], "Modifiers: initializerGuard");
}

#[test]
fn unlocked_without_constructor() {
    let a = ast(vec![contract("Impl", vec![plain("initialize", "public")])]);
    let fs = detect_unlocked_implementation_candidate(&a);
    assert_eq!(fs.len(), 1);
    let f = &fs[0];
    assert_eq!(f.id, "UPG-002");
    assert_eq!(f.severity, "HIGH");
    assert_eq!(f.title, "Implementation lock may be missing");
    assert_eq!(
        f.description,
        "An initializer-like function was found, but a constructor-level _disableInitializers() pattern was not detected. Review whether the implementation contract is properly locked."
    );
    assert_eq!(f.contract_name, "Impl");
    assert_eq!(f.function_name, None);
    assert_eq!(
        ev(f),
        vec![
            "Contract 'Impl'",
            "Initializer-like function detected in contract",
            "Constructor not found",
            "_disableInitializers() call not detected in constructor",
        ]
    );
}

#[test]
fn unlocked_with_constructor_that_does_not_lock() {
    let a = ast(vec![contract(
        "Impl",
        vec![
            function("", Some("constructor"), Some("public"), vec![], Some(vec![call_name("setUp")])),
            plain("initialize", "public"),
        ],
    )]);
    let fs = detect_unlocked_implementation_candidate(&a);
    assert_eq!(fs.len(), 1);
    assert_eq!(ev(&fs[0])[2], "Constructor found");
}

#[test]
fn locked_implementation_is_not_reported() {
    let a = ast(vec![contract(
        "Impl",
        vec![
            function(
                "",
                Some("constructor"),
                Some("public"),
                vec![],
                Some(vec![Statement::Other, call_name("_disableInitializers")]),
            ),
            plain("initialize", "public"),
        ],
    )]);
    assert!(detect_unlocked_implementation_candidate(&a).is_empty());
}

#[test]
fn disable_call_outside_constructor_does_not_lock() {
    let a = ast(vec![contract(
        "Impl",
        vec![
            function("lock", Some("function"), Some("public"), vec![], Some(vec![call_name("_disableInitializers")])),
            plain("initialize", "public"),
        ],
    )]);
    assert_eq!(detect_unlocked_implementation_candidate(&a).len(), 1);
}

#[test]
fn unlocked_needs_initializer() {
    let a = ast(vec![contract("Token", vec![plain("transfer", "public")]), SourceUnitNode::Other]);
    assert!(detect_unlocked_implementation_candidate(&a).is_empty());
}

#[test]
fn upgrade_without_access_control() {
    let a = ast(vec![contract(
        "Proxy",
        vec![function("upgradeTo", Some("function"), Some("external"), vec![modifier("whenNotPaused")], Some(vec![]))],
    )]);
    let fs = detect_upgrade_access_control_candidate(&a);
    assert_eq!(fs.len(), 1);
    let f = &fs[0];
    assert_eq!(f.id, "UPG-003");
    assert_eq!(f.severity, "HIGH");
    assert_eq!(f.title, "Upgrade-like function may lack access control");
    assert_eq!(
        f.description,
        "An externally reachable upgrade-like function was found without a recognized access-control modifier. Review whether upgrade authorization is properly enforced."
    );
    assert_eq!(f.function_name.as_deref(), Some("upgradeTo"));
    assert_eq!(
        ev(f),
        vec![
            "Contract 'Proxy'",
            "Function 'upgradeTo'",
            "Name matches upgrade-like sensitive function pattern",
            "Visibility 'external'",
            "Modifiers: whenNotPaused",
            "No recognized access-control modifier detected",
        ]
    );
}

#[test]
fn upgrade_names_and_guards() {
    let a = ast(vec![contract(
        "Proxy",
        vec![
            plain("upgrade", "public"),
            plain(" UpgradeToAndCall ", "public"),
            plain("setImplementation", "public"),
            plain("upgradeToV2", "public"),
            plain("upgradeTo", "internal"),
            function("upgradeTo", None, None, vec![], None),
            function("upgradeTo", None, Some("public"), vec![modifier("OnlyOwner")], None),
            function("upgradeTo", None, Some("public"), vec![modifier("requiresAuthority")], None),
            function("upgradeTo", None, Some("public"), vec![modifier("adminOnly")], None),
            function("upgradeTo", None, Some("public"), vec![modifier("onlyRole")], None),
            function("upgradeTo", None, Some("public"), vec![modifier("x_onlyAdmin_y")], None),
        ],
    )]);
    let fs = detect_upgrade_access_control_candidate(&a);
    let names: Vec<&str> = fs.iter().map(|f| f.function_name.as_deref().unwrap()).collect();
    assert_eq!(names, vec!["upgrade", " UpgradeToAndCall ", "setImplementation"]);
    assert_eq!(ev(&fs[0])[4], "No recognized modifier names found");
}

#[test]
fn low_level_calls() {
    let a = ast(vec![contract(
        "Proxy",
        vec![
            function(
                "_fallback",
                Some("fallback"),
                Some("external"),
                vec![],
                Some(vec![call_member("delegatecall"), call_member("transfer"), call_member("call")]),
            ),
            function("noBody", None, Some("public"), vec![], None),
        ],
    )]);
    let fs = detect_low_level_call_candidates(&a);
    assert_eq!(fs.len(), 2);
    assert_eq!(fs[0].id, "UPG-004");
    assert_eq!(fs[0].severity, "HIGH");
    assert_eq!(fs[0].title, "Low-level delegatecall usage detected");
    assert_eq!(
        fs[0].description,
        "A low-level delegatecall usage pattern was detected. Review whether the target, input data, return handling, and authorization checks are safe."
    );
    assert_eq!(fs[0].function_name.as_deref(), Some("_fallback"));
    assert_eq!(
        ev(&fs[0]),
        vec!["Contract 'Proxy'", "Function '_fallback'", "Low-level member access 'delegatecall'"]
    );
    assert_eq!(fs[1].severity, "MEDIUM");
    assert_eq!(fs[1].title, "Low-level call usage detected");
    assert_eq!(ev(&fs[1])[2], "Low-level member access 'call'");
}

#[test]
fn low_level_member_name_is_exact() {
    let a = ast(vec![contract(
        "P",
        vec![function("f", None, Some("public"), vec![], Some(vec![call_member("DelegateCall"), call_name("delegatecall")]))],
    )]);
    assert!(detect_low_level_call_candidates(&a).is_empty());
}

#[test]
fn destructive_calls() {
    let a = ast(vec![contract(
        "Bomb",
        vec![function(
            "kill",
            Some("function"),
            Some("public"),
            vec![],
            Some(vec![call_name("selfdestruct"), call_name("suicide"), call_name("destroy"), call_member("selfdestruct")]),
        )],
    )]);
    let fs = detect_destructive_call_candidates(&a);
    assert_eq!(fs.len(), 2);
    assert_eq!(fs[0].id, "UPG-005");
    assert_eq!(fs[0].severity, "HIGH");
    assert_eq!(fs[0].title, "Destructive selfdestruct usage detected");
    assert_eq!(
        fs[0].description,
        "A destructive selfdestruct usage pattern was detected. Review whether contract destruction is intended, authorized, and safe in the upgradeable architecture."
    );
    assert_eq!(ev(&fs[0]), vec!["Contract 'Bomb'", "Function 'kill'", "Destructive call 'selfdestruct'"]);
    assert_eq!(fs[1].title, "Destructive suicide usage detected");
}

#[test]
fn statements_that_are_not_calls_are_skipped() {
    let a = ast(vec![contract(
        "C",
        vec![function(
            "f",
            None,
            Some("public"),
            vec![],
            Some(vec![
                Statement::Other,
                Statement::ExpressionStatement(ExpressionStatement { expression: Expression::Identifier { name: "selfdestruct".to_string() } }),
                Statement::ExpressionStatement(ExpressionStatement { expression: Expression::Other }),
                call_of(Expression::Other),
            ]),
        )],
    )]);
    assert!(detect_destructive_call_candidates(&a).is_empty());
    assert!(detect_low_level_call_candidates(&a).is_empty());
}

#[test]
fn run_all_orders_by_rule() {
    let a = ast(vec![
        contract(
            "A",
            vec![
                plain("initialize", "public"),
                function("kill", None, Some("public"), vec![], Some(vec![call_name("selfdestruct"), call_member("call")])),
            ],
        ),
        SourceUnitNode::Other,
        contract("B", vec![plain("upgradeTo", "public"), ContractNode::Other, plain("init", "external")]),
    ]);
    let fs = run_all_rules(&a);
    let got: Vec<(&str, &str)> = fs.iter().map(|f| (f.id.as_str(), f.contract_name.as_str())).collect();
    assert_eq!(
        got,
        vec![
            ("UPG-001", "A"),
            ("UPG-001", "B"),
            ("UPG-002", "A"),
            ("UPG-002", "B"),
            ("UPG-003", "B"),
            ("UPG-004", "A"),
            ("UPG-005", "A"),
        ]
    );
}

#[test]
fn empty_ast_has_no_findings() {
    assert!(run_all_rules(&ast(vec![])).is_empty());
    assert!(run_all_rules(&ast(vec![SourceUnitNode::Other, contract("E", vec![])])).is_empty());
}

#[test]
fn law_findings_compose_example() {
    let left = || vec![contract("A", vec![plain("initialize", "public")])];
    let right = || vec![contract("B", vec![plain("init", "private")])];
    let mut both = left();
    both.extend(right());
    let all: Vec<String> = detect(Rule::InitializerExposure, &ast(both)).iter().map(|f| f.contract_name.clone()).collect();
    let mut parts: Vec<String> = detect(Rule::InitializerExposure, &ast(left())).iter().map(|f| f.contract_name.clone()).collect();
    parts.extend(detect(Rule::InitializerExposure, &ast(right())).iter().map(|f| f.contract_name.clone()));
    assert_eq!(all, parts);
}

#[test]
fn law_other_nodes_are_ignored_example() {
    let with = ast(vec![SourceUnitNode::Other, contract("A", vec![plain("upgrade", "public")]), SourceUnitNode::Other]);
    let without = ast(vec![contract("A", vec![plain("upgrade", "public")])]);
    assert_eq!(run_all_rules(&with).len(), run_all_rules(&without).len());
    assert_eq!(run_all_rules(&with)[0].contract_name, "A");
}

#[test]
fn law_unlocked_implies_initializer_finding_example() {
    let a = ast(vec![contract("A", vec![plain(" INITIALIZE", "internal")]), contract("B", vec![plain("other", "public")])]);
    let locks = detect_unlocked_implementation_candidate(&a);
    let inits = detect_initializer_exposure(&a);
    assert_eq!(locks.len(), 1);
    for l in &locks {
        assert!(inits.iter().any(|i| i.contract_name == l.contract_name));
    }
}

#[test]
fn law_findings_are_well_formed_example() {
    let a = ast(vec![
        contract("A", vec![plain("initialize", "public"), plain("upgradeTo", "public")]),
        contract("B", vec![function("f", None, None, vec![], Some(vec![call_member("delegatecall"), call_name("suicide")]))]),
    ]);
    for f in run_all_rules(&a) {
        assert!(["UPG-001", "UPG-002", "UPG-003", "UPG-004", "UPG-005"].contains(&f.id.as_str()));
        assert!(["HIGH", "MEDIUM", "LOW"].contains(&f.severity.as_str()));
        assert_eq!(f.evidence[0], format!("Contract '{}'", f.contract_name));
        assert_eq!(f.function_name.is_none(), f.id == "UPG-002");
    }
}

#[test]
fn name_decisions_on_normalized_text() {
    assert!(is_initializer_like_name("initialize"));
    assert!(is_initializer_like_name("init"));
    assert!(!is_initializer_like_name("Init"));
    assert!(!is_initializer_like_name(" init"));
    assert!(is_upgrade_like_name("upgradetoandcall"));
    assert!(is_upgrade_like_name("setimplementation"));
    assert!(!is_upgrade_like_name("upgradeTo"));
    assert!(is_initializer_modifier_name("reinitializer"));
    assert!(!is_initializer_modifier_name("Initializer"));
    assert!(is_access_control_modifier_name("requiresauth"));
    assert!(is_access_control_modifier_name("xadminonlyx"));
    assert!(!is_access_control_modifier_name("onlyOwner"));
    assert!(!is_access_control_modifier_name("whenpaused"));
}

#[test]
fn severity_and_reachability() {
    assert!(is_externally_reachable_text("public"));
    assert!(is_externally_reachable_text("external"));
    assert!(!is_externally_reachable_text("Public"));
    assert_eq!(initializer_severity_text("public", false), "HIGH");
    assert_eq!(initializer_severity_text("external", true), "LOW");
    assert_eq!(initializer_severity_text("internal", false), "LOW");
    assert_eq!(initializer_severity_text("private", true), "LOW");
    assert_eq!(initializer_severity_text("unknown", false), "MEDIUM");
    assert_eq!(initializer_severity_text("", true), "MEDIUM");
}

fn strings(xs: &[&str]) -> Vec<String> {
    xs.iter().map(|x| x.to_string()).collect()
}

fn fn_def(name: &str, visibility: Option<&str>, modifiers: Vec<ModifierInvocation>) -> FunctionDefinition {
    match function(name, None, visibility, modifiers, None) {
        ContractNode::FunctionDefinition(f) => f,
        ContractNode::Other => unreachable!(),
    }
}

#[test]
fn modifier_decisions_on_lowered_names() {
    assert!(any_initializer_modifier_name(&strings(&["onlyowner", "reinitializer"])));
    assert!(!any_initializer_modifier_name(&strings(&["Initializer"])));
    assert!(!any_initializer_modifier_name(&vec![]));
    assert!(any_access_control_modifier_name(&strings(&["whenpaused", "hasauthority"])));
    assert!(!any_access_control_modifier_name(&strings(&["OnlyOwner", "whenpaused"])));
}

#[test]
fn initializer_finding_from_given_keys() {
    let f = fn_def("Setup", Some("public"), vec![modifier("Guard")]);
    let c = "C".to_string();
    // the given keys decide, not the function's own name and modifiers
    let fs = initializer_finding_for(&c, &f, "init", &strings(&["initializer"]));
    assert_eq!(fs.len(), 1);
    assert_eq!(fs[0].severity, "LOW");
    assert_eq!(fs[0].function_name.as_deref(), Some("Setup"));
    assert_eq!(ev(&fs[0])[4], "Modifiers: Guard");
    assert_eq!(ev(&fs[0])[5], "Initializer-style modifier detected");
    let fs = initializer_finding_for(&c, &f, "init", &strings(&["guard"]));
    assert_eq!(fs[0].severity, "HIGH");
    assert!(initializer_finding_for(&c, &f, "setup", &vec![]).is_empty());
}

#[test]
fn upgrade_finding_from_given_keys() {
    let f = fn_def("UpgradeTo", Some("external"), vec![modifier("OnlyOwner")]);
    let c = "P".to_string();
    let fs = upgrade_access_finding_for(&c, &f, "upgradeto", &strings(&["whenpaused"]));
    assert_eq!(fs.len(), 1);
    assert_eq!(fs[0].id, "UPG-003");
    assert_eq!(ev(&fs[0])[4], "Modifiers: OnlyOwner");
    assert!(upgrade_access_finding_for(&c, &f, "upgradeto", &strings(&["onlyowner"])).is_empty());
    assert!(upgrade_access_finding_for(&c, &f, "upgradeTo", &vec![]).is_empty());
    let g = fn_def("upgrade", Some("internal"), vec![]);
    assert!(upgrade_access_finding_for(&c, &g, "upgrade", &vec![]).is_empty());
}

#[test]
fn unlocked_finding_from_given_keys() {
    let c = ContractDefinition {
        name: "Impl".to_string(),
        nodes: vec![ContractNode::Other, plain("Boot", "public")],
    };
    let fs = unlocked_finding_for(&c, &strings(&["initialize", "init"]));
    assert_eq!(fs.len(), 1);
    assert_eq!(fs[0].id, "UPG-002");
    assert_eq!(ev(&fs[0])[2], "Constructor not found");
    // a key on a member that is not a function does not count
    assert!(unlocked_finding_for(&c, &strings(&["init", "boot"])).is_empty());
}

#[test]
fn law_added_modifiers_add_no_upgrade_finding_example() {
    let before = ast(vec![contract(
        "P",
        vec![plain("upgradeTo", "public"), plain("upgrade", "external"), plain("setImplementation", "public")],
    )]);
    let after = ast(vec![contract(
        "P",
        vec![
            function("upgradeTo", Some("function"), Some("public"), vec![modifier("onlyOwner")], Some(vec![])),
            function("upgrade", Some("function"), Some("external"), vec![modifier("whenNotPaused")], Some(vec![])),
            function("setImplementation", None, Some("public"), vec![modifier("auth")], None),
        ],
    )]);
    let keys = |fs: Vec<Finding>| -> Vec<Option<String>> { fs.into_iter().map(|f| f.function_name).collect() };
    assert_eq!(keys(detect_upgrade_access_control_candidate(&before)).len(), 3);
    assert_eq!(keys(detect_upgrade_access_control_candidate(&after)), vec![Some("upgrade".to_string())]);
}

#[test]
fn laws_on_what_rules_read_examples() {
    // UPG-004/005 ignore visibility, kind and modifiers
    let a = ast(vec![contract("X", vec![function("f", Some("function"), Some("public"), vec![], Some(vec![call_member("call")]))])]);
    let b = ast(vec![contract("X", vec![function("f", Some("fallback"), None, vec![modifier("auth")], Some(vec![call_member("call")]))])]);
    assert_eq!(detect_low_level_call_candidates(&a).len(), detect_low_level_call_candidates(&b).len());
    // UPG-002 ignores visibility and modifiers
    let a = ast(vec![contract("X", vec![plain("init", "public")])]);
    let b = ast(vec![contract("X", vec![function("init", Some("function"), Some("private"), vec![modifier("initializer")], Some(vec![]))])]);
    assert_eq!(detect_unlocked_implementation_candidate(&a).len(), 1);
    assert_eq!(detect_unlocked_implementation_candidate(&b).len(), 1);
}
