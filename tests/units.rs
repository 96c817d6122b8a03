use solx_codegen::contract::{CompileError, ContractBuild, ContractName, ContractObject, CodeSegment};
use solx_codegen::ir::{CodeObject, IR, LLVMIR, Yul};
use solx_codegen::names::NameSet;
use solx_codegen::process::{child_outcome, worker_response, ChildOutcome};
use solx_codegen::selection::{Selection, Selector};

fn names(v: &[&str]) -> NameSet {
    NameSet::from_vec(v.iter().map(|s| s.to_string()).collect())
}

fn sorted(s: &NameSet) -> Vec<String> {
    let mut v = s.to_vec();
    v.sort();
    v
}

#[test]
fn name_set_operations() {
    let mut s = names(&["a", "b", "a"]);
    assert_eq!(s.len(), 2);
    s.insert("c".to_string());
    s.insert("b".to_string());
    assert_eq!(sorted(&s), vec!["a", "b", "c"]);
    assert!(s.contains(&"c".to_string()));
    assert!(!s.contains(&"d".to_string()));
    assert_eq!(sorted(&s.difference(&names(&["b", "x"]))), vec!["a", "c"]);
    assert_eq!(sorted(&s.union(&names(&["d", "a"]))), vec!["a", "b", "c", "d"]);
    let drained = s.drain();
    assert!(s.is_empty());
    assert_eq!(drained.len(), 3);
}

#[test]
fn ir_dependencies_and_libraries() {
    let mut ir = IR::Yul(Yul {
        object: CodeObject {
            identifier: "A".to_string(),
            source: String::new(),
            factory_dependencies: names(&["F1", "F2"]),
            unlinked_libraries: names(&["L1"]),
            dependencies: NameSet::new(),
        },
        runtime: Some(CodeObject {
            identifier: "A_deployed".to_string(),
            source: String::new(),
            factory_dependencies: NameSet::new(),
            unlinked_libraries: names(&["L2"]),
            dependencies: NameSet::new(),
        }),
    });
    assert_eq!(sorted(&ir.get_unlinked_libraries()), vec!["L1", "L2"]);
    assert_eq!(sorted(&ir.drain_factory_dependencies()), vec!["F1", "F2"]);
    assert!(ir.drain_factory_dependencies().is_empty());

    let mut raw = IR::LLVMIR(LLVMIR { path: "m.ll".to_string(), source: String::new() });
    assert!(raw.drain_factory_dependencies().is_empty());
    assert!(raw.get_unlinked_libraries().is_empty());
}

#[test]
fn selection_shortcut_and_updates() {
    let mut s = Selection::new(true);
    assert!(!s.is_empty());
    assert_eq!(s.files().len(), 1);
    assert_eq!(s.files()[0].file, "*");
    assert_eq!(s.files()[0].contracts[0].contract, "*");
    assert_eq!(s.files()[0].contracts[0].selectors.to_vec(), vec![Selector::Yul]);

    s.extend(false);
    let mut v = s.files()[0].contracts[0].selectors.to_vec();
    v.sort_by_key(|x| format!("{x:?}"));
    assert_eq!(v, vec![Selector::EVMLA, Selector::Yul]);
    s.extend(false);
    assert_eq!(s.files()[0].contracts[0].selectors.to_vec().len(), 2);

    assert_eq!(s.to_prune(false).to_vec(), vec![Selector::EVMLA]);
    assert_eq!(s.to_prune(true).to_vec(), vec![Selector::Yul]);
}

#[test]
fn selection_retains_frontend_outputs() {
    let mut s = Selection::new(false);
    let mut set = s.files()[0].contracts[0].selectors.clone();
    set.insert(Selector::Bytecode);
    set.insert(Selector::ABI);
    assert!(Selector::ABI.is_received_from_solc());
    assert!(!Selector::Bytecode.is_received_from_solc());
    s.retain_solc();
    assert_eq!(s.files()[0].contracts[0].selectors.to_vec(), vec![Selector::EVMLA]);
    set.retain_solc();
    let mut v = set.to_vec();
    v.sort_by_key(|x| format!("{x:?}"));
    assert_eq!(v, vec![Selector::ABI, Selector::EVMLA]);
}

fn build() -> ContractBuild {
    let object = |segment| ContractObject {
        identifier: "A".to_string(),
        contract_name: ContractName::new("a.sol".to_string(), None),
        bytecode: vec![],
        is_yul: true,
        segment,
        dependencies: NameSet::new(),
        unlinked_libraries: NameSet::new(),
        errors: vec![],
    };
    ContractBuild {
        name: ContractName::new("a.sol".to_string(), None),
        deploy_object: object(CodeSegment::Deploy),
        runtime_object: object(CodeSegment::Runtime),
        metadata_hash: None,
        metadata: String::new(),
    }
}

#[test]
fn worker_exits_with_success_even_on_failure() {
    let (answer, code) = worker_response("a.sol".to_string(), Err(CompileError::Unsupported));
    assert_eq!(code, 0);
    let e = answer.unwrap_err();
    assert_eq!(e.message, "LLVM IR is not supported yet.");
    assert_eq!(e.source_location.as_deref(), Some("a.sol"));
    let (answer, code) = worker_response("a.sol".to_string(), Ok(build()));
    assert_eq!(code, 0);
    assert!(answer.is_ok());
}

#[test]
fn child_failure_reports_code_and_streams() {
    let exe = "\"/bin/solx\"".to_string();
    let path = "a.sol".to_string();
    match child_outcome(&exe, &path, Some(101), &"out".to_string(), &"err".to_string()) {
        ChildOutcome::Failed(e) => {
            assert_eq!(e.message, "\"/bin/solx\" subprocess failed with exit code Some(101):\nout\nerr");
            assert_eq!(e.source_location.as_deref(), Some("a.sol"));
        }
        ChildOutcome::Parse => panic!("failure expected"),
    }
    match child_outcome(&exe, &path, None, &String::new(), &"killed".to_string()) {
        ChildOutcome::Failed(e) => assert!(e.message.contains("exit code None") && e.message.ends_with("killed")),
        ChildOutcome::Parse => panic!("failure expected"),
    }
    assert!(matches!(child_outcome(&exe, &path, Some(0), &"{}".to_string(), &String::new()), ChildOutcome::Parse));
}

#[test]
fn drain_keeps_the_rest_of_the_representation() {
    let mut ir = IR::Yul(Yul {
        object: CodeObject {
            identifier: "A".to_string(),
            source: "code".to_string(),
            factory_dependencies: names(&["F"]),
            unlinked_libraries: names(&["L"]),
            dependencies: names(&["D"]),
        },
        runtime: None,
    });
    assert_eq!(sorted(&ir.drain_factory_dependencies()), vec!["F"]);
    match &ir {
        IR::Yul(y) => {
            assert_eq!(y.object.identifier, "A");
            assert_eq!(y.object.source, "code");
            assert_eq!(sorted(&y.object.unlinked_libraries), vec!["L"]);
            assert_eq!(sorted(&y.object.dependencies), vec!["D"]);
            assert!(y.runtime.is_none());
        }
        _ => panic!("form changed"),
    }
    let mut raw: IR = LLVMIR { path: "m.ll".to_string(), source: "text".to_string() }.into();
    assert!(raw.drain_factory_dependencies().is_empty());
    match &raw {
        IR::LLVMIR(l) => assert_eq!((l.path.as_str(), l.source.as_str()), ("m.ll", "text")),
        _ => panic!("form changed"),
    }
}

#[test]
fn default_selection_is_empty() {
    assert!(Selection::default().is_empty());
    assert!(!Selection::new(true).is_empty());
    assert!(!Selection::new(false).is_empty());
}

#[test]
fn negative_exit_code_text() {
    let exe = "x".to_string();
    match child_outcome(&exe, &"p".to_string(), Some(-9), &String::new(), &String::new()) {
        ChildOutcome::Failed(e) => assert_eq!(e.message, "x subprocess failed with exit code Some(-9):\n\n"),
        ChildOutcome::Parse => panic!("failure expected"),
    }
    assert_eq!(solx_codegen::process::decimal(i32::MIN), "-2147483648");
    assert_eq!(solx_codegen::process::decimal(0), "0");
    assert_eq!(solx_codegen::process::decimal(1200), "1200");
}
