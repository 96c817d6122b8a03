use solx_codegen::contract::{
    metadata_hash, CodeSegment, CompileError, Contract, ContractName, ImmutableEntry,
    MetadataHashType, RuntimeState, SegmentOutput, Step,
};
use solx_codegen::ir::{CodeObject, EVMLA, IR, LLVMIR, Yul};
use solx_codegen::names::NameSet;

fn names(v: &[&str]) -> NameSet {
    NameSet::from_vec(v.iter().map(|s| s.to_string()).collect())
}

fn sorted(s: &NameSet) -> Vec<String> {
    let mut v = s.to_vec();
    v.sort();
    v
}

fn object(id: &str, libs: &[&str], deps: &[&str], factory: &[&str]) -> CodeObject {
    CodeObject {
        identifier: id.to_string(),
        source: format!("code of {id}"),
        factory_dependencies: names(factory),
        unlinked_libraries: names(libs),
        dependencies: names(deps),
    }
}

fn yul_contract(with_runtime: bool) -> Contract {
    let runtime = if with_runtime {
        Some(object("A_deployed", &["L2", "L3"], &["B"], &[]))
    } else {
        None
    };
    Contract::new(
        ContractName::new("a.sol".to_string(), Some("A".to_string())),
        IR::Yul(Yul { object: object("A", &["L1", "L2"], &["C"], &["F"]), runtime }),
        "{}".to_string(),
    )
}

fn output(bytes: &[u8], immutables: usize, errors: &[&str]) -> SegmentOutput {
    SegmentOutput {
        bytecode: bytes.to_vec(),
        immutables: (0..immutables)
            .map(|i| ImmutableEntry { name: format!("imm{i}"), offsets: vec![i as u64 * 32] })
            .collect(),
        errors: errors.iter().map(|s| s.to_string()).collect(),
    }
}

#[test]
fn contract_name_full_path() {
    let n = ContractName::new("a.sol".to_string(), Some("A".to_string()));
    assert_eq!(n.full_path, "a.sol:A");
    let n = ContractName::new("b.yul".to_string(), None);
    assert_eq!(n.full_path, "b.yul");
}

#[test]
fn yul_runtime_generated_before_deploy_with_its_immutables() {
    let deployed = names(&["L3"]);
    let step = yul_contract(true).compile_to_evm(
        vec![("A".to_string(), "a.sol:A".to_string())],
        &deployed,
        MetadataHashType::NoHash,
        "meta".to_string(),
        "0.8.30".to_string(),
    );
    let (c, req) = match step {
        Step::Generate(c, req) => (c, req),
        other => panic!("unexpected {other:?}"),
    };
    assert_eq!(req.segment, CodeSegment::Runtime);
    assert_eq!(req.module_name, "a.sol:A.runtime");
    assert_eq!(req.source, "code of A_deployed");
    assert!(req.is_yul);
    assert!(req.immutables.is_none());
    assert_eq!(req.identifier_paths.as_ref().unwrap().len(), 1);
    assert!(req.frontend_version.is_none());
    match &c.runtime {
        RuntimeState::Planned(p) => assert_eq!(sorted(&p.unlinked_libraries), vec!["L2"]),
        _ => panic!("runtime already generated"),
    }
    assert_eq!(sorted(&c.deploy.unlinked_libraries), vec!["L1", "L2"]);

    let step = c.advance(Ok(output(&[1, 2, 3], 3, &["warning"])));
    let (c, req) = match step {
        Step::Generate(c, req) => (c, req),
        other => panic!("unexpected {other:?}"),
    };
    assert_eq!(req.segment, CodeSegment::Deploy);
    assert_eq!(req.module_name, "a.sol:A.deploy");
    assert_eq!(req.source, "code of A");
    let immutables = req.immutables.expect("deploy is seeded with the runtime placement");
    assert_eq!(immutables.len(), 3);
    assert_eq!(immutables[2].offsets, vec![64]);

    let build = match c.advance(Ok(output(&[9], 0, &[]))) {
        Step::Done(b) => b,
        other => panic!("unexpected {other:?}"),
    };
    assert_eq!(build.runtime_object.segment, CodeSegment::Runtime);
    assert_eq!(build.deploy_object.segment, CodeSegment::Deploy);
    assert_eq!(build.runtime_object.bytecode, vec![1, 2, 3]);
    assert_eq!(build.runtime_object.errors, vec!["warning".to_string()]);
    assert_eq!(build.runtime_object.identifier, "A_deployed");
    assert_eq!(build.deploy_object.identifier, "A");
    assert_eq!(build.deploy_object.bytecode, vec![9]);
    assert!(build.deploy_object.is_yul);
    assert_eq!(sorted(&build.deploy_object.dependencies), vec!["C"]);
    assert_eq!(sorted(&build.runtime_object.dependencies), vec!["B"]);
    assert!(build.metadata_hash.is_none());
    assert_eq!(build.metadata, "meta");
    assert_eq!(build.name.full_path, "a.sol:A");
}

#[test]
fn yul_without_runtime_fails() {
    let step = yul_contract(false).compile_to_evm(
        vec![],
        &NameSet::new(),
        MetadataHashType::Keccak256,
        "m".to_string(),
        "0.8.30".to_string(),
    );
    match step {
        Step::Failed(e) => {
            assert!(matches!(e, CompileError::NoRuntimeCode { .. }));
            assert_eq!(e.message(), "Contract `A` has no runtime code");
        }
        other => panic!("unexpected {other:?}"),
    }
}

#[test]
fn raw_ir_is_unsupported() {
    for text in ["", "define void @f() { ret void }"] {
        let contract = Contract::new(
            ContractName::new("m.ll".to_string(), None),
            IR::LLVMIR(LLVMIR { path: "m.ll".to_string(), source: text.to_string() }),
            "{}".to_string(),
        );
        match contract.compile_to_evm(vec![], &NameSet::new(), MetadataHashType::Ipfs, "m".to_string(), "v".to_string()) {
            Step::Failed(e) => assert_eq!(e.message(), "LLVM IR is not supported yet."),
            other => panic!("unexpected {other:?}"),
        }
    }
}

#[test]
fn assembly_plan_and_generator_failure() {
    let contract = Contract::new(
        ContractName::new("e.sol".to_string(), Some("E".to_string())),
        IR::EVMLA(EVMLA {
            assembly: object("e.sol:E", &["L1"], &["X"], &[]),
            runtime: Some(object("rt", &["L2"], &["Y"], &[])),
        }),
        "{}".to_string(),
    );
    let (c, req) = match contract.compile_to_evm(vec![], &names(&["L1"]), MetadataHashType::NoHash, "m".to_string(), "0.8.30".to_string()) {
        Step::Generate(c, req) => (c, req),
        other => panic!("unexpected {other:?}"),
    };
    assert_eq!(req.module_name, "e.sol:E.runtime");
    assert_eq!(req.label.as_deref(), Some("e.sol:E"));
    assert!(!req.is_yul);
    assert_eq!(req.frontend_version.as_deref(), Some("0.8.30"));
    assert!(req.identifier_paths.is_none());
    assert_eq!(c.deploy.identifier, "e.sol:E");
    assert_eq!(sorted(&c.deploy.unlinked_libraries), vec!["L2"]);
    assert_eq!(sorted(&c.deploy.dependencies), vec!["X", "Y"]);
    match c.advance(Err("bad".to_string())) {
        Step::Failed(e) => assert_eq!(e.message(), "runtime code LLVM IR generator: bad"),
        other => panic!("unexpected {other:?}"),
    }
}

#[test]
fn all_libraries_deployed_leaves_none_unlinked() {
    let contract = yul_contract(true);
    let all = names(&["L1", "L2", "L3"]);
    assert!(contract.get_unlinked_libraries(&all).is_empty());
    let some = names(&["L2"]);
    assert_eq!(sorted(&contract.get_unlinked_libraries(&some)), vec!["L1", "L3"]);
    assert_eq!(contract.identifier(), "A");
}

#[test]
fn metadata_hash_kinds() {
    assert!(metadata_hash(MetadataHashType::NoHash, &"zksync".to_string()).is_none());
    let k = metadata_hash(MetadataHashType::Keccak256, &"zksync".to_string()).unwrap();
    assert_eq!(k.kind, MetadataHashType::Keccak256);
    let hex: String = k.bytes.iter().map(|b| format!("{b:02x}")).collect();
    assert_eq!(hex, "0238fb1ab06c28c32885f9a4842207ac480c2467df26b6c58e201679628c5a5b");
    let again = metadata_hash(MetadataHashType::Keccak256, &"zksync".to_string()).unwrap();
    assert_eq!(again.bytes, k.bytes);
    let other = metadata_hash(MetadataHashType::Keccak256, &"zksynd".to_string()).unwrap();
    assert_ne!(other.bytes, k.bytes);
    let i = metadata_hash(MetadataHashType::Ipfs, &"zksync".to_string()).unwrap();
    let hex: String = i.bytes.iter().map(|b| format!("{b:02x}")).collect();
    assert_eq!(hex, "1220a3e4a4b11362b17e7294afb3048e97a6cb024209f236d7388ef55476192413bf");
}

#[test]
fn assembly_without_runtime_fails() {
    let contract = Contract::new(
        ContractName::new("e.sol".to_string(), Some("E".to_string())),
        IR::EVMLA(EVMLA { assembly: object("e.sol:E", &[], &[], &[]), runtime: None }),
        "{}".to_string(),
    );
    match contract.compile_to_evm(vec![], &NameSet::new(), MetadataHashType::NoHash, "m".to_string(), "v".to_string()) {
        Step::Failed(e) => {
            assert!(matches!(e, CompileError::NoRuntimeAssembly));
            assert_eq!(e.message(), "Runtime code data not found");
        }
        other => panic!("unexpected {other:?}"),
    }
}
