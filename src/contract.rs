//! One contract and its two-segment compilation: runtime first, then deploy,
//! with the runtime's immutable placement handed to the deploy segment.

use vstd::prelude::*;

use vstd::string::StringExecFns;

use crate::foreign::{contract_full_path, ipfs, ipfs_of, keccak256, keccak256_of};
use crate::ir::{tree_libraries, Yul, EVMLA, IR};
use crate::names::NameSet;

verus! {

/// Which half of a contract's bytecode an object is.
#[derive(Debug, Clone, Copy, PartialEq, Eq, Structural)]
pub enum CodeSegment {
    /// The code run once, at creation.
    Deploy,
    /// The code that serves later calls.
    Runtime,
}

/// The lower-case name of a segment.
pub open spec fn segment_text(s: CodeSegment) -> Seq<char> {
    match s {
        CodeSegment::Deploy => seq!['d', 'e', 'p', 'l', 'o', 'y'],
        CodeSegment::Runtime => seq!['r', 'u', 'n', 't', 'i', 'm', 'e'],
    }
}

/// The lower-case name of a segment.
pub fn segment_name(s: CodeSegment) -> (r: &'static str)
    ensures
        r@ == segment_text(s),
{
    proof {
        reveal_strlit("deploy");
        reveal_strlit("runtime");
    }
    match s {
        CodeSegment::Deploy => "deploy",
        CodeSegment::Runtime => "runtime",
    }
}

/// A contract's name: its file path, its short name where it has one, and the two joined.
#[derive(Debug)]
pub struct ContractName {
    /// The absolute file path.
    pub path: String,
    /// The contract name, for Solidity contracts.
    pub name: Option<String>,
    /// `<path>:<name>`, or the path alone.
    pub full_path: String,
}

/// The full path of a contract name.
pub open spec fn full_path_of(path: Seq<char>, name: Option<String>) -> Seq<char> {
    match name {
        Some(n) => path + seq![':'] + n@,
        None => path,
    }
}

impl ContractName {
    /// Whether the full path is made of the path and the name.
    pub open spec fn wf(&self) -> bool {
        self.full_path@ == full_path_of(self.path@, self.name)
    }

    /// A name from a path and an optional short name.
    pub fn new(path: String, name: Option<String>) -> (r: ContractName)
        ensures
            r.path == path,
            r.name == name,
            r.wf(),
    {
        let full_path = contract_full_path(&path, &name);
        ContractName { path, name, full_path }
    }

    /// An equal copy.
    pub fn duplicate(&self) -> (r: ContractName)
        ensures
            r == *self,
    {
        let name = match &self.name {
            Some(n) => Some(n.clone()),
            None => None,
        };
        ContractName { path: self.path.clone(), name, full_path: self.full_path.clone() }
    }
}

/// Which digest of the metadata to compute.
#[derive(Debug, Clone, Copy, PartialEq, Eq, Structural)]
pub enum MetadataHashType {
    /// No digest.
    NoHash,
    /// The `keccak256` digest.
    Keccak256,
    /// The IPFS content digest.
    Ipfs,
}

/// A digest of the metadata.
#[derive(Debug)]
pub struct MetadataHash {
    /// The digest function used.
    pub kind: MetadataHashType,
    /// The digest bytes.
    pub bytes: Vec<u8>,
}

/// The digest that a hash kind names for a metadata text.
pub open spec fn expected_digest(kind: MetadataHashType, metadata: Seq<char>) -> Option<Seq<u8>> {
    match kind {
        MetadataHashType::NoHash => None,
        MetadataHashType::Keccak256 => Some(keccak256_of(metadata)),
        MetadataHashType::Ipfs => Some(ipfs_of(metadata)),
    }
}

/// The kind and bytes of an optional digest.
pub open spec fn hash_view(h: Option<MetadataHash>) -> Option<(MetadataHashType, Seq<u8>)> {
    match h {
        Some(h) => Some((h.kind, h.bytes@)),
        None => None,
    }
}

/// Whether an optional digest is the one that `kind` names for `metadata`.
pub open spec fn is_metadata_hash(h: Option<MetadataHash>, kind: MetadataHashType, metadata: Seq<char>) -> bool {
    match expected_digest(kind, metadata) {
        Some(d) => hash_view(h) == Some((kind, d)),
        None => h is None,
    }
}

/// Computes the digest of the final metadata text that `kind` asks for.
pub fn metadata_hash(kind: MetadataHashType, metadata: &String) -> (r: Option<MetadataHash>)
    ensures
        is_metadata_hash(r, kind, metadata@),
{
    match kind {
        MetadataHashType::NoHash => None,
        MetadataHashType::Keccak256 => Some(MetadataHash { kind, bytes: keccak256(metadata.as_str()) }),
        MetadataHashType::Ipfs => Some(MetadataHash { kind, bytes: ipfs(metadata.as_str()) }),
    }
}

/// A digest is a function of the metadata text alone: equal texts give equal digests.
pub proof fn lemma_metadata_hash_deterministic(
    kind: MetadataHashType,
    a: Seq<char>,
    b: Seq<char>,
    ha: Option<MetadataHash>,
    hb: Option<MetadataHash>,
)
    requires
        a == b,
        is_metadata_hash(ha, kind, a),
        is_metadata_hash(hb, kind, b),
    ensures
        hash_view(ha) == hash_view(hb),
        kind is NoHash <==> ha is None,
{
}

/// One immutable variable and its offsets in the runtime bytecode.
#[derive(Debug)]
pub struct ImmutableEntry {
    /// The immutable's identifier.
    pub name: String,
    /// The offsets to patch at deploy time.
    pub offsets: Vec<u64>,
}

/// What the code generator returns for one segment.
#[derive(Debug)]
pub struct SegmentOutput {
    /// The bytecode.
    pub bytecode: Vec<u8>,
    /// Where immutables are placed in this bytecode.
    pub immutables: Vec<ImmutableEntry>,
    /// Diagnostics that did not stop generation.
    pub errors: Vec<String>,
}

/// What the code generator is asked to do for one segment.
#[derive(Debug)]
pub struct SegmentRequest {
    /// The segment to generate.
    pub segment: CodeSegment,
    /// The name of the generation module.
    pub module_name: String,
    /// The code to declare and emit.
    pub source: String,
    /// Whether the code is Yul (else legacy assembly).
    pub is_yul: bool,
    /// The identifier-path mapping, handed over with Yul code.
    pub identifier_paths: Option<Vec<(String, String)>>,
    /// The frontend version, handed over with legacy assembly.
    pub frontend_version: Option<String>,
    /// The runtime's immutable placement, handed to the deploy segment.
    pub immutables: Option<Vec<ImmutableEntry>>,
    /// For the runtime view of legacy assembly: the deploy assembly's full path,
    /// which the view carries as its label.
    pub label: Option<String>,
}

/// A generated segment.
#[derive(Debug)]
pub struct ContractObject {
    /// The object identifier.
    pub identifier: String,
    /// The contract that the object belongs to.
    pub contract_name: ContractName,
    /// The bytecode.
    pub bytecode: Vec<u8>,
    /// Whether the code came from Yul (else legacy assembly).
    pub is_yul: bool,
    /// The segment.
    pub segment: CodeSegment,
    /// The identifiers that the segment refers to.
    pub dependencies: NameSet,
    /// The libraries that still need linking.
    pub unlinked_libraries: NameSet,
    /// Diagnostics of the code generator.
    pub errors: Vec<String>,
}

/// The build of one contract.
#[derive(Debug)]
pub struct ContractBuild {
    /// The contract name.
    pub name: ContractName,
    /// The deploy segment.
    pub deploy_object: ContractObject,
    /// The runtime segment.
    pub runtime_object: ContractObject,
    /// The metadata digest.
    pub metadata_hash: Option<MetadataHash>,
    /// The final metadata text.
    pub metadata: String,
}

/// Why a contract could not be compiled.
#[derive(Debug)]
pub enum CompileError {
    /// A Yul object without a runtime sub-object.
    NoRuntimeCode { identifier: String },
    /// A legacy assembly without runtime code data.
    NoRuntimeAssembly,
    /// Raw code generator IR, which cannot be compiled yet.
    Unsupported,
    /// The code generator failed on a segment.
    CodeGenerator { segment: CodeSegment, message: String },
}

/// The message of an error.
pub open spec fn error_text(e: CompileError) -> Seq<char> {
    match e {
        CompileError::NoRuntimeCode { identifier } =>
            "Contract `"@ + identifier@ + "` has no runtime code"@,
        CompileError::NoRuntimeAssembly => "Runtime code data not found"@,
        CompileError::Unsupported => "LLVM IR is not supported yet."@,
        CompileError::CodeGenerator { segment, message } =>
            segment_text(segment) + " code LLVM IR generator: "@ + message@,
    }
}

impl CompileError {
    /// The human-readable message.
    pub fn message(&self) -> (r: String)
        ensures
            r@ == error_text(*self),
    {
        match self {
            CompileError::NoRuntimeCode { identifier } => {
                let mut s = "Contract `".to_owned();
                s.append(identifier.as_str());
                s.append("` has no runtime code");
                s
            },
            CompileError::NoRuntimeAssembly => "Runtime code data not found".to_owned(),
            CompileError::Unsupported => "LLVM IR is not supported yet.".to_owned(),
            CompileError::CodeGenerator { segment, message } => {
                let mut s = segment_name(*segment).to_owned();
                s.append(" code LLVM IR generator: ");
                s.append(message.as_str());
                s
            },
        }
    }
}

/// What one segment will be built from.
#[derive(Debug)]
pub struct SegmentPlan {
    /// The object identifier.
    pub identifier: String,
    /// The name of the generation module.
    pub module_name: String,
    /// The code.
    pub source: String,
    /// The identifiers that the segment refers to.
    pub dependencies: NameSet,
    /// The libraries that still need linking.
    pub unlinked_libraries: NameSet,
}

impl SegmentPlan {
    /// Its sets are well formed.
    pub open spec fn wf(&self) -> bool {
        self.dependencies.wf() && self.unlinked_libraries.wf()
    }
}

/// A compilation under way: the runtime segment is generated first, then the deploy segment.
#[derive(Debug)]
pub struct Compilation {
    /// The contract name.
    pub name: ContractName,
    /// Whether the code is Yul (else legacy assembly).
    pub is_yul: bool,
    /// The identifier-path mapping, for the deploy segment of Yul code.
    pub identifier_paths: Vec<(String, String)>,
    /// The frontend version, for legacy assembly.
    pub frontend_version: String,
    /// The deploy segment's plan.
    pub deploy: SegmentPlan,
    /// The runtime segment: its plan, or its object once generated.
    pub runtime: RuntimeState,
    /// The metadata digest.
    pub metadata_hash: Option<MetadataHash>,
    /// The final metadata text.
    pub metadata: String,
}

/// The runtime segment of a compilation under way.
#[derive(Debug)]
pub enum RuntimeState {
    /// Not generated yet.
    Planned(SegmentPlan),
    /// Generated.
    Generated(ContractObject),
}

impl Compilation {
    /// A generated runtime object is tagged as the runtime segment of this contract.
    pub open spec fn wf(&self) -> bool {
        match self.runtime {
            RuntimeState::Generated(o) => o.segment is Runtime && o.contract_name == self.name,
            RuntimeState::Planned(_) => true,
        }
    }

    /// The segment that is to be generated next.
    pub open spec fn pending(&self) -> CodeSegment {
        if self.runtime is Planned {
            CodeSegment::Runtime
        } else {
            CodeSegment::Deploy
        }
    }
}

/// The object that a plan and the generator's output make.
pub open spec fn object_of(
    plan: SegmentPlan,
    name: ContractName,
    is_yul: bool,
    segment: CodeSegment,
    bytecode: Vec<u8>,
    errors: Vec<String>,
) -> ContractObject {
    ContractObject {
        identifier: plan.identifier,
        contract_name: name,
        bytecode,
        is_yul,
        segment,
        dependencies: plan.dependencies,
        unlinked_libraries: plan.unlinked_libraries,
        errors,
    }
}

/// Whether a request asks for a segment of `c` with what that segment needs:
/// the plan's module and code, and the data threaded for the code's form.
pub open spec fn request_for(c: Compilation, segment: CodeSegment, req: SegmentRequest) -> bool {
    &&& req.segment == segment
    &&& match segment {
        CodeSegment::Runtime => match c.runtime {
            RuntimeState::Planned(plan) => req.module_name == plan.module_name && req.source == plan.source,
            RuntimeState::Generated(_) => false,
        },
        CodeSegment::Deploy => req.module_name == c.deploy.module_name && req.source == c.deploy.source,
    }
    &&& req.is_yul == c.is_yul
    &&& match req.identifier_paths {
        Some(p) => c.is_yul && p@ == c.identifier_paths@,
        None => !c.is_yul,
    }
    &&& match req.frontend_version {
        Some(v) => !c.is_yul && v == c.frontend_version,
        None => c.is_yul,
    }
}

impl Compilation {
    /// Takes the generator's outcome for the pending segment. After the runtime segment
    /// the deploy segment is asked for, with the runtime's immutable placement; after
    /// the deploy segment the contract is built. A generator failure ends the compilation.
    pub fn advance(self, outcome: Result<SegmentOutput, String>) -> (r: Step)
        requires
            self.wf(),
        ensures
            match r {
                Step::Generate(c, _) => c.wf(),
                Step::Done(b) => b.runtime_object.segment is Runtime && b.deploy_object.segment is Deploy
                    && b.runtime_object.contract_name == b.name && b.deploy_object.contract_name == b.name,
                Step::Failed(_) => true,
            },
            match outcome {
                Err(m) => r == Step::Failed(CompileError::CodeGenerator { segment: self.pending(), message: m }),
                Ok(out) => match self.runtime {
                    RuntimeState::Planned(plan) => match r {
                        Step::Generate(c, req) => {
                            &&& c.runtime == RuntimeState::Generated(
                                object_of(plan, self.name, self.is_yul, CodeSegment::Runtime, out.bytecode, out.errors),
                            )
                            &&& c.name == self.name
                            &&& c.is_yul == self.is_yul
                            &&& c.identifier_paths == self.identifier_paths
                            &&& c.frontend_version == self.frontend_version
                            &&& c.deploy == self.deploy
                            &&& c.metadata_hash == self.metadata_hash
                            &&& c.metadata == self.metadata
                            &&& c.pending() is Deploy
                            &&& request_for(self, CodeSegment::Deploy, req)
                            &&& req.immutables == Some(out.immutables)
                            &&& req.label is None
                        },
                        _ => false,
                    },
                    RuntimeState::Generated(ro) => r == Step::Done(
                        ContractBuild {
                            name: self.name,
                            deploy_object: object_of(self.deploy, self.name, self.is_yul, CodeSegment::Deploy, out.bytecode, out.errors),
                            runtime_object: ro,
                            metadata_hash: self.metadata_hash,
                            metadata: self.metadata,
                        },
                    ),
                },
            },
    {
        let Compilation {
            name,
            is_yul,
            identifier_paths,
            frontend_version,
            deploy,
            runtime,
            metadata_hash,
            metadata,
        } = self;
        let out = match outcome {
            Err(message) => {
                let segment = if matches!(runtime, RuntimeState::Planned(_)) {
                    CodeSegment::Runtime
                } else {
                    CodeSegment::Deploy
                };
                return Step::Failed(CompileError::CodeGenerator { segment, message });
            },
            Ok(out) => out,
        };
        let SegmentOutput { bytecode, immutables, errors } = out;
        match runtime {
            RuntimeState::Planned(plan) => {
                let object = ContractObject {
                    identifier: plan.identifier,
                    contract_name: name.duplicate(),
                    bytecode,
                    is_yul,
                    segment: CodeSegment::Runtime,
                    dependencies: plan.dependencies,
                    unlinked_libraries: plan.unlinked_libraries,
                    errors,
                };
                let (identifier_paths_arg, frontend_version_arg) = if is_yul {
                    (Some(copy_pairs(&identifier_paths)), None)
                } else {
                    (None, Some(frontend_version.clone()))
                };
                let req = SegmentRequest {
                    segment: CodeSegment::Deploy,
                    module_name: deploy.module_name.clone(),
                    source: deploy.source.clone(),
                    is_yul,
                    identifier_paths: identifier_paths_arg,
                    frontend_version: frontend_version_arg,
                    immutables: Some(immutables),
                    label: None,
                };
                let c = Compilation {
                    name,
                    is_yul,
                    identifier_paths,
                    frontend_version,
                    deploy,
                    runtime: RuntimeState::Generated(object),
                    metadata_hash,
                    metadata,
                };
                Step::Generate(c, req)
            },
            RuntimeState::Generated(ro) => {
                let deploy_object = ContractObject {
                    identifier: deploy.identifier,
                    contract_name: name.duplicate(),
                    bytecode,
                    is_yul,
                    segment: CodeSegment::Deploy,
                    dependencies: deploy.dependencies,
                    unlinked_libraries: deploy.unlinked_libraries,
                    errors,
                };
                Step::Done(ContractBuild { name, deploy_object, runtime_object: ro, metadata_hash, metadata })
            },
        }
    }
}

/// The next thing to do for a contract.
#[derive(Debug)]
pub enum Step {
    /// Generate the segment that the request describes, then call `advance` with the outcome.
    Generate(Compilation, SegmentRequest),
    /// The contract is built.
    Done(ContractBuild),
    /// The contract cannot be built.
    Failed(CompileError),
}

/// A copy of the identifier-path mapping.
fn copy_pairs(v: &Vec<(String, String)>) -> (r: Vec<(String, String)>)
    ensures
        r@ == v@,
{
    let mut r: Vec<(String, String)> = Vec::new();
    let mut i: usize = 0;
    while i < v.len()
        invariant
            0 <= i <= v@.len(),
            r@ == v@.subrange(0, i as int),
        decreases v@.len() - i,
    {
        let (a, b) = &v[i];
        r.push((a.clone(), b.clone()));
        assert(r@ =~= v@.subrange(0, i + 1));
        i = i + 1;
    }
    assert(v@.subrange(0, v@.len() as int) == v@);
    r
}

/// `<text>.<segment>`.
fn dotted(text: &String, segment: CodeSegment) -> (r: String)
    ensures
        r@ == dotted_text(text@, segment),
{
    let mut s = text.clone();
    proof { reveal_strlit("."); }
    s.append(".");
    s.append(segment_name(segment));
    s
}

/// `<text>.<segment>`.
pub open spec fn dotted_text(text: Seq<char>, segment: CodeSegment) -> Seq<char> {
    text + seq!['.'] + segment_text(segment)
}

/// Whether a segment plan has these identifier, module name, code, dependencies and libraries.
pub open spec fn plan_of(
    p: SegmentPlan,
    identifier: Seq<char>,
    module_name: Seq<char>,
    source: String,
    dependencies: Set<Seq<char>>,
    libraries: Set<Seq<char>>,
) -> bool {
    &&& p.wf()
    &&& p.identifier@ == identifier
    &&& p.module_name@ == module_name
    &&& p.source == source
    &&& p.dependencies@ == dependencies
    &&& p.unlinked_libraries@ == libraries
}

/// Whether `c` is a fresh compilation of a contract, with `req` asking for its runtime segment.
pub open spec fn started(
    name: ContractName,
    is_yul: bool,
    c: Compilation,
    req: SegmentRequest,
    kind: MetadataHashType,
    metadata: String,
    frontend_version: String,
    identifier_paths: Vec<(String, String)>,
) -> bool {
    &&& c.name == name
    &&& c.is_yul == is_yul
    &&& c.identifier_paths == identifier_paths
    &&& c.frontend_version == frontend_version
    &&& c.metadata == metadata
    &&& is_metadata_hash(c.metadata_hash, kind, metadata@)
    &&& c.pending() is Runtime
    &&& c.wf()
    &&& request_for(c, CodeSegment::Runtime, req)
    &&& req.immutables is None
}

/// The contract data.
#[derive(Debug)]
pub struct Contract {
    /// The contract name.
    pub name: ContractName,
    /// The IR source code data.
    pub ir: IR,
    /// The frontend's metadata.
    pub source_metadata: String,
}

/// The identifier of a representation.
pub open spec fn ir_identifier(ir: IR) -> Seq<char> {
    match ir {
        IR::Yul(y) => y.object.identifier@,
        IR::EVMLA(e) => e.assembly.identifier@,
        IR::LLVMIR(l) => l.path@,
    }
}

impl Contract {
    /// A shortcut constructor.
    pub fn new(name: ContractName, ir: IR, source_metadata: String) -> (r: Contract)
        ensures
            r.name == name,
            r.ir == ir,
            r.source_metadata == source_metadata,
    {
        Contract { name, ir, source_metadata }
    }

    /// The contract identifier: the Yul object identifier, the assembly's full path,
    /// or the module path of raw IR.
    pub fn identifier(&self) -> (r: &str)
        ensures
            r@ == ir_identifier(self.ir),
    {
        match &self.ir {
            IR::Yul(yul) => yul.object.identifier.as_str(),
            IR::EVMLA(evm) => evm.assembly.identifier.as_str(),
            IR::LLVMIR(llvm_ir) => llvm_ir.path.as_str(),
        }
    }

    /// Starts the compilation of the contract. Yul and legacy assembly with runtime code
    /// get a plan of both segments and the request for the runtime segment, which is
    /// generated first. Code without runtime code, and raw code generator IR, fail.
    pub fn compile_to_evm(
        self,
        identifier_paths: Vec<(String, String)>,
        deployed_libraries: &NameSet,
        metadata_hash_type: MetadataHashType,
        metadata: String,
        frontend_version: String,
    ) -> (r: Step)
        requires
            self.ir.wf(),
        ensures
            match self.ir {
                IR::LLVMIR(_) => r == Step::Failed(CompileError::Unsupported),
                IR::Yul(y) => match y.runtime {
                    None => r == Step::Failed(CompileError::NoRuntimeCode { identifier: y.object.identifier }),
                    Some(rt) => match r {
                        Step::Generate(c, req) => {
                            &&& started(self.name, true, c, req, metadata_hash_type, metadata, frontend_version, identifier_paths)
                            &&& req.label is None
                            &&& plan_of(c.deploy, y.object.identifier@, dotted_text(self.name.full_path@, CodeSegment::Deploy), y.object.source,
                                y.object.dependencies@, y.object.unlinked_libraries@.difference(deployed_libraries@))
                            &&& match c.runtime {
                                RuntimeState::Planned(p) => plan_of(p, rt.identifier@, dotted_text(self.name.full_path@, CodeSegment::Runtime),
                                    rt.source, rt.dependencies@, rt.unlinked_libraries@.difference(deployed_libraries@)),
                                _ => false,
                            }
                        },
                        _ => false,
                    },
                },
                IR::EVMLA(e) => match e.runtime {
                    None => r == Step::Failed(CompileError::NoRuntimeAssembly),
                    Some(rt) => match r {
                        Step::Generate(c, req) => {
                            &&& started(self.name, false, c, req, metadata_hash_type, metadata, frontend_version, identifier_paths)
                            &&& req.label == Some(e.assembly.identifier)
                            &&& plan_of(c.deploy, self.name.full_path@, self.name.full_path@, e.assembly.source,
                                e.assembly.dependencies@.union(rt.dependencies@),
                                tree_libraries(e.assembly, e.runtime).difference(deployed_libraries@))
                            &&& match c.runtime {
                                RuntimeState::Planned(p) => plan_of(p, dotted_text(self.name.full_path@, CodeSegment::Runtime),
                                    dotted_text(self.name.full_path@, CodeSegment::Runtime),
                                    rt.source, rt.dependencies@, rt.unlinked_libraries@.difference(deployed_libraries@)),
                                _ => false,
                            }
                        },
                        _ => false,
                    },
                },
            },
    {
        let metadata_hash = metadata_hash(metadata_hash_type, &metadata);
        let Contract { name, ir, source_metadata: _ } = self;
        match ir {
            IR::LLVMIR(_) => Step::Failed(CompileError::Unsupported),
            IR::Yul(Yul { object, runtime }) => {
                let rt = match runtime {
                    None => return Step::Failed(CompileError::NoRuntimeCode { identifier: object.identifier }),
                    Some(rt) => rt,
                };
                let deploy = SegmentPlan {
                    identifier: object.identifier,
                    module_name: dotted(&name.full_path, CodeSegment::Deploy),
                    source: object.source,
                    dependencies: object.dependencies,
                    unlinked_libraries: object.unlinked_libraries.difference(deployed_libraries),
                };
                let runtime = SegmentPlan {
                    identifier: rt.identifier,
                    module_name: dotted(&name.full_path, CodeSegment::Runtime),
                    source: rt.source,
                    dependencies: rt.dependencies,
                    unlinked_libraries: rt.unlinked_libraries.difference(deployed_libraries),
                };
                let req = SegmentRequest {
                    segment: CodeSegment::Runtime,
                    module_name: runtime.module_name.clone(),
                    source: runtime.source.clone(),
                    is_yul: true,
                    identifier_paths: Some(copy_pairs(&identifier_paths)),
                    frontend_version: None,
                    immutables: None,
                    label: None,
                };
                let c = Compilation {
                    name,
                    is_yul: true,
                    identifier_paths,
                    frontend_version,
                    deploy,
                    runtime: RuntimeState::Planned(runtime),
                    metadata_hash,
                    metadata,
                };
                Step::Generate(c, req)
            },
            IR::EVMLA(EVMLA { assembly, runtime }) => {
                let rt = match &runtime {
                    None => return Step::Failed(CompileError::NoRuntimeAssembly),
                    Some(rt) => rt,
                };
                let all_libraries = assembly.unlinked_libraries.union(&rt.unlinked_libraries);
                let deploy = SegmentPlan {
                    identifier: name.full_path.clone(),
                    module_name: name.full_path.clone(),
                    source: assembly.source,
                    dependencies: assembly.dependencies.union(&rt.dependencies),
                    unlinked_libraries: all_libraries.difference(deployed_libraries),
                };
                let runtime_identifier = dotted(&name.full_path, CodeSegment::Runtime);
                let runtime_dependencies = rt.dependencies.duplicate();
                let runtime_plan = SegmentPlan {
                    identifier: runtime_identifier.clone(),
                    module_name: runtime_identifier,
                    source: rt.source.clone(),
                    dependencies: runtime_dependencies,
                    unlinked_libraries: rt.unlinked_libraries.difference(deployed_libraries),
                };
                let req = SegmentRequest {
                    segment: CodeSegment::Runtime,
                    module_name: runtime_plan.module_name.clone(),
                    source: runtime_plan.source.clone(),
                    is_yul: false,
                    identifier_paths: None,
                    frontend_version: Some(frontend_version.clone()),
                    immutables: None,
                    label: Some(assembly.identifier.clone()),
                };
                let c = Compilation {
                    name,
                    is_yul: false,
                    identifier_paths,
                    frontend_version,
                    deploy,
                    runtime: RuntimeState::Planned(runtime_plan),
                    metadata_hash,
                    metadata,
                };
                Step::Generate(c, req)
            },
        }
    }

    /// The libraries that the contract refers to and that are not deployed yet.
    pub fn get_unlinked_libraries(&self, deployed_libraries: &NameSet) -> (r: NameSet)
        requires
            self.ir.wf(),
        ensures
            r.wf(),
            r@ == self.ir.unlinked_libraries().difference(deployed_libraries@),
    {
        self.ir.get_unlinked_libraries().difference(deployed_libraries)
    }
}

/// What is reported as still unlinked is the referenced set less the deployed set:
/// a library is reported exactly when it is referenced and not deployed, with every
/// referenced library deployed nothing is reported, and filtering again changes nothing.
pub proof fn lemma_unlinked_libraries(referenced: Set<Seq<char>>, deployed: Set<Seq<char>>)
    ensures
        forall|l: Seq<char>| #[trigger] referenced.difference(deployed).contains(l)
            <==> referenced.contains(l) && !deployed.contains(l),
        referenced.subset_of(deployed) ==> referenced.difference(deployed) == Set::<Seq<char>>::empty(),
        referenced.difference(referenced) == Set::<Seq<char>>::empty(),
        referenced.difference(deployed).difference(deployed) == referenced.difference(deployed),
{
    assert(referenced.difference(referenced) =~= Set::<Seq<char>>::empty());
    assert(referenced.difference(deployed).difference(deployed) =~= referenced.difference(deployed));
    if referenced.subset_of(deployed) {
        assert(referenced.difference(deployed) =~= Set::<Seq<char>>::empty());
    }
}

} // verus!
