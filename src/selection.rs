//! The output selection: which outputs are requested for which files and contracts.

use vstd::prelude::*;

verus! {

/// One kind of requested output.
#[derive(Debug, Clone, Copy, PartialEq, Eq, Structural)]
pub enum Selector {
    /// The ABI.
    ABI,
    /// The metadata.
    Metadata,
    /// The developer documentation.
    DevDoc,
    /// The user documentation.
    UserDoc,
    /// The storage layout.
    StorageLayout,
    /// The AST.
    AST,
    /// The method identifiers.
    MethodIdentifiers,
    /// The optimized Yul IR.
    Yul,
    /// The EVM legacy assembly.
    EVMLA,
    /// The deploy bytecode.
    Bytecode,
    /// The runtime bytecode.
    RuntimeBytecode,
}

/// The IR selector that compilation needs: Yul via IR, legacy assembly otherwise.
pub open spec fn ir_selector(via_ir: bool) -> Selector {
    if via_ir {
        Selector::Yul
    } else {
        Selector::EVMLA
    }
}

/// Whether an output is produced by the frontend rather than by this compiler.
pub open spec fn spec_received_from_solc(s: Selector) -> bool {
    !(s is Bytecode || s is RuntimeBytecode)
}

impl Selector {
    /// The IR selector that compilation needs.
    pub fn from_via_ir(via_ir: bool) -> (r: Selector)
        ensures
            r == ir_selector(via_ir),
    {
        if via_ir {
            Selector::Yul
        } else {
            Selector::EVMLA
        }
    }

    /// Whether this output is requested from the frontend.
    pub fn is_received_from_solc(&self) -> (r: bool)
        ensures
            r == spec_received_from_solc(*self),
    {
        !matches!(self, Selector::Bytecode | Selector::RuntimeBytecode)
    }
}

/// A set of selectors, each held once.
#[derive(Debug, Clone)]
pub struct SelectorSet {
    items: Vec<Selector>,
}

impl View for SelectorSet {
    type V = Set<Selector>;

    closed spec fn view(&self) -> Set<Selector> {
        self.items@.to_set()
    }
}

impl SelectorSet {
    /// The set holds each selector once.
    pub closed spec fn wf(&self) -> bool {
        self.items@.no_duplicates()
    }

    /// The empty set.
    pub fn new() -> (r: SelectorSet)
        ensures
            r.wf(),
            r@ == Set::<Selector>::empty(),
    {
        let r = SelectorSet { items: Vec::new() };
        assert(r@ =~= Set::<Selector>::empty());
        r
    }

    /// Whether `s` belongs to the set.
    pub fn contains(&self, s: Selector) -> (r: bool)
        ensures
            r == self@.contains(s),
    {
        let mut i: usize = 0;
        while i < self.items.len()
            invariant
                0 <= i <= self.items@.len(),
                forall|k: int| 0 <= k < i ==> self.items@[k] != s,
            decreases self.items@.len() - i,
        {
            if self.items[i] == s {
                assert(self.items@.to_set().contains(self.items@[i as int]));
                return true;
            }
            i = i + 1;
        }
        assert(!self.items@.contains(s));
        false
    }

    /// Adds `s`.
    pub fn insert(&mut self, s: Selector)
        requires
            old(self).wf(),
        ensures
            final(self).wf(),
            final(self)@ == old(self)@.insert(s),
    {
        if !self.contains(s) {
            self.items.push(s);
            proof {
                old(self).items@.lemma_push_to_set_commute(s);
                let v = self.items@;
                assert forall|i: int, j: int| 0 <= i < v.len() && 0 <= j < v.len() && i != j implies v[i] != v[j] by {
                    if i == v.len() - 1 {
                        assert(old(self).items@.contains(v[j]));
                    } else if j == v.len() - 1 {
                        assert(old(self).items@.contains(v[i]));
                    } else {
                        assert(old(self).items@[i] == v[i] && old(self).items@[j] == v[j]);
                    }
                }
            }
        } else {
            assert(old(self)@.insert(s) =~= old(self)@);
        }
    }

    /// Keeps only the selectors requested from the frontend.
    pub fn retain_solc(&mut self)
        requires
            old(self).wf(),
        ensures
            final(self).wf(),
            final(self)@ == old(self)@.filter(|s: Selector| spec_received_from_solc(s)),
    {
        let mut kept = SelectorSet::new();
        let mut i: usize = 0;
        while i < self.items.len()
            invariant
                0 <= i <= self.items@.len(),
                self == old(self),
                kept.wf(),
                kept@ == self.items@.subrange(0, i as int).to_set().filter(
                    |s: Selector| spec_received_from_solc(s),
                ),
            decreases self.items@.len() - i,
        {
            let s = self.items[i];
            let ghost pre = self.items@.subrange(0, i as int);
            assert(self.items@.subrange(0, i + 1) == pre.push(s));
            proof { pre.lemma_push_to_set_commute(s); }
            if s.is_received_from_solc() {
                kept.insert(s);
            }
            assert(kept@ =~= pre.push(s).to_set().filter(|s: Selector| spec_received_from_solc(s)));
            i = i + 1;
        }
        assert(self.items@.subrange(0, self.items@.len() as int) == self.items@);
        *self = kept;
    }

    /// The selectors, each once.
    pub fn to_vec(&self) -> (r: Vec<Selector>)
        requires
            self.wf(),
        ensures
            r@.to_set() == self@,
            r@.no_duplicates(),
    {
        self.items.clone()
    }
}

/// The selectors requested for one contract.
#[derive(Debug, Clone)]
pub struct ContractSelection {
    /// The contract name, or `*` for every contract.
    pub contract: String,
    /// The requested outputs.
    pub selectors: SelectorSet,
}

/// The selections for the contracts of one file.
#[derive(Debug, Clone)]
pub struct FileSelection {
    /// The file path, or `*` for every file.
    pub file: String,
    /// The selections of its contracts.
    pub contracts: Vec<ContractSelection>,
}

/// The abstract value of a selection: for each file, for each contract, its selectors.
pub type SelectionModel = Seq<(Seq<char>, Seq<(Seq<char>, Set<Selector>)>)>;

/// The abstract value of the selections of one file's contracts.
pub open spec fn contracts_model(c: Seq<ContractSelection>) -> Seq<(Seq<char>, Set<Selector>)> {
    c.map_values(|x: ContractSelection| (x.contract@, x.selectors@))
}

/// No two contracts of a file share a name, and each selector set holds a selector once.
pub open spec fn contracts_wf(c: Seq<ContractSelection>) -> bool {
    &&& forall|i: int, j: int| 0 <= i < c.len() && 0 <= j < c.len() && i != j ==> (#[trigger] c[i]).contract@ != (#[trigger] c[j]).contract@
    &&& forall|i: int| 0 <= i < c.len() ==> (#[trigger] c[i]).selectors.wf()
}

/// Applies `f` to every selector set of a model, keeping every key in its place.
pub open spec fn map_selectors(m: SelectionModel, f: spec_fn(Set<Selector>) -> Set<Selector>) -> SelectionModel {
    m.map_values(
        |e: (Seq<char>, Seq<(Seq<char>, Set<Selector>)>)|
            (e.0, e.1.map_values(|c: (Seq<char>, Set<Selector>)| (c.0, f(c.1)))),
    )
}

/// The `solc --standard-json` expected output selection.
#[derive(Debug, Clone)]
pub struct Selection {
    inner: Vec<FileSelection>,
}

impl View for Selection {
    type V = SelectionModel;

    closed spec fn view(&self) -> SelectionModel {
        self.inner@.map_values(|f: FileSelection| (f.file@, contracts_model(f.contracts@)))
    }
}

/// Adds `s` to every contract's selectors in a file.
fn extend_file(c: &mut Vec<ContractSelection>, s: Selector)
    requires
        contracts_wf(old(c)@),
    ensures
        contracts_wf(final(c)@),
        contracts_model(final(c)@) == contracts_model(old(c)@).map_values(
            |x: (Seq<char>, Set<Selector>)| (x.0, x.1.insert(s)),
        ),
{
    let mut i: usize = 0;
    while i < c.len()
        invariant
            0 <= i <= c@.len(),
            c@.len() == old(c)@.len(),
            forall|k: int| 0 <= k < i ==> (#[trigger] c@[k]).contract == old(c)@[k].contract
                && c@[k].selectors@ == old(c)@[k].selectors@.insert(s) && c@[k].selectors.wf(),
            contracts_wf(old(c)@),
            forall|k: int| i <= k < c@.len() ==> #[trigger] c@[k] == old(c)@[k],
        decreases c@.len() - i,
    {
        let mut entry = c.remove(i);
        entry.selectors.insert(s);
        c.insert(i, entry);
        i = i + 1;
    }
    assert(contracts_model(c@) =~= contracts_model(old(c)@).map_values(
        |x: (Seq<char>, Set<Selector>)| (x.0, x.1.insert(s)),
    ));
    assert forall|i: int, j: int| 0 <= i < c@.len() && 0 <= j < c@.len() && i != j implies (#[trigger] c@[i]).contract@ != (#[trigger] c@[j]).contract@ by {
        assert(old(c)@[i].contract@ != old(c)@[j].contract@);
    }
}

/// Keeps in every contract's selectors of a file only those requested from the frontend.
fn retain_file(c: &mut Vec<ContractSelection>)
    requires
        contracts_wf(old(c)@),
    ensures
        contracts_wf(final(c)@),
        contracts_model(final(c)@) == contracts_model(old(c)@).map_values(
            |x: (Seq<char>, Set<Selector>)| (x.0, x.1.filter(|s: Selector| spec_received_from_solc(s))),
        ),
{
    let mut i: usize = 0;
    while i < c.len()
        invariant
            0 <= i <= c@.len(),
            c@.len() == old(c)@.len(),
            forall|k: int| 0 <= k < i ==> (#[trigger] c@[k]).contract == old(c)@[k].contract
                && c@[k].selectors@ == old(c)@[k].selectors@.filter(|s: Selector| spec_received_from_solc(s))
                && c@[k].selectors.wf(),
            contracts_wf(old(c)@),
            forall|k: int| i <= k < c@.len() ==> #[trigger] c@[k] == old(c)@[k],
        decreases c@.len() - i,
    {
        let mut entry = c.remove(i);
        entry.selectors.retain_solc();
        c.insert(i, entry);
        i = i + 1;
    }
    assert(contracts_model(c@) =~= contracts_model(old(c)@).map_values(
        |x: (Seq<char>, Set<Selector>)| (x.0, x.1.filter(|s: Selector| spec_received_from_solc(s))),
    ));
    assert forall|i: int, j: int| 0 <= i < c@.len() && 0 <= j < c@.len() && i != j implies (#[trigger] c@[i]).contract@ != (#[trigger] c@[j]).contract@ by {
        assert(old(c)@[i].contract@ != old(c)@[j].contract@);
    }
}

impl Selection {
    /// No two files share a path, and each file's contract selections are well formed.
    pub closed spec fn wf(&self) -> bool {
        &&& forall|i: int, j: int| 0 <= i < self.inner@.len() && 0 <= j < self.inner@.len() && i != j
            ==> (#[trigger] self.inner@[i]).file@ != (#[trigger] self.inner@[j]).file@
        &&& forall|i: int| 0 <= i < self.inner@.len() ==> contracts_wf((#[trigger] self.inner@[i]).contracts@)
    }

    /// A shortcut constructor.
    pub fn new(via_ir: bool) -> (r: Selection)
        ensures
            r.wf(),
            r@ == seq![(seq!['*'], seq![(seq!['*'], set![ir_selector(via_ir)])])],
    {
        let mut set = SelectorSet::new();
        set.insert(Selector::from_via_ir(via_ir));
        let contract = ContractSelection { contract: "*".to_owned(), selectors: set };
        let ghost c = contract;
        let file = FileSelection { file: "*".to_owned(), contracts: vec![contract] };
        let r = Selection { inner: vec![file] };
        proof {
            reveal_strlit("*");
            assert(set@ =~= set![ir_selector(via_ir)]);
            assert("*"@ == seq!['*']);
            assert(r.inner@[0].contracts@ == seq![c]);
            assert(contracts_model(r.inner@[0].contracts@) =~= seq![(seq!['*'], set![ir_selector(via_ir)])]);
        }
        assert(r@ =~= seq![(seq!['*'], seq![(seq!['*'], set![ir_selector(via_ir)])])]);
        r
    }

    /// Extends the output selection with the IR required for compilation.
    pub fn extend(&mut self, via_ir: bool)
        requires
            old(self).wf(),
        ensures
            final(self).wf(),
            final(self)@ == map_selectors(old(self)@, |x: Set<Selector>| x.insert(ir_selector(via_ir))),
    {
        let s = Selector::from_via_ir(via_ir);
        let mut i: usize = 0;
        while i < self.inner.len()
            invariant
                0 <= i <= self.inner@.len(),
                self.inner@.len() == old(self).inner@.len(),
                forall|k: int| 0 <= k < i ==> (#[trigger] self.inner@[k]).file == old(self).inner@[k].file
                    && contracts_model(self.inner@[k].contracts@) == contracts_model(old(self).inner@[k].contracts@).map_values(
                        |x: (Seq<char>, Set<Selector>)| (x.0, x.1.insert(s)),
                    ),
                forall|k: int| i <= k < self.inner@.len() ==> #[trigger] self.inner@[k] == old(self).inner@[k],
                forall|k: int| 0 <= k < self.inner@.len() ==> contracts_wf((#[trigger] self.inner@[k]).contracts@),
                old(self).wf(),
            decreases self.inner@.len() - i,
        {
            let mut file = self.inner.remove(i);
            extend_file(&mut file.contracts, s);
            self.inner.insert(i, file);
            i = i + 1;
        }
        let ghost f = |x: Set<Selector>| x.insert(ir_selector(via_ir));
        let ghost m = map_selectors(old(self)@, f);
        assert forall|k: int| 0 <= k < self@.len() implies #[trigger] self@[k] == m[k] by {
            assert(self@[k].1 =~= m[k].1);
        }
        assert(self@ =~= m);
        assert forall|a: int, b: int| 0 <= a < self.inner@.len() && 0 <= b < self.inner@.len() && a != b
            implies (#[trigger] self.inner@[a]).file@ != (#[trigger] self.inner@[b]).file@ by {
            assert(old(self).inner@[a].file@ != old(self).inner@[b].file@);
        }
    }

    /// Retains only the selectors that request data from `solc`.
    pub fn retain_solc(&mut self)
        requires
            old(self).wf(),
        ensures
            final(self).wf(),
            final(self)@ == map_selectors(
                old(self)@,
                |x: Set<Selector>| x.filter(|s: Selector| spec_received_from_solc(s)),
            ),
    {
        let mut i: usize = 0;
        while i < self.inner.len()
            invariant
                0 <= i <= self.inner@.len(),
                self.inner@.len() == old(self).inner@.len(),
                forall|k: int| 0 <= k < i ==> (#[trigger] self.inner@[k]).file == old(self).inner@[k].file
                    && contracts_model(self.inner@[k].contracts@) == contracts_model(old(self).inner@[k].contracts@).map_values(
                        |x: (Seq<char>, Set<Selector>)| (x.0, x.1.filter(|s: Selector| spec_received_from_solc(s))),
                    ),
                forall|k: int| i <= k < self.inner@.len() ==> #[trigger] self.inner@[k] == old(self).inner@[k],
                forall|k: int| 0 <= k < self.inner@.len() ==> contracts_wf((#[trigger] self.inner@[k]).contracts@),
                old(self).wf(),
            decreases self.inner@.len() - i,
        {
            let mut file = self.inner.remove(i);
            retain_file(&mut file.contracts);
            self.inner.insert(i, file);
            i = i + 1;
        }
        let ghost f = |x: Set<Selector>| x.filter(|s: Selector| spec_received_from_solc(s));
        let ghost m = map_selectors(old(self)@, f);
        assert forall|k: int| 0 <= k < self@.len() implies #[trigger] self@[k] == m[k] by {
            assert(self@[k].1 =~= m[k].1);
        }
        assert(self@ =~= m);
        assert forall|a: int, b: int| 0 <= a < self.inner@.len() && 0 <= b < self.inner@.len() && a != b
            implies (#[trigger] self.inner@[a]).file@ != (#[trigger] self.inner@[b]).file@ by {
            assert(old(self).inner@[a].file@ != old(self).inner@[b].file@);
        }
    }

    /// Returns the flags that the compiler adds without the user asking for them;
    /// they are pruned from the output before it is returned.
    pub fn to_prune(&self, via_ir: bool) -> (r: SelectorSet)
        ensures
            r@ == set![ir_selector(via_ir)],
    {
        let mut selection = SelectorSet::new();
        selection.insert(Selector::from_via_ir(via_ir));
        assert(selection@ =~= set![ir_selector(via_ir)]);
        selection
    }

    /// Whether the selection is empty.
    pub fn is_empty(&self) -> (r: bool)
        ensures
            r == (self@.len() == 0),
    {
        self.inner.len() == 0
    }

    /// The selections of every file, in order.
    pub fn files(&self) -> (r: &Vec<FileSelection>)
        ensures
            r@.map_values(|f: FileSelection| (f.file@, contracts_model(f.contracts@))) == self@,
    {
        &self.inner
    }
}

impl Default for Selection {
    /// The empty selection.
    fn default() -> (r: Selection)
        ensures
            r.wf(),
            r@ == Seq::<(Seq<char>, Seq<(Seq<char>, Set<Selector>)>)>::empty(),
    {
        let r = Selection { inner: Vec::new() };
        assert(r@ =~= Seq::<(Seq<char>, Seq<(Seq<char>, Set<Selector>)>)>::empty());
        r
    }
}

} // verus!
