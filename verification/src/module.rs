//! The modules that were loaded in the crashed process: the main binary and its
//! libraries, each with the range of addresses that it was mapped at.

use vstd::prelude::*;

verus! {

/// A loaded module.
#[derive(Debug, PartialEq, Eq)]
pub struct Module {
    /// The address that the module was mapped at.
    pub base_address: u64,
    /// The number of bytes that it takes up from there.
    pub size: u64,
    /// The path of the file that holds its code.
    pub code_file: String,
    /// What identifies that file among its versions.
    pub code_identifier: Option<String>,
    /// The path of the file that holds its debug information.
    pub debug_file: Option<String>,
    /// What identifies that file among its versions.
    pub debug_identifier: Option<String>,
}

impl Clone for Module {
    fn clone(&self) -> (r: Self)
        ensures
            r == *self,
    {
        Module {
            base_address: self.base_address,
            size: self.size,
            code_file: self.code_file.clone(),
            code_identifier: self.code_identifier.clone(),
            debug_file: self.debug_file.clone(),
            debug_identifier: self.debug_identifier.clone(),
        }
    }
}

impl Module {
    /// Whether `address` lies in the range of the module.
    pub open spec fn spec_contains(&self, address: u64) -> bool {
        self.base_address <= address && address - self.base_address < self.size
    }

    /// Whether the ranges of the two modules share an address.
    pub open spec fn spec_overlaps(&self, other: &Module) -> bool {
        self.base_address < other.base_address + other.size && other.base_address
            < self.base_address + self.size
    }

    /// A module of the given range and code file, with nothing else known of
    /// it.
    pub fn new(base_address: u64, size: u64, code_file: &str) -> (r: Self)
        ensures
            r.base_address == base_address,
            r.size == size,
            r.code_file@ == code_file@,
            r.code_identifier is None,
            r.debug_file is None,
            r.debug_identifier is None,
    {
        Module {
            base_address,
            size,
            code_file: code_file.to_owned(),
            code_identifier: None,
            debug_file: None,
            debug_identifier: None,
        }
    }

    /// Whether `address` lies in the range of the module.
    pub fn contains(&self, address: u64) -> (r: bool)
        ensures
            r == self.spec_contains(address),
    {
        address >= self.base_address && address - self.base_address < self.size
    }

    /// Whether the ranges of the two modules share an address.
    pub fn overlaps(&self, other: &Module) -> (r: bool)
        ensures
            r == self.spec_overlaps(other),
    {
        (self.base_address as u128) < other.base_address as u128 + other.size as u128 && (
        other.base_address as u128) < self.base_address as u128 + self.size as u128
    }
}

/// Whether `module` shares an address with one of `kept`.
pub open spec fn overlaps_any(kept: Seq<Module>, module: Module) -> bool {
    exists|k: int| 0 <= k < kept.len() && (#[trigger] kept[k]).spec_overlaps(&module)
}

/// The modules of `modules`, in order, without those that share an address
/// with one kept before them.
pub open spec fn keep_disjoint(modules: Seq<Module>) -> Seq<Module>
    decreases modules.len(),
{
    if modules.len() == 0 {
        Seq::empty()
    } else {
        let kept = keep_disjoint(modules.drop_last());
        if overlaps_any(kept, modules.last()) {
            kept
        } else {
            kept.push(modules.last())
        }
    }
}

/// No two modules of `modules` share an address.
pub open spec fn pairwise_disjoint(modules: Seq<Module>) -> bool {
    forall|i: int, j: int|
        #![trigger modules[i], modules[j]]
        0 <= i < j < modules.len() ==> !modules[i].spec_overlaps(&modules[j])
}

/// The number of modules at the start of `modules` that do not contain
/// `address`: the place of the first that does, or their number.
pub open spec fn first_module(modules: Seq<Module>, address: u64) -> nat
    decreases modules.len(),
{
    if modules.len() == 0 || modules[0].spec_contains(address) {
        0
    } else {
        1 + first_module(modules.drop_first(), address)
    }
}

/// The module of `modules` whose range holds `address`.
pub open spec fn module_at(modules: Seq<Module>, address: u64) -> Option<Module> {
    let i = first_module(modules, address) as int;
    if i < modules.len() {
        Some(modules[i])
    } else {
        None
    }
}

/// `first_module` is the one index with modules before it that do not contain
/// the address and one that does, or the end, at it.
pub proof fn lemma_first_module(modules: Seq<Module>, address: u64, i: int)
    requires
        0 <= i <= modules.len(),
        forall|k: int| 0 <= k < i ==> !(#[trigger] modules[k]).spec_contains(address),
        i < modules.len() ==> modules[i].spec_contains(address),
    ensures
        first_module(modules, address) == i,
    decreases modules.len(),
{
    if i > 0 {
        assert(!modules[0].spec_contains(address));
        let t = modules.drop_first();
        assert forall|k: int| 0 <= k < i - 1 implies !(#[trigger] t[k]).spec_contains(address) by {
            assert(t[k] == modules[k + 1]);
        }
        lemma_first_module(t, address, i - 1);
    }
}

/// The loaded modules of a process, no two of which share an address.
#[derive(Debug, PartialEq, Eq)]
pub struct ModuleList {
    modules: Vec<Module>,
}

impl Clone for ModuleList {
    fn clone(&self) -> (r: Self)
        ensures
            r@ == self@,
    {
        proof {
            use_type_invariant(self);
        }
        let mut copy: Vec<Module> = Vec::new();
        let mut i: usize = 0;
        while i < self.modules.len()
            invariant
                i <= self.modules@.len(),
                copy@ == self.modules@.subrange(0, i as int),
            decreases self.modules@.len() - i,
        {
            copy.push(self.modules[i].clone());
            assert(copy@ =~= self.modules@.subrange(0, i + 1));
            i += 1;
        }
        assert(copy@ =~= self.modules@);
        ModuleList { modules: copy }
    }
}

impl View for ModuleList {
    type V = Seq<Module>;

    closed spec fn view(&self) -> Seq<Module> {
        self.modules@
    }
}

impl ModuleList {
    /// What holds of every list: no two of its modules share an address.
    #[verifier::type_invariant]
    pub closed spec fn well_formed(&self) -> bool {
        pairwise_disjoint(self.modules@)
    }

    /// A list of no modules.
    pub fn new() -> (r: Self)
        ensures
            r@ == Seq::<Module>::empty(),
            r.well_formed(),
    {
        ModuleList { modules: Vec::new() }
    }

    /// The list of the given modules, in their order.  A module that shares an
    /// address with one already taken is left out.
    pub fn from_modules(modules: Vec<Module>) -> (r: Self)
        ensures
            r@ == keep_disjoint(modules@),
            r.well_formed(),
    {
        let mut kept: Vec<Module> = Vec::new();
        let n = modules.len();
        let mut i: usize = 0;
        assert(modules@.subrange(0, 0) =~= Seq::<Module>::empty());
        while i < n
            invariant
                n == modules@.len(),
                i <= n,
                kept@ == keep_disjoint(modules@.subrange(0, i as int)),
                pairwise_disjoint(kept@),
            decreases n - i,
        {
            let candidate = &modules[i];
            let mut clash = false;
            let mut k: usize = 0;
            while k < kept.len()
                invariant
                    k <= kept@.len(),
                    clash == overlaps_any(kept@.subrange(0, k as int), *candidate),
                decreases kept@.len() - k,
            {
                let ghost before = kept@.subrange(0, k as int);
                let ghost after = kept@.subrange(0, k + 1);
                let hit = kept[k].overlaps(candidate);
                proof {
                    if overlaps_any(before, *candidate) {
                        let w = choose|w: int|
                            0 <= w < before.len() && (#[trigger] before[w]).spec_overlaps(
                                candidate,
                            );
                        assert(after[w].spec_overlaps(candidate));
                    }
                    if hit {
                        assert(after[k as int].spec_overlaps(candidate));
                    }
                    if overlaps_any(after, *candidate) && !hit {
                        let w = choose|w: int|
                            0 <= w < after.len() && (#[trigger] after[w]).spec_overlaps(candidate);
                        assert(before[w].spec_overlaps(candidate));
                    }
                }
                clash = clash || hit;
                k += 1;
            }
            proof {
                assert(kept@.subrange(0, kept@.len() as int) =~= kept@);
                let next = modules@.subrange(0, i + 1);
                assert(next.drop_last() =~= modules@.subrange(0, i as int));
                assert(next.last() == modules@[i as int]);
            }
            if !clash {
                let ghost old_kept = kept@;
                kept.push(candidate.clone());
                proof {
                    assert forall|a: int, b: int|
                        #![trigger kept@[a], kept@[b]]
                        0 <= a < b < kept@.len() implies !kept@[a].spec_overlaps(&kept@[b]) by {
                        if b == old_kept.len() {
                            assert(old_kept[a] == kept@[a]);
                        } else {
                            assert(old_kept[a] == kept@[a] && old_kept[b] == kept@[b]);
                        }
                    }
                }
            }
            i += 1;
        }
        assert(modules@.subrange(0, n as int) =~= modules@);
        ModuleList { modules: kept }
    }

    /// The number of modules in the list.
    pub fn len(&self) -> (r: usize)
        ensures
            r == self@.len(),
    {
        self.modules.len()
    }

    /// The module at place `i` of the list.
    pub fn get(&self, i: usize) -> (r: Option<&Module>)
        ensures
            r is Some <==> i < self@.len(),
            r matches Some(m) ==> *m == self@[i as int],
    {
        if i < self.modules.len() {
            Some(&self.modules[i])
        } else {
            None
        }
    }

    /// The module whose range holds `address`.  An address outside every
    /// module gives `None`.
    pub fn module_at_address(&self, address: u64) -> (r: Option<&Module>)
        ensures
            r is Some <==> module_at(self@, address) is Some,
            r matches Some(m) ==> Some(*m) == module_at(self@, address) && m.spec_contains(
                address,
            ),
    {
        let n = self.modules.len();
        let mut i: usize = 0;
        while i < n
            invariant
                n == self.modules@.len(),
                i <= n,
                forall|k: int| 0 <= k < i ==> !(#[trigger] self.modules@[k]).spec_contains(address),
            decreases n - i,
        {
            if self.modules[i].contains(address) {
                proof {
                    lemma_first_module(self.modules@, address, i as int);
                }
                return Some(&self.modules[i]);
            }
            i += 1;
        }
        proof {
            lemma_first_module(self.modules@, address, n as int);
        }
        None
    }

    /// A well-formed list has no two modules that share an address.
    pub proof fn lemma_well_formed(&self)
        requires
            self.well_formed(),
        ensures
            pairwise_disjoint(self@),
    {
    }
}

/// In a list of modules no two of which share an address, an address lies in
/// at most one module.
pub proof fn lemma_one_module_per_address(modules: Seq<Module>, address: u64, i: int, j: int)
    requires
        pairwise_disjoint(modules),
        0 <= i < modules.len(),
        0 <= j < modules.len(),
        modules[i].spec_contains(address),
        modules[j].spec_contains(address),
    ensures
        i == j,
{
    if i < j {
        assert(modules[i].spec_overlaps(&modules[j]));
    } else if j < i {
        assert(modules[j].spec_overlaps(&modules[i]));
    }
}

} // verus!
