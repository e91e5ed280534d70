//! A synthetic, word-addressed address space.
//!
//! The relocation engine only ever inspects and mutates 8-byte machine words:
//! an instance's leading word (its dispatch-table pointer), the words of a
//! dispatch table, and the words of the metadata records it allocates. A
//! [`World`] models exactly that: a finite map from 8-aligned addresses to
//! words, a set of known foreign module regions, and a bump allocator that
//! hands out fresh, disjoint regions above everything already mapped.
//!
//! Reading an unmapped address yields the word `0`.

use vstd::prelude::*;

verus! {

/// A loaded foreign module: an identifier together with the address range it
/// occupies.
#[derive(Copy, Clone, Debug, PartialEq, Eq, Structural)]
pub struct ModuleRegion {
    /// Identifier of the module (the hash of its name).
    pub id: u64,
    /// Lowest address of the module.
    pub base: u64,
    /// Number of bytes the module occupies.
    pub size: u64,
}

/// How an address is classified, mirroring the address classifier consumed by
/// the engine: not readable at all, readable but outside every known module,
/// or inside a known module.
#[derive(Copy, Clone, Debug, PartialEq, Eq, Structural)]
pub enum MemoryState {
    NonDereferencable,
    DereferencableOutsideModule,
    DereferencableInModule,
}

/// The mathematical model of a [`World`].
pub ghost struct WorldView {
    /// Mapped words, keyed by 8-aligned address.
    pub mem: Map<u64, u64>,
    /// Known foreign modules, in the order they were registered.
    pub modules: Seq<ModuleRegion>,
    /// Base address of the main program region.
    pub main_base: u64,
    /// Size in bytes of the main program region.
    pub main_size: u64,
    /// Bump-allocation frontier: every mapped word and every module region
    /// lies strictly below it.
    pub next: u64,
}

/// Rounds `x` up to the next multiple of 8.
pub open spec fn round_up8(x: int) -> int {
    ((x + 7) / 8) * 8
}

pub proof fn lemma_round_up8(x: int)
    requires
        0 <= x,
    ensures
        x <= round_up8(x) < x + 8,
        round_up8(x) % 8 == 0,
{
    assert(x <= ((x + 7) / 8) * 8 < x + 8 && (((x + 7) / 8) * 8) % 8 == 0) by (nonlinear_arith);
}

impl WorldView {
    /// The word stored at `addr`; unmapped addresses read as `0`.
    pub open spec fn word(self, addr: u64) -> u64 {
        if self.mem.contains_key(addr) {
            self.mem[addr]
        } else {
            0
        }
    }

    /// Whether `addr` lies inside the main program region or inside a known
    /// module region.
    pub open spec fn in_known_module(self, addr: u64) -> bool {
        ||| (self.main_base <= addr && addr < self.main_base + self.main_size)
        ||| exists|i: int|
            0 <= i < self.modules.len() && (#[trigger] self.modules[i]).base <= addr
                && addr < self.modules[i].base + self.modules[i].size
    }

    /// Address classification: module regions are always readable; other
    /// addresses are readable exactly when a word is mapped there.
    pub open spec fn classify(self, addr: u64) -> MemoryState {
        if self.in_known_module(addr) {
            MemoryState::DereferencableInModule
        } else if self.mem.contains_key(addr) {
            MemoryState::DereferencableOutsideModule
        } else {
            MemoryState::NonDereferencable
        }
    }

    /// The first registered module with identifier `id`.
    pub open spec fn find_module(self, id: u64) -> Option<ModuleRegion> {
        find_module_in(self.modules, id)
    }

    /// Base address for a binding's module: `None` names the main program
    /// region, `Some(id)` names a registered module.
    pub open spec fn resolve_base(self, module: Option<u64>) -> Option<u64> {
        match module {
            Option::None => Option::Some(self.main_base),
            Option::Some(id) => match self.find_module(id) {
                Option::Some(m) => Option::Some(m.base),
                Option::None => Option::None,
            },
        }
    }

    /// Well-formedness: the frontier is aligned and strictly above every
    /// mapped word, the main region, and every module region.
    pub open spec fn wf(self) -> bool {
        &&& self.next % 8 == 0
        &&& forall|a: u64|
            #[trigger] self.mem.contains_key(a) ==> a % 8 == 0 && a + 8 <= self.next
        &&& self.main_base + self.main_size <= self.next
        &&& forall|i: int|
            0 <= i < self.modules.len() ==> (#[trigger] self.modules[i]).base
                + self.modules[i].size <= self.next
    }
}

/// First module with the given identifier in a sequence of regions.
pub open spec fn find_module_in(mods: Seq<ModuleRegion>, id: u64) -> Option<ModuleRegion>
    decreases mods.len(),
{
    if mods.len() == 0 {
        Option::None
    } else if mods[0].id == id {
        Option::Some(mods[0])
    } else {
        find_module_in(mods.skip(1), id)
    }
}

proof fn lemma_find_module_skip(mods: Seq<ModuleRegion>, id: u64, i: int)
    requires
        0 <= i < mods.len(),
        mods[i].id != id,
    ensures
        find_module_in(mods.skip(i), id) == find_module_in(mods.skip(i + 1), id),
{
    assert(mods.skip(i).len() > 0);
    assert(mods.skip(i)[0] == mods[i]);
    assert(mods.skip(i).skip(1) =~= mods.skip(i + 1));
}

/// Addition on addresses with wrap-around, matching `u64::wrapping_add`.
pub open spec fn wadd(a: u64, k: u64) -> u64 {
    vstd::wrapping::u64_specs::wrapping_add(a, k)
}

/// Subtraction on addresses with wrap-around, matching `u64::wrapping_sub`.
pub open spec fn wsub(a: u64, k: u64) -> u64 {
    vstd::wrapping::u64_specs::wrapping_sub(a, k)
}

/// Multiplication on addresses with wrap-around, matching
/// `u64::wrapping_mul`.
pub open spec fn wmul(a: u64, k: u64) -> u64 {
    vstd::wrapping::u64_specs::wrapping_mul(a, k)
}

/// The map `m` with the words `ws` stored at consecutive 8-byte addresses
/// starting at `base`.
pub open spec fn store_words(m: Map<u64, u64>, base: u64, ws: Seq<u64>) -> Map<u64, u64>
    decreases ws.len(),
{
    if ws.len() == 0 {
        m
    } else {
        store_words(m.insert(base, ws[0]), wadd(base, 8), ws.skip(1))
    }
}

/// The map `m` with the `n` consecutive words starting at `base` unmapped.
pub open spec fn remove_words(m: Map<u64, u64>, base: u64, n: nat) -> Map<u64, u64>
    decreases n,
{
    if n == 0 {
        m
    } else {
        remove_words(m.remove(base), wadd(base, 8), (n - 1) as nat)
    }
}

/// Storing one more word appends one insertion at the end of the run.
pub proof fn lemma_store_words_push(m: Map<u64, u64>, base: u64, ws: Seq<u64>, x: u64)
    requires
        base + 8 * ws.len() + 8 <= u64::MAX,
    ensures
        store_words(m, base, ws.push(x)) == store_words(m, base, ws).insert(
            (base + 8 * ws.len()) as u64,
            x,
        ),
    decreases ws.len(),
{
    if ws.len() == 0 {
        assert(ws.push(x)[0] == x);
        assert(ws.push(x).skip(1) =~= Seq::<u64>::empty());
        assert(store_words(m, base, ws.push(x)) == m.insert(base, x)) by {
            reveal_with_fuel(store_words, 2);
        }
    } else {
        assert(ws.push(x)[0] == ws[0]);
        assert(ws.push(x).skip(1) =~= ws.skip(1).push(x));
        assert(wadd(base, 8) == base + 8);
        lemma_store_words_push(m.insert(base, ws[0]), (base + 8) as u64, ws.skip(1), x);
        assert(base + 8 + 8 * ws.skip(1).len() == base + 8 * ws.len());
    }
}

/// Removing one more word appends one removal at the end of the run.
pub proof fn lemma_remove_words_push(m: Map<u64, u64>, base: u64, n: nat)
    requires
        base + 8 * n + 8 <= u64::MAX,
    ensures
        remove_words(m, base, n + 1) == remove_words(m, base, n).remove((base + 8 * n) as u64),
    decreases n,
{
    if n == 0 {
        assert(remove_words(m, base, 1) == m.remove(base)) by {
            reveal_with_fuel(remove_words, 2);
        }
    } else {
        assert(wadd(base, 8) == base + 8);
        lemma_remove_words_push(m.remove(base), (base + 8) as u64, (n - 1) as nat);
        assert(base + 8 + 8 * (n - 1) == base + 8 * n);
    }
}

/// Whether `a` is one of the `n` word addresses of the run starting at
/// `base`.
pub open spec fn in_run(base: u64, n: nat, a: u64) -> bool {
    base <= a < base + 8 * n && (a - base) % 8 == 0
}

/// The index of `a` within the run starting at `base`.
pub open spec fn run_index(base: u64, a: u64) -> int {
    (a - base) / 8
}

/// Where each address of a stored run ends up: addresses inside the run hold
/// the corresponding word of `ws`; every other address is untouched.
pub proof fn lemma_store_words_lookup(m: Map<u64, u64>, base: u64, ws: Seq<u64>, a: u64)
    requires
        base + 8 * ws.len() <= u64::MAX,
    ensures
        in_run(base, ws.len(), a) ==> {
            &&& store_words(m, base, ws).contains_key(a)
            &&& store_words(m, base, ws)[a] == ws[run_index(base, a)]
        },
        !in_run(base, ws.len(), a) ==> {
            &&& store_words(m, base, ws).contains_key(a) == m.contains_key(a)
            &&& m.contains_key(a) ==> store_words(m, base, ws)[a] == m[a]
        },
    decreases ws.len(),
{
    if ws.len() > 0 {
        assert(wadd(base, 8) == base + 8);
        lemma_store_words_lookup(m.insert(base, ws[0]), (base + 8) as u64, ws.skip(1), a);
        if in_run(base, ws.len(), a) {
            if a == base {
                assert(run_index(base, a) == 0);
                assert(!in_run((base + 8) as u64, ws.skip(1).len(), a)) by {
                    assert((a - (base + 8)) < 0);
                }
            } else {
                assert(in_run((base + 8) as u64, ws.skip(1).len(), a)) by {
                    assert((a - (base + 8)) % 8 == (a - base - 8) % 8);
                    assert((a - base) % 8 == 0 ==> (a - base - 8) % 8 == 0) by (nonlinear_arith);
                }
                assert(run_index((base + 8) as u64, a) == run_index(base, a) - 1) by {
                    assert((a - base - 8) / 8 == (a - base) / 8 - 1) by (nonlinear_arith)
                        requires
                            (a - base) % 8 == 0,
                            a - base >= 8,
                    ;
                }
                assert(ws.skip(1)[run_index(base, a) - 1] == ws[run_index(base, a)]);
            }
        } else {
            assert(!in_run((base + 8) as u64, ws.skip(1).len(), a)) by {
                if base + 8 <= a < base + 8 + 8 * ws.skip(1).len() && (a - (base + 8)) % 8 == 0 {
                    assert((a - base) % 8 == 0) by {
                        assert((a - base - 8) % 8 == 0 ==> (a - base) % 8 == 0)
                            by (nonlinear_arith);
                    }
                    assert(in_run(base, ws.len(), a));
                }
            }
            assert(a != base);
        }
    }
}

/// Removing a run of words only unmaps addresses inside the run.
pub proof fn lemma_remove_words_lookup(m: Map<u64, u64>, base: u64, n: nat, a: u64)
    requires
        base + 8 * n <= u64::MAX,
    ensures
        in_run(base, n, a) ==> !remove_words(m, base, n).contains_key(a),
        !in_run(base, n, a) ==> {
            &&& remove_words(m, base, n).contains_key(a) == m.contains_key(a)
            &&& m.contains_key(a) ==> remove_words(m, base, n)[a] == m[a]
        },
    decreases n,
{
    if n > 0 {
        assert(wadd(base, 8) == base + 8);
        lemma_remove_words_lookup(m.remove(base), (base + 8) as u64, (n - 1) as nat, a);
        if in_run(base, n, a) {
            if a != base {
                assert(in_run((base + 8) as u64, (n - 1) as nat, a)) by {
                    assert((a - base) % 8 == 0 ==> (a - base - 8) % 8 == 0) by (nonlinear_arith);
                }
            }
        } else {
            assert(!in_run((base + 8) as u64, (n - 1) as nat, a)) by {
                if base + 8 <= a < base + 8 + 8 * (n - 1) && (a - (base + 8)) % 8 == 0 {
                    assert((a - base - 8) % 8 == 0 ==> (a - base) % 8 == 0) by (nonlinear_arith);
                    assert(in_run(base, n, a));
                }
            }
            assert(a != base);
        }
    }
}

/// A synthetic address space: mapped words, known module regions, and a bump
/// allocator for fresh memory.
pub struct World {
    mem: std::collections::HashMap<u64, u64>,
    modules: Vec<ModuleRegion>,
    main_base: u64,
    main_size: u64,
    next: u64,
}

impl View for World {
    type V = WorldView;

    closed spec fn view(&self) -> WorldView {
        WorldView {
            mem: self.mem@,
            modules: self.modules@,
            main_base: self.main_base,
            main_size: self.main_size,
            next: self.next,
        }
    }
}

impl World {
    /// A fresh address space whose main program region spans
    /// `[main_base, main_base + main_size)`, with nothing mapped yet.
    pub fn new(main_base: u64, main_size: u64) -> (w: World)
        requires
            main_base + main_size <= u64::MAX - 7,
        ensures
            w@.wf(),
            w@.mem == Map::<u64, u64>::empty(),
            w@.modules == Seq::<ModuleRegion>::empty(),
            w@.main_base == main_base,
            w@.main_size == main_size,
            w@.next == round_up8(main_base + main_size),
    {
        proof {
            lemma_round_up8(main_base + main_size);
        }
        let w = World {
            mem: std::collections::HashMap::new(),
            modules: Vec::new(),
            main_base,
            main_size,
            next: ((main_base + main_size + 7) / 8) * 8,
        };
        proof {
            assert(w@.mem =~= Map::<u64, u64>::empty());
            assert(w@.modules =~= Seq::<ModuleRegion>::empty());
        }
        w
    }

    /// Registers a foreign module region. The allocation frontier moves above
    /// the new region if needed.
    pub fn add_module(&mut self, id: u64, base: u64, size: u64)
        requires
            old(self)@.wf(),
            base + size <= u64::MAX - 7,
        ensures
            final(self)@.wf(),
            final(self)@.mem == old(self)@.mem,
            final(self)@.modules == old(self)@.modules.push(
                ModuleRegion { id, base, size },
            ),
            final(self)@.main_base == old(self)@.main_base,
            final(self)@.main_size == old(self)@.main_size,
            old(self)@.next <= final(self)@.next,
            base + size <= final(self)@.next,
    {
        proof {
            lemma_round_up8(base + size);
        }
        let end = ((base + size + 7) / 8) * 8;
        if end > self.next {
            self.next = end;
        }
        self.modules.push(ModuleRegion { id, base, size });
        proof {
            let w0 = old(self)@;
            let w1 = self@;
            assert forall|a: u64| #[trigger] w1.mem.contains_key(a) implies a % 8 == 0 && a + 8
                <= w1.next by {
                assert(w0.mem.contains_key(a));
            }
            assert forall|i: int| 0 <= i < w1.modules.len() implies (#[trigger] w1.modules[i]).base
                + w1.modules[i].size <= w1.next by {
                if i < w0.modules.len() {
                    assert(w1.modules[i] == w0.modules[i]);
                }
            }
        }
    }

    /// Maps (or overwrites) the word at `addr`. The allocation frontier moves
    /// above the word if needed.
    pub fn write_word(&mut self, addr: u64, value: u64)
        requires
            old(self)@.wf(),
            addr % 8 == 0,
            addr + 8 <= u64::MAX,
        ensures
            final(self)@.wf(),
            final(self)@.mem == old(self)@.mem.insert(addr, value),
            final(self)@.modules == old(self)@.modules,
            final(self)@.main_base == old(self)@.main_base,
            final(self)@.main_size == old(self)@.main_size,
            final(self)@.next == (if addr + 8 > old(self)@.next {
                addr + 8
            } else {
                old(self)@.next as int
            }),
    {
        if addr + 8 > self.next {
            self.next = addr + 8;
            proof {
                assert((addr + 8) % 8 == 0) by (nonlinear_arith)
                    requires
                        addr % 8 == 0,
                        addr + 8 <= u64::MAX,
                ;
            }
        }
        self.mem.insert(addr, value);
        proof {
            let w0 = old(self)@;
            let w1 = self@;
            assert forall|a: u64| #[trigger] w1.mem.contains_key(a) implies a % 8 == 0 && a + 8
                <= w1.next by {
                if a != addr {
                    assert(w0.mem.contains_key(a));
                }
            }
            assert forall|i: int| 0 <= i < w1.modules.len() implies (#[trigger] w1.modules[i]).base
                + w1.modules[i].size <= w1.next by {
                assert(w1.modules[i] == w0.modules[i]);
            }
        }
    }

    /// Unmaps the word at `addr`, if any. The allocation frontier does not
    /// move.
    pub fn unmap_word(&mut self, addr: u64)
        requires
            old(self)@.wf(),
        ensures
            final(self)@.wf(),
            final(self)@.mem == old(self)@.mem.remove(addr),
            final(self)@.modules == old(self)@.modules,
            final(self)@.main_base == old(self)@.main_base,
            final(self)@.main_size == old(self)@.main_size,
            final(self)@.next == old(self)@.next,
    {
        self.mem.remove(&addr);
        proof {
            let w0 = old(self)@;
            let w1 = self@;
            assert forall|a: u64| #[trigger] w1.mem.contains_key(a) implies a % 8 == 0 && a + 8
                <= w1.next by {
                assert(w0.mem.contains_key(a));
            }
            assert forall|i: int| 0 <= i < w1.modules.len() implies (#[trigger] w1.modules[i]).base
                + w1.modules[i].size <= w1.next by {
                assert(w1.modules[i] == w0.modules[i]);
            }
        }
    }

    /// The word at `addr`; unmapped addresses read as `0`.
    pub fn read_word(&self, addr: u64) -> (r: u64)
        ensures
            r == self@.word(addr),
    {
        match self.mem.get(&addr) {
            Option::Some(v) => *v,
            Option::None => 0,
        }
    }

    /// Whether a word is mapped at `addr`.
    pub fn is_mapped(&self, addr: u64) -> (r: bool)
        ensures
            r == self@.mem.contains_key(addr),
    {
        self.mem.contains_key(&addr)
    }

    /// Classifies `addr` as the consumed address classifier would.
    pub fn classify(&self, addr: u64) -> (s: MemoryState)
        ensures
            s == self@.classify(addr),
    {
        if self.main_base <= addr && addr - self.main_base < self.main_size {
            return MemoryState::DereferencableInModule;
        }
        let n = self.modules.len();
        let mut i: usize = 0;
        while i < n
            invariant
                n == self.modules.len(),
                0 <= i <= n,
                forall|j: int|
                    0 <= j < i ==> !((#[trigger] self@.modules[j]).base <= addr
                        && addr < self@.modules[j].base + self@.modules[j].size),
            decreases n - i,
        {
            let m = self.modules[i];
            if m.base <= addr && addr - m.base < m.size {
                return MemoryState::DereferencableInModule;
            }
            i += 1;
        }
        if self.mem.contains_key(&addr) {
            MemoryState::DereferencableOutsideModule
        } else {
            MemoryState::NonDereferencable
        }
    }

    /// Base address of the named module region, as the consumed address
    /// classifier would resolve it: `None` names the main program region.
    pub fn resolve_module_base(&self, module: Option<u64>) -> (r: Option<u64>)
        ensures
            r == self@.resolve_base(module),
    {
        let id: u64;
        match module {
            Option::Some(v) => {
                id = v;
            },
            Option::None => {
                return Option::Some(self.main_base);
            },
        }
        assert(module == Option::Some(id));
        let n = self.modules.len();
        let mut i: usize = 0;
        proof {
            assert(self@.modules.skip(0) =~= self@.modules);
        }
        while i < n
            invariant
                module == Option::Some(id),
                n == self.modules.len(),
                0 <= i <= n,
                find_module_in(self@.modules, id) == find_module_in(self@.modules.skip(i as int), id),
                forall|j: int| 0 <= j < i ==> (#[trigger] self@.modules[j]).id != id,
            decreases n - i,
        {
            let m = self.modules[i];
            if m.id == id {
                proof {
                    let tail = self@.modules.skip(i as int);
                    assert(tail.len() > 0);
                    assert(tail[0] == self@.modules[i as int]);
                    assert(find_module_in(tail, id) == Option::Some(tail[0]));
                    assert(self@.find_module(id) == Option::Some(self@.modules[i as int]));
                }
                return Option::Some(m.base);
            }
            proof {
                lemma_find_module_skip(self@.modules, id, i as int);
            }
            i += 1;
        }
        proof {
            assert(self@.modules.skip(n as int).len() == 0);
        }
        Option::None
    }

    /// Base address of the main program region.
    pub fn main_base(&self) -> (r: u64)
        ensures
            r == self@.main_base,
    {
        self.main_base
    }

    /// The allocation frontier: every mapped word lies strictly below it.
    pub fn alloc_frontier(&self) -> (r: u64)
        ensures
            r == self@.next,
    {
        self.next
    }
}

} // verus!
