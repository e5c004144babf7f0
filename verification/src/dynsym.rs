use vstd::prelude::*;
use crate::bytes::copy_bytes;

verus! {

/// Why a name is in the dynamic-symbol table.
#[derive(Clone, Copy, Debug, PartialEq, Eq, Hash, Structural)]
pub enum SymbolKind {
    EntryPoint,
    CallTarget,
}

/// One dynamic symbol: a name, why it is there, and the byte offset it came from.
#[derive(Debug, PartialEq, Eq)]
pub struct DynamicSymbol {
    pub name: Vec<u8>,
    pub kind: SymbolKind,
    pub offset: u64,
}

/// A dynamic symbol, with its name as a sequence.
pub struct DynamicSymbolView {
    pub name: Seq<u8>,
    pub kind: SymbolKind,
    pub offset: u64,
}

impl View for DynamicSymbol {
    type V = DynamicSymbolView;

    open spec fn view(&self) -> DynamicSymbolView {
        DynamicSymbolView { name: self.name@, kind: self.kind, offset: self.offset }
    }
}

/// The dynamic symbols of a program, in the order they were recorded.
#[derive(Debug, PartialEq, Eq)]
pub struct DynamicSymbolMap {
    pub symbols: Vec<DynamicSymbol>,
}

impl View for DynamicSymbolMap {
    type V = Seq<DynamicSymbolView>;

    open spec fn view(&self) -> Seq<DynamicSymbolView> {
        self.symbols@.map_values(|s: DynamicSymbol| s@)
    }
}

impl DynamicSymbolMap {
    /// A table without symbols.
    pub fn new() -> (m: DynamicSymbolMap)
        ensures
            m@ == Seq::<DynamicSymbolView>::empty(),
    {
        let m = DynamicSymbolMap { symbols: Vec::new() };
        assert(m@ =~= Seq::<DynamicSymbolView>::empty());
        m
    }

    /// Records a symbol behind those that are there.
    pub fn add_symbol(&mut self, name: Vec<u8>, kind: SymbolKind, offset: u64)
        ensures
            final(self)@ == old(self)@.push(DynamicSymbolView { name: name@, kind, offset }),
    {
        self.symbols.push(DynamicSymbol { name, kind, offset });
        assert(self@ =~= old(self)@.push(DynamicSymbolView { name: name@, kind, offset }));
    }

    /// Records the entry point.
    pub fn add_entry_point(&mut self, name: Vec<u8>, offset: u64)
        ensures
            final(self)@ == old(self)@.push(
                DynamicSymbolView { name: name@, kind: SymbolKind::EntryPoint, offset },
            ),
    {
        self.add_symbol(name, SymbolKind::EntryPoint, offset);
    }

    /// Records an external function that the program calls.
    pub fn add_call_target(&mut self, name: Vec<u8>, offset: u64)
        ensures
            final(self)@ == old(self)@.push(
                DynamicSymbolView { name: name@, kind: SymbolKind::CallTarget, offset },
            ),
    {
        self.add_symbol(name, SymbolKind::CallTarget, offset);
    }

    /// A table with the same symbols.
    pub fn copy(&self) -> (m: DynamicSymbolMap)
        ensures
            m@ == self@,
    {
        let mut symbols: Vec<DynamicSymbol> = Vec::new();
        let mut i: usize = 0;
        while i < self.symbols.len()
            invariant
                i <= self.symbols.len(),
                symbols.len() == i,
                forall|j: int| 0 <= j < i ==> symbols@[j]@ == self.symbols@[j]@,
            decreases self.symbols.len() - i,
        {
            let s = &self.symbols[i];
            symbols.push(
                DynamicSymbol { name: copy_bytes(s.name.as_slice()), kind: s.kind, offset: s.offset },
            );
            i += 1;
        }
        let m = DynamicSymbolMap { symbols };
        assert(m@ =~= self@);
        m
    }
}

/// What a loader does with a relocation.
#[derive(Clone, Copy, Debug, PartialEq, Eq, Hash, Structural)]
pub enum RelocationType {
    /// An `lddw` that loads the address of a label.
    RSbf64Relative,
    /// A `call` of a named external function.
    RSbfSyscall,
}

/// One relocation: where, of what kind, and for which name.
#[derive(Debug, PartialEq, Eq)]
pub struct Relocation {
    pub offset: u64,
    pub rel_type: RelocationType,
    pub name: Vec<u8>,
}

/// A relocation, with its name as a sequence.
pub struct RelocationView {
    pub offset: u64,
    pub rel_type: RelocationType,
    pub name: Seq<u8>,
}

impl View for Relocation {
    type V = RelocationView;

    open spec fn view(&self) -> RelocationView {
        RelocationView { offset: self.offset, rel_type: self.rel_type, name: self.name@ }
    }
}

/// The relocations of a program, in the order they were recorded.
#[derive(Debug, PartialEq, Eq)]
pub struct RelDynMap {
    pub entries: Vec<Relocation>,
}

impl View for RelDynMap {
    type V = Seq<RelocationView>;

    open spec fn view(&self) -> Seq<RelocationView> {
        self.entries@.map_values(|r: Relocation| r@)
    }
}

impl RelDynMap {
    /// A table without relocations.
    pub fn new() -> (m: RelDynMap)
        ensures
            m@ == Seq::<RelocationView>::empty(),
    {
        let m = RelDynMap { entries: Vec::new() };
        assert(m@ =~= Seq::<RelocationView>::empty());
        m
    }

    /// Records a relocation behind those that are there.
    pub fn add_rel_dyn(&mut self, offset: u64, rel_type: RelocationType, name: Vec<u8>)
        ensures
            final(self)@ == old(self)@.push(RelocationView { offset, rel_type, name: name@ }),
    {
        self.entries.push(Relocation { offset, rel_type, name });
        assert(self@ =~= old(self)@.push(RelocationView { offset, rel_type, name: name@ }));
    }

    /// Whether there is no relocation.
    pub fn is_empty(&self) -> (b: bool)
        ensures
            b == (self@.len() == 0),
    {
        self.entries.len() == 0
    }

    /// A table with the same relocations.
    pub fn copy(&self) -> (m: RelDynMap)
        ensures
            m@ == self@,
    {
        let mut entries: Vec<Relocation> = Vec::new();
        let mut i: usize = 0;
        while i < self.entries.len()
            invariant
                i <= self.entries.len(),
                entries.len() == i,
                forall|j: int| 0 <= j < i ==> entries@[j]@ == self.entries@[j]@,
            decreases self.entries.len() - i,
        {
            let r = &self.entries[i];
            entries.push(
                Relocation { offset: r.offset, rel_type: r.rel_type, name: copy_bytes(r.name.as_slice()) },
            );
            i += 1;
        }
        let m = RelDynMap { entries };
        assert(m@ =~= self@);
        m
    }
}

} // verus!
