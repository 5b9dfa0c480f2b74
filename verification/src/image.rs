//! The output image: the sections, symbols and relocations that the
//! emitter hands to the ELF writer, and the maps from input indices to
//! output identifiers.

use vstd::prelude::*;
use crate::flags::FileFlags;
use crate::input::SectionFlags;

verus! {

/// What an output section holds.
#[derive(Debug)]
pub enum SectionContents {
    /// Initialized bytes.
    Data(Vec<u8>),
    /// A number of bytes that occupy no space in the file.
    Uninitialized(u64),
}

/// The contents of an output section as a mathematical value.
pub enum ContentsView {
    Data(Seq<u8>),
    Uninitialized(u64),
}

impl View for SectionContents {
    type V = ContentsView;

    open spec fn view(&self) -> ContentsView {
        match self {
            SectionContents::Data(bytes) => ContentsView::Data(bytes@),
            SectionContents::Uninitialized(size) => ContentsView::Uninitialized(*size),
        }
    }
}

/// A section of the output. Its identifier is its position among the
/// sections of the image.
#[derive(Debug)]
pub struct OutputSection {
    pub segment: String,
    pub name: String,
    pub kind: object::SectionKind,
    pub contents: SectionContents,
    pub align: u64,
    pub flags: SectionFlags,
}

/// An output section as a mathematical value.
pub struct OutputSectionView {
    pub segment: Seq<char>,
    pub name: Seq<char>,
    pub kind: object::SectionKind,
    pub contents: ContentsView,
    pub align: u64,
    pub flags: SectionFlags,
}

impl View for OutputSection {
    type V = OutputSectionView;

    open spec fn view(&self) -> OutputSectionView {
        OutputSectionView {
            segment: self.segment@,
            name: self.name@,
            kind: self.kind,
            contents: self.contents@,
            align: self.align,
            flags: self.flags,
        }
    }
}

/// The section that an output symbol is attributed to.
#[derive(Clone, Copy, Debug, PartialEq, Eq, Structural)]
pub enum OutputSymbolSection {
    /// No section applies to the symbol.
    NoSection,
    /// The symbol is undefined.
    Undefined,
    /// The symbol has an absolute value.
    Absolute,
    /// The symbol is a common symbol.
    Common,
    /// The symbol is defined in the output section with this identifier.
    Section(usize),
}

/// Format-specific flags of an output symbol.
#[derive(Clone, Copy, Debug, PartialEq, Eq, Structural)]
pub enum OutputSymbolFlags {
    /// No flags are recorded.
    NoFlags,
    /// The `st_info` and `st_other` fields of an ELF symbol.
    Elf { st_info: u8, st_other: u8 },
}

/// A symbol of the output. Its identifier is its position among the
/// symbols of the image.
#[derive(Debug)]
pub struct OutputSymbol {
    pub name: Vec<u8>,
    pub value: u64,
    pub size: u64,
    pub kind: object::SymbolKind,
    pub scope: object::SymbolScope,
    pub weak: bool,
    pub section: OutputSymbolSection,
    pub flags: OutputSymbolFlags,
}

/// An output symbol as a mathematical value.
pub struct OutputSymbolView {
    pub name: Seq<u8>,
    pub value: u64,
    pub size: u64,
    pub kind: object::SymbolKind,
    pub scope: object::SymbolScope,
    pub weak: bool,
    pub section: OutputSymbolSection,
    pub flags: OutputSymbolFlags,
}

impl View for OutputSymbol {
    type V = OutputSymbolView;

    open spec fn view(&self) -> OutputSymbolView {
        OutputSymbolView {
            name: self.name@,
            value: self.value,
            size: self.size,
            kind: self.kind,
            scope: self.scope,
            weak: self.weak,
            section: self.section,
            flags: self.flags,
        }
    }
}

/// The symbol that an output relocation refers to.
#[derive(Clone, Copy, Debug, PartialEq, Eq, Structural)]
pub enum SymbolRef {
    /// The output symbol with this identifier.
    Symbol(usize),
    /// The canonical section symbol of the output section with this
    /// identifier.
    SectionSymbol(usize),
}

/// A relocation of the output.
#[derive(Clone, Copy, Debug)]
pub struct OutputRelocation {
    /// The identifier of the output section that the relocation patches.
    pub section: usize,
    pub offset: u64,
    pub size: u8,
    pub kind: object::RelocationKind,
    pub encoding: object::RelocationEncoding,
    pub symbol: SymbolRef,
    pub addend: i64,
}

/// The output under construction.
#[derive(Debug)]
pub struct Image {
    pub sections: Vec<OutputSection>,
    pub symbols: Vec<OutputSymbol>,
    pub relocations: Vec<OutputRelocation>,
    pub flags: FileFlags,
}

/// An image as a mathematical value.
pub struct ImageView {
    pub sections: Seq<OutputSectionView>,
    pub symbols: Seq<OutputSymbolView>,
    pub relocations: Seq<OutputRelocation>,
    pub flags: FileFlags,
}

/// The views of a sequence of output sections.
pub open spec fn section_views(sections: Seq<OutputSection>) -> Seq<OutputSectionView> {
    Seq::new(sections.len(), |i: int| sections[i]@)
}

/// The views of a sequence of output symbols.
pub open spec fn symbol_views(symbols: Seq<OutputSymbol>) -> Seq<OutputSymbolView> {
    Seq::new(symbols.len(), |i: int| symbols[i]@)
}

impl View for Image {
    type V = ImageView;

    open spec fn view(&self) -> ImageView {
        ImageView {
            sections: section_views(self.sections@),
            symbols: symbol_views(self.symbols@),
            relocations: self.relocations@,
            flags: self.flags,
        }
    }
}

impl ImageView {
    /// Whether a symbol reference names a symbol of this image.
    pub open spec fn has_symbol(self, symbol: SymbolRef) -> bool {
        match symbol {
            SymbolRef::Symbol(id) => id < self.symbols.len(),
            SymbolRef::SectionSymbol(id) => id < self.sections.len(),
        }
    }
}

impl Image {
    /// An image without sections, symbols or relocations, whose file
    /// flags are zero.
    pub fn new() -> (image: Image)
        ensures
            image@.sections.len() == 0,
            image@.symbols.len() == 0,
            image@.relocations.len() == 0,
            image@.flags == FileFlags::Unset,
    {
        Image {
            sections: Vec::new(),
            symbols: Vec::new(),
            relocations: Vec::new(),
            flags: FileFlags::Unset,
        }
    }
}

/// A map from pairs of an object's position in the manifest and an index
/// within that object to output identifiers. It has room for the indices
/// below a fixed limit for each object.
#[derive(Debug)]
pub struct OutputMap {
    pub slots: Vec<Vec<Option<usize>>>,
}

impl View for OutputMap {
    type V = Map<(usize, usize), usize>;

    open spec fn view(&self) -> Map<(usize, usize), usize> {
        Map::new(
            |key: (usize, usize)|
                key.0 < self.slots@.len() && key.1 < self.slots@[key.0 as int]@.len()
                    && self.slots@[key.0 as int]@[key.1 as int] is Some,
            |key: (usize, usize)| self.slots@[key.0 as int]@[key.1 as int]->0,
        )
    }
}

/// Whether no two keys of `map` have the same value.
pub open spec fn is_injective(map: Map<(usize, usize), usize>) -> bool {
    forall|a: (usize, usize), b: (usize, usize)|
        map.dom().contains(a) && map.dom().contains(b) && a != b ==> map[a] != map[b]
}

/// Whether every value of `map` is below `limit`.
pub open spec fn values_below(map: Map<(usize, usize), usize>, limit: nat) -> bool {
    forall|key: (usize, usize)| map.dom().contains(key) ==> map[key] < limit
}

impl OutputMap {
    /// The number of indices that the map has room for, for each object.
    pub open spec fn shape(&self) -> Seq<nat> {
        Seq::new(self.slots@.len(), |object: int| self.slots@[object]@.len())
    }

    /// An empty map with room for `limits[k]` indices of object `k`.
    pub fn with_shape(limits: &Vec<usize>) -> (map: OutputMap)
        ensures
            map@ == Map::<(usize, usize), usize>::empty(),
            map.shape() == Seq::new(limits@.len(), |object: int| limits@[object] as nat),
    {
        let mut slots: Vec<Vec<Option<usize>>> = Vec::new();
        let mut object: usize = 0;
        while object < limits.len()
            invariant
                object <= limits@.len(),
                slots@.len() == object,
                forall|k: int|
                    0 <= k < object ==> (#[trigger] slots@[k])@.len() == limits@[k] && forall|
                        i: int,
                    | 0 <= i < limits@[k] ==> slots@[k]@[i] is None,
            decreases limits@.len() - object,
        {
            let mut row: Vec<Option<usize>> = Vec::new();
            while row.len() < limits[object]
                invariant
                    object < limits@.len(),
                    row@.len() <= limits@[object as int],
                    forall|i: int| 0 <= i < row@.len() ==> row@[i] is None,
                decreases limits@[object as int] - row@.len(),
            {
                row.push(None);
            }
            slots.push(row);
            object += 1;
        }
        let map = OutputMap { slots };
        assert(map@ =~= Map::<(usize, usize), usize>::empty());
        assert(map.shape() =~= Seq::new(limits@.len(), |object: int| limits@[object] as nat));
        map
    }

    /// The identifier that the map holds for an index of an object.
    pub fn get(&self, object: usize, index: usize) -> (id: Option<usize>)
        ensures
            id == if self@.dom().contains((object, index)) {
                Some(self@[(object, index)])
            } else {
                None
            },
    {
        if object < self.slots.len() {
            if index < self.slots[object].len() {
                return self.slots[object][index];
            }
        }
        None
    }

    /// Records an identifier for an index of an object, in place of the
    /// one that the map held for it before.
    pub fn insert(&mut self, object: usize, index: usize, id: usize)
        requires
            object < old(self).shape().len(),
            index < old(self).shape()[object as int],
        ensures
            final(self)@ == old(self)@.insert((object, index), id),
            final(self).shape() == old(self).shape(),
    {
        self.slots[object].set(index, Some(id));
        assert(self@ =~= old(self)@.insert((object, index), id));
        assert(self.shape() =~= old(self).shape());
    }
}

} // verus!
