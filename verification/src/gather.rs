//! The gatherer: which input sections are kept, in which order, under
//! which standard section, and with which merged file flags.

use vstd::prelude::*;
use vstd::string::*;
use std::collections::hash_map::RandomState;
use indexmap::IndexSet;
use crate::config::Config;
use crate::error::LinkError;
use crate::flags::{merged_flags, update_e_flags, FileFlags};
use crate::input::InputObject;
use crate::kinds::{is_metadata, kind_is_metadata};
use crate::manifest::{Manifest, ManifestEntry};
use crate::ordered_set::{set_get, set_insert, set_items, set_len, set_new};
use crate::wildcard::{is_match, wild_matches};

verus! {

/// The number of standard sections.
pub const STANDARD_SECTION_COUNT: usize = 4;

/// The segment into which a standard section is grouped.
#[derive(Clone, Copy, Debug, PartialEq, Eq, Structural, Hash)]
pub enum SectionSegment {
    LoadableRead,
    LoadableReadWrite,
    LoadableReadExec,
}

/// The names of the standard sections, in the order in which their
/// buckets are filled.
pub open spec fn standard_name(index: int) -> Seq<char> {
    if index == 0 {
        "text"@
    } else if index == 1 {
        "rodata"@
    } else if index == 2 {
        "data"@
    } else {
        "bss"@
    }
}

/// The segments of the standard sections.
pub open spec fn standard_segment(index: int) -> SectionSegment {
    if index == 0 {
        SectionSegment::LoadableReadExec
    } else if index == 1 {
        SectionSegment::LoadableRead
    } else {
        SectionSegment::LoadableReadWrite
    }
}

/// The name of a standard section.
pub fn standard_section_name(index: usize) -> (name: &'static str)
    requires
        index < STANDARD_SECTION_COUNT,
    ensures
        name@ == standard_name(index as int),
{
    if index == 0 {
        "text"
    } else if index == 1 {
        "rodata"
    } else if index == 2 {
        "data"
    } else {
        "bss"
    }
}

/// The segment of a standard section.
pub fn standard_section_segment(index: usize) -> (segment: SectionSegment)
    requires
        index < STANDARD_SECTION_COUNT,
    ensures
        segment == standard_segment(index as int),
{
    if index == 0 {
        SectionSegment::LoadableReadExec
    } else if index == 1 {
        SectionSegment::LoadableRead
    } else {
        SectionSegment::LoadableReadWrite
    }
}

/// A kept section: the position of its object in the manifest, its index
/// within that object, and the standard section that it flows into.
#[derive(Clone, Copy, Debug, PartialEq, Eq, Structural)]
pub struct ManifestSection {
    pub object: usize,
    pub index: usize,
    pub parent: usize,
}

/// The state of a gather: the kept sections as pairs of object and
/// section index with their standard sections beside them, the flags
/// merged so far, and which objects have had their flags merged.
pub struct Gathered {
    pub items: Seq<(usize, usize)>,
    pub parents: Seq<usize>,
    pub flags: FileFlags,
    pub contributed: Seq<bool>,
}

impl Gathered {
    /// The kept sections in order.
    pub open spec fn kept(self) -> Seq<ManifestSection> {
        Seq::new(
            self.items.len(),
            |i: int|
                ManifestSection {
                    object: self.items[i].0,
                    index: self.items[i].1,
                    parent: self.parents[i],
                },
        )
    }
}

/// The state before anything is gathered from `objects` objects.
pub open spec fn nothing_gathered(objects: nat) -> Gathered {
    Gathered {
        items: Seq::empty(),
        parents: Seq::empty(),
        flags: FileFlags::Unset,
        contributed: Seq::new(objects, |i: int| false),
    }
}

/// Visits one section of an object under one pattern of a standard
/// section. A section whose name cannot be read ends the gather. A
/// section that is no metadata and whose name matches is kept, unless it
/// is kept already; the first section kept from an object has the flags
/// of the object merged into those of the output.
pub open spec fn visit_section(
    state: Gathered,
    pattern: Seq<char>,
    parent: usize,
    object_index: usize,
    object: InputObject,
    index: usize,
) -> Result<Gathered, LinkError> {
    let section = object.sections@[index as int];
    match section.name {
        None => Err(LinkError::UnreadableSectionName { object: object_index, section: index }),
        Some(name) => {
            if !wild_matches(pattern, name@) || kind_is_metadata(section.kind)
                || state.items.contains((object_index, index)) {
                Ok(state)
            } else if state.contributed[object_index as int] {
                Ok(
                    Gathered {
                        items: state.items.push((object_index, index)),
                        parents: state.parents.push(parent),
                        ..state
                    },
                )
            } else {
                match merged_flags(state.flags, object.flags) {
                    None => Err(LinkError::UnsupportedFileFlags { object: object_index }),
                    Some(flags) => Ok(
                        Gathered {
                            items: state.items.push((object_index, index)),
                            parents: state.parents.push(parent),
                            flags,
                            contributed: state.contributed.update(object_index as int, true),
                        },
                    ),
                }
            }
        },
    }
}

/// Visits the sections of an object from index `from` on, in index order.
pub open spec fn visit_sections(
    state: Gathered,
    pattern: Seq<char>,
    parent: usize,
    object_index: usize,
    object: InputObject,
    from: int,
) -> Result<Gathered, LinkError>
    decreases object.sections@.len() - from,
{
    if from < 0 || from >= object.sections@.len() {
        Ok(state)
    } else {
        match visit_section(state, pattern, parent, object_index, object, from as usize) {
            Err(e) => Err(e),
            Ok(next) => visit_sections(next, pattern, parent, object_index, object, from + 1),
        }
    }
}

/// Visits an object under one pattern. An object with COMDAT section
/// groups ends the gather.
pub open spec fn visit_object(
    state: Gathered,
    pattern: Seq<char>,
    parent: usize,
    object_index: usize,
    object: InputObject,
) -> Result<Gathered, LinkError> {
    if object.comdats > 0 {
        Err(LinkError::Comdat { object: object_index, count: object.comdats })
    } else {
        visit_sections(state, pattern, parent, object_index, object, 0)
    }
}

/// Visits the objects of the manifest from position `from` on, in
/// manifest order, under one pattern.
pub open spec fn visit_objects(
    state: Gathered,
    pattern: Seq<char>,
    parent: usize,
    entries: Seq<ManifestEntry>,
    from: int,
) -> Result<Gathered, LinkError>
    decreases entries.len() - from,
{
    if from < 0 || from >= entries.len() {
        Ok(state)
    } else {
        match visit_object(state, pattern, parent, from as usize, entries[from].object) {
            Err(e) => Err(e),
            Ok(next) => visit_objects(next, pattern, parent, entries, from + 1),
        }
    }
}

/// Visits the manifest under the patterns of a standard section from
/// pattern `from` on, in listed order.
pub open spec fn visit_patterns(
    state: Gathered,
    patterns: Seq<Seq<char>>,
    parent: usize,
    entries: Seq<ManifestEntry>,
    from: int,
) -> Result<Gathered, LinkError>
    decreases patterns.len() - from,
{
    if from < 0 || from >= patterns.len() {
        Ok(state)
    } else {
        match visit_objects(state, patterns[from], parent, entries, 0) {
            Err(e) => Err(e),
            Ok(next) => visit_patterns(next, patterns, parent, entries, from + 1),
        }
    }
}

/// The patterns that the script lists for a standard section: none where
/// the script has no table for it.
pub open spec fn bucket_patterns(config: Config, parent: int) -> Seq<Seq<char>> {
    match config.section.lookup(standard_name(parent)) {
        Some(section) => section.patterns(),
        None => Seq::empty(),
    }
}

/// Fills the standard sections from `from` on, in their fixed order.
pub open spec fn visit_buckets(
    state: Gathered,
    config: Config,
    entries: Seq<ManifestEntry>,
    from: int,
) -> Result<Gathered, LinkError>
    decreases STANDARD_SECTION_COUNT - from,
{
    if from < 0 || from >= STANDARD_SECTION_COUNT {
        Ok(state)
    } else {
        match visit_patterns(state, bucket_patterns(config, from), from as usize, entries, 0) {
            Err(e) => Err(e),
            Ok(next) => visit_buckets(next, config, entries, from + 1),
        }
    }
}

/// The outcome of gathering the manifest under the link script.
pub open spec fn gathered(config: Config, manifest: Manifest) -> Result<Gathered, LinkError> {
    visit_buckets(nothing_gathered(manifest.entries@.len()), config, manifest.entries@, 0)
}

/// The positions in `kept` of the sections that flow into standard
/// section `parent`, in order, among the first `upto` kept sections.
pub open spec fn bucket_members(kept: Seq<ManifestSection>, parent: usize, upto: int) -> Seq<usize>
    decreases upto,
{
    if upto <= 0 || upto > kept.len() {
        Seq::empty()
    } else if kept[upto - 1].parent == parent {
        bucket_members(kept, parent, upto - 1).push((upto - 1) as usize)
    } else {
        bucket_members(kept, parent, upto - 1)
    }
}

/// The kept sections, the standard-section buckets that they flow into,
/// and the merged file flags.
#[derive(Debug)]
pub struct Collection {
    sections: IndexSet<(usize, usize), RandomState>,
    parents: Vec<usize>,
    contributed: Vec<bool>,
    merged: Vec<Vec<usize>>,
    e_flags: FileFlags,
}

impl Collection {
    /// The state of the gather that this collection holds.
    pub closed spec fn state(&self) -> Gathered {
        Gathered {
            items: set_items(self.sections),
            parents: self.parents@,
            flags: self.e_flags,
            contributed: self.contributed@,
        }
    }

    /// The kept sections in order.
    pub open spec fn kept(&self) -> Seq<ManifestSection> {
        self.state().kept()
    }

    /// The merged file flags.
    pub open spec fn flags(&self) -> FileFlags {
        self.state().flags
    }

    /// The buckets of the standard sections: each holds positions in the
    /// sequence of kept sections.
    pub closed spec fn buckets(&self) -> Seq<Seq<usize>> {
        Seq::new(self.merged@.len(), |p: int| self.merged@[p]@)
    }

    /// Whether each bucket holds the positions of the kept sections that
    /// flow into its standard section, in emission order.
    pub open spec fn is_merged(&self) -> bool {
        &&& self.buckets().len() == STANDARD_SECTION_COUNT
        &&& forall|p: int|
            0 <= p < STANDARD_SECTION_COUNT ==> #[trigger] self.buckets()[p] == bucket_members(
                self.kept(),
                p as usize,
                self.kept().len() as int,
            )
    }

    /// Every kept section has its standard section beside it, and there
    /// is one bucket for each standard section.
    pub closed spec fn wf(&self) -> bool {
        &&& self.parents@.len() == set_items(self.sections).len()
        &&& self.merged@.len() == STANDARD_SECTION_COUNT
        &&& forall|i: int| 0 <= i < self.parents@.len() ==> self.parents@[i] < STANDARD_SECTION_COUNT
    }

    fn gather_object(
        &mut self,
        pattern: &str,
        parent: usize,
        object_index: usize,
        object: &InputObject,
    ) -> (result: Result<(), LinkError>)
        requires
            old(self).wf(),
            object_index < old(self).state().contributed.len(),
            parent < STANDARD_SECTION_COUNT,
        ensures
            match visit_object(old(self).state(), pattern@, parent, object_index, *object) {
                Ok(next) => result is Ok && final(self).state() == next && final(self).wf()
                    && next.contributed.len() == old(self).state().contributed.len()
                    && final(self).buckets() == old(self).buckets(),
                Err(e) => result == Err::<(), LinkError>(e),
            },
    {
        if object.comdats > 0 {
            return Err(LinkError::Comdat { object: object_index, count: object.comdats });
        }
        let ghost start = self.state();
        let mut index: usize = 0;
        while index < object.sections.len()
            invariant
                index <= object.sections@.len(),
                parent < STANDARD_SECTION_COUNT,
                object.comdats == 0,
                start == old(self).state(),
                self.wf(),
                object_index < self.state().contributed.len(),
                self.state().contributed.len() == start.contributed.len(),
                self.buckets() == old(self).buckets(),
                visit_sections(self.state(), pattern@, parent, object_index, *object, index as int)
                    == visit_sections(start, pattern@, parent, object_index, *object, 0),
            decreases object.sections@.len() - index,
        {
            let section = &object.sections[index];
            match &section.name {
                None => {
                    return Err(
                        LinkError::UnreadableSectionName { object: object_index, section: index },
                    );
                },
                Some(name) => {
                    if is_match(pattern, name.as_str()) && !is_metadata(section.kind) {
                        if set_insert(&mut self.sections, (object_index, index)) {
                            self.parents.push(parent);
                            if !self.contributed[object_index] {
                                match update_e_flags(self.e_flags, object.flags) {
                                    None => {
                                        return Err(
                                            LinkError::UnsupportedFileFlags {
                                                object: object_index,
                                            },
                                        );
                                    },
                                    Some(flags) => {
                                        self.e_flags = flags;
                                        self.contributed.set(object_index, true);
                                    },
                                }
                            }
                        }
                    }
                },
            }
            index += 1;
        }
        Ok(())
    }

    fn gather_pattern(&mut self, pattern: &str, parent: usize, manifest: &Manifest) -> (result:
        Result<(), LinkError>)
        requires
            old(self).wf(),
            old(self).state().contributed.len() == manifest.entries@.len(),
            parent < STANDARD_SECTION_COUNT,
        ensures
            match visit_objects(old(self).state(), pattern@, parent, manifest.entries@, 0) {
                Ok(next) => result is Ok && final(self).state() == next && final(self).wf()
                    && next.contributed.len() == manifest.entries@.len() && final(self).buckets()
                    == old(self).buckets(),
                Err(e) => result == Err::<(), LinkError>(e),
            },
    {
        let ghost start = self.state();
        let mut position: usize = 0;
        while position < manifest.entries.len()
            invariant
                position <= manifest.entries@.len(),
                parent < STANDARD_SECTION_COUNT,
                start == old(self).state(),
                self.wf(),
                self.state().contributed.len() == manifest.entries@.len(),
                self.buckets() == old(self).buckets(),
                visit_objects(self.state(), pattern@, parent, manifest.entries@, position as int)
                    == visit_objects(start, pattern@, parent, manifest.entries@, 0),
            decreases manifest.entries@.len() - position,
        {
            match self.gather_object(pattern, parent, position, &manifest.entries[position].object) {
                Err(e) => {
                    return Err(e);
                },
                Ok(()) => {},
            }
            position += 1;
        }
        Ok(())
    }

    fn gather_bucket(&mut self, config: &Config, parent: usize, manifest: &Manifest) -> (result:
        Result<(), LinkError>)
        requires
            old(self).wf(),
            old(self).state().contributed.len() == manifest.entries@.len(),
            parent < STANDARD_SECTION_COUNT,
        ensures
            match visit_patterns(
                old(self).state(),
                bucket_patterns(*config, parent as int),
                parent,
                manifest.entries@,
                0,
            ) {
                Ok(next) => result is Ok && final(self).state() == next && final(self).wf()
                    && next.contributed.len() == manifest.entries@.len() && final(self).buckets()
                    == old(self).buckets(),
                Err(e) => result == Err::<(), LinkError>(e),
            },
    {
        let ghost start = self.state();
        let ghost patterns = bucket_patterns(*config, parent as int);
        match config.get_sections().get(standard_section_name(parent)) {
            None => Ok(()),
            Some(section) => {
                let listed = section.get_sections_to_include();
                assert(patterns == section.patterns());
                let mut position: usize = 0;
                while position < listed.len()
                    invariant
                        position <= listed@.len(),
                        parent < STANDARD_SECTION_COUNT,
                        start == old(self).state(),
                        patterns == bucket_patterns(*config, parent as int),
                        patterns == crate::config::text_views(listed@),
                        self.wf(),
                        self.state().contributed.len() == manifest.entries@.len(),
                        self.buckets() == old(self).buckets(),
                        visit_patterns(
                            self.state(),
                            patterns,
                            parent,
                            manifest.entries@,
                            position as int,
                        ) == visit_patterns(start, patterns, parent, manifest.entries@, 0),
                    decreases listed@.len() - position,
                {
                    match self.gather_pattern(listed[position].as_str(), parent, manifest) {
                        Err(e) => {
                            return Err(e);
                        },
                        Ok(()) => {},
                    }
                    position += 1;
                }
                Ok(())
            },
        }
    }

    /// Gathers the sections of the manifest that the link script asks
    /// for. The buckets are left empty: `merge` fills them.
    pub fn new(config: &Config, manifest: &Manifest) -> (result: Result<Collection, LinkError>)
        ensures
            match gathered(*config, *manifest) {
                Ok(outcome) => result matches Ok(collection) && collection.state() == outcome
                    && collection.wf() && collection.buckets() == Seq::new(
                    STANDARD_SECTION_COUNT as nat,
                    |p: int| Seq::<usize>::empty(),
                ),
                Err(e) => result matches Err(error) && error == e,
            },
    {
        let mut contributed: Vec<bool> = Vec::new();
        while contributed.len() < manifest.entries.len()
            invariant
                contributed@.len() <= manifest.entries@.len(),
                forall|i: int| 0 <= i < contributed@.len() ==> !contributed@[i],
            decreases manifest.entries@.len() - contributed@.len(),
        {
            contributed.push(false);
        }
        let mut merged: Vec<Vec<usize>> = Vec::new();
        while merged.len() < STANDARD_SECTION_COUNT
            invariant
                merged@.len() <= STANDARD_SECTION_COUNT,
                forall|p: int| 0 <= p < merged@.len() ==> merged@[p]@ == Seq::<usize>::empty(),
            decreases STANDARD_SECTION_COUNT - merged@.len(),
        {
            merged.push(Vec::new());
        }
        let mut collection = Collection {
            sections: set_new(),
            parents: Vec::new(),
            contributed,
            merged,
            e_flags: FileFlags::Unset,
        };
        assert(collection.state().contributed =~= nothing_gathered(
            manifest.entries@.len(),
        ).contributed);
        assert(collection.state() == nothing_gathered(manifest.entries@.len()));
        assert(collection.buckets() =~= Seq::new(
            STANDARD_SECTION_COUNT as nat,
            |p: int| Seq::<usize>::empty(),
        ));
        let ghost start = collection.state();
        let mut parent: usize = 0;
        while parent < STANDARD_SECTION_COUNT
            invariant
                parent <= STANDARD_SECTION_COUNT,
                start == nothing_gathered(manifest.entries@.len()),
                collection.wf(),
                collection.state().contributed.len() == manifest.entries@.len(),
                collection.buckets() == Seq::new(
                    STANDARD_SECTION_COUNT as nat,
                    |p: int| Seq::<usize>::empty(),
                ),
                visit_buckets(collection.state(), *config, manifest.entries@, parent as int)
                    == visit_buckets(start, *config, manifest.entries@, 0),
            decreases STANDARD_SECTION_COUNT - parent,
        {
            match collection.gather_bucket(config, parent, manifest) {
                Err(e) => {
                    return Err(e);
                },
                Ok(()) => {},
            }
            parent += 1;
        }
        Ok(collection)
    }

    /// Fills the bucket of each standard section with the positions of
    /// the kept sections that flow into it, in emission order.
    pub fn merge(&mut self)
        requires
            old(self).wf(),
        ensures
            final(self).wf(),
            final(self).state() == old(self).state(),
            final(self).is_merged(),
    {
        let ghost kept = self.kept();
        let mut merged: Vec<Vec<usize>> = Vec::new();
        let mut parent: usize = 0;
        while parent < STANDARD_SECTION_COUNT
            invariant
                parent <= STANDARD_SECTION_COUNT,
                self.wf(),
                self.state() == old(self).state(),
                kept == self.kept(),
                merged@.len() == parent,
                forall|p: int|
                    0 <= p < parent ==> (#[trigger] merged@[p])@ == bucket_members(
                        kept,
                        p as usize,
                        kept.len() as int,
                    ),
            decreases STANDARD_SECTION_COUNT - parent,
        {
            let mut bucket: Vec<usize> = Vec::new();
            let mut position: usize = 0;
            while position < self.parents.len()
                invariant
                    position <= self.parents@.len(),
                    self.wf(),
                    kept == self.kept(),
                    kept.len() == self.parents@.len(),
                    bucket@ == bucket_members(kept, parent, position as int),
                decreases self.parents@.len() - position,
            {
                if self.parents[position] == parent {
                    bucket.push(position);
                }
                position += 1;
            }
            merged.push(bucket);
            parent += 1;
        }
        self.merged = merged;
        assert forall|p: int| 0 <= p < STANDARD_SECTION_COUNT implies #[trigger] self.buckets()[p]
            == bucket_members(kept, p as usize, kept.len() as int) by {
            assert(self.buckets()[p] == self.merged@[p]@);
        }
    }

    /// The bucket of a standard section.
    pub fn bucket(&self, parent: usize) -> (bucket: &Vec<usize>)
        requires
            self.wf(),
            parent < STANDARD_SECTION_COUNT,
        ensures
            bucket@ == self.buckets()[parent as int],
    {
        &self.merged[parent]
    }

    /// The number of kept sections.
    pub fn len(&self) -> (len: usize)
        requires
            self.wf(),
        ensures
            len == self.kept().len(),
    {
        set_len(&self.sections)
    }

    /// The kept section at a position in emission order.
    pub fn section(&self, position: usize) -> (section: Option<ManifestSection>)
        requires
            self.wf(),
        ensures
            section == if position < self.kept().len() {
                Some(self.kept()[position as int])
            } else {
                None
            },
    {
        match set_get(&self.sections, position) {
            None => None,
            Some(item) => Some(
                ManifestSection {
                    object: item.0,
                    index: item.1,
                    parent: self.parents[position],
                },
            ),
        }
    }

    /// The kept section at a position below the number of kept sections.
    pub fn kept_section(&self, position: usize) -> (section: ManifestSection)
        requires
            self.wf(),
            position < self.kept().len(),
        ensures
            section == self.kept()[position as int],
    {
        match set_get(&self.sections, position) {
            Some(item) => ManifestSection {
                object: item.0,
                index: item.1,
                parent: self.parents[position],
            },
            None => vstd::pervasive::unreached(),
        }
    }

    /// The merged file flags.
    pub fn e_flags(&self) -> (flags: FileFlags)
        ensures
            flags == self.flags(),
    {
        self.e_flags
    }
}

/// Gathering is a function of the link script and the manifest: two
/// gathers over the same script and manifest, each followed by a merge,
/// yield equal kept sections, equal buckets and equal file flags.
pub proof fn lemma_gather_twice(
    config: Config,
    manifest: Manifest,
    first: Collection,
    second: Collection,
)
    requires
        gathered(config, manifest) == Ok::<Gathered, LinkError>(first.state()),
        gathered(config, manifest) == Ok::<Gathered, LinkError>(second.state()),
        first.is_merged(),
        second.is_merged(),
    ensures
        first.kept() == second.kept(),
        first.flags() == second.flags(),
        first.buckets() == second.buckets(),
{
    assert(first.buckets() =~= second.buckets());
}

} // verus!
