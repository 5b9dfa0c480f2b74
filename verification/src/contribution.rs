//! The file flags that the gatherer merges: those of the objects that
//! contribute a kept section.

use vstd::prelude::*;
use crate::config::Config;
use crate::flags::{
    flag_bits, float_abi_max, lemma_fold_is_union_and_max, merge_bits, usage_union, FileFlags,
    EF_FLOAT_ABI_MASK, EF_USAGE_FLAGS,
};
use crate::gather::{
    bucket_patterns, gathered, nothing_gathered, visit_buckets, visit_object, visit_objects,
    visit_patterns, visit_section, visit_sections, Gathered, STANDARD_SECTION_COUNT,
};
use crate::manifest::{Manifest, ManifestEntry};

verus! {

/// The flag word of an object; zero where its flags are no ELF flags.
pub open spec fn flag_word(flags: FileFlags) -> u32 {
    match flag_bits(flags) {
        Some(bits) => bits,
        None => 0u32,
    }
}

/// The flag words of the objects among the first `upto` of the manifest
/// that contribute, in manifest order.
pub open spec fn contributing_words(
    entries: Seq<ManifestEntry>,
    contributed: Seq<bool>,
    upto: int,
) -> Seq<u32>
    decreases upto,
{
    if upto <= 0 {
        Seq::empty()
    } else {
        let rest = contributing_words(entries, contributed, upto - 1);
        if upto <= entries.len() && upto <= contributed.len() && contributed[upto - 1] {
            rest.push(flag_word(entries[upto - 1].object.flags))
        } else {
            rest
        }
    }
}

/// Whether an object has a section among the kept ones.
pub open spec fn has_kept_section(state: Gathered, object: int) -> bool {
    exists|k: int| 0 <= k < state.items.len() && (#[trigger] state.items[k]).0 == object
}

/// What holds of the flags of a gather at every step: the objects that
/// have contributed are those with a kept section, and the merged flags
/// are the union of the usage bits of these objects together with the
/// greatest of their float ABI fields.
pub open spec fn flags_merged(state: Gathered, entries: Seq<ManifestEntry>) -> bool {
    &&& state.contributed.len() == entries.len()
    &&& forall|object: int|
        0 <= object < entries.len() ==> (#[trigger] state.contributed[object]
            <==> has_kept_section(state, object))
    &&& forall|k: int| 0 <= k < state.items.len() ==> (#[trigger] state.items[k]).0 < entries.len()
    &&& flag_bits(state.flags) == Some(
        usage_union(contributing_words(entries, state.contributed, entries.len() as int))
            | float_abi_max(contributing_words(entries, state.contributed, entries.len() as int)),
    )
    &&& if state.items.len() == 0 {
        state.flags == FileFlags::Unset
    } else {
        state.flags is Elf
    }
}

/// The greater of two float ABI fields.
pub open spec fn greater(a: u32, b: u32) -> u32 {
    if b > a {
        b
    } else {
        a
    }
}

proof fn lemma_new_contributor(
    entries: Seq<ManifestEntry>,
    contributed: Seq<bool>,
    object: int,
    upto: int,
)
    requires
        0 <= object < entries.len(),
        contributed.len() == entries.len(),
        !contributed[object],
        0 <= upto <= entries.len(),
    ensures
        ({
            let before = contributing_words(entries, contributed, upto);
            let after = contributing_words(entries, contributed.update(object, true), upto);
            let word = flag_word(entries[object].object.flags);
            &&& usage_union(after) == if object < upto {
                usage_union(before) | (word & EF_USAGE_FLAGS)
            } else {
                usage_union(before)
            }
            &&& float_abi_max(after) == if object < upto {
                greater(float_abi_max(before), word & EF_FLOAT_ABI_MASK)
            } else {
                float_abi_max(before)
            }
        }),
    decreases upto,
{
    if upto > 0 {
        let changed = contributed.update(object, true);
        lemma_new_contributor(entries, contributed, object, upto - 1);
        let before = contributing_words(entries, contributed, upto - 1);
        let after = contributing_words(entries, changed, upto - 1);
        let word = flag_word(entries[object].object.flags);
        let here = flag_word(entries[upto - 1].object.flags);
        if upto - 1 == object {
            assert(after.push(word).drop_last() =~= after);
        } else if contributed[upto - 1] {
            assert(changed[upto - 1]);
            assert(after.push(here).drop_last() =~= after);
            assert(before.push(here).drop_last() =~= before);
            let u = usage_union(before);
            let x = word & EF_USAGE_FLAGS;
            let y = here & EF_USAGE_FLAGS;
            assert((u | x) | y == (u | y) | x) by (bit_vector);
        } else {
            assert(!changed[upto - 1]);
        }
    }
}

proof fn lemma_flags_visit_section(
    state: Gathered,
    entries: Seq<ManifestEntry>,
    pattern: Seq<char>,
    parent: usize,
    object: usize,
    index: usize,
)
    requires
        object < entries.len(),
        index < entries[object as int].object.sections@.len(),
        flags_merged(state, entries),
        visit_section(state, pattern, parent, object, entries[object as int].object, index) is Ok,
    ensures
        flags_merged(
            visit_section(
                state,
                pattern,
                parent,
                object,
                entries[object as int].object,
                index,
            )->Ok_0,
            entries,
        ),
{
    let next = visit_section(state, pattern, parent, object, entries[object as int].object, index)->Ok_0;
    if next != state {
        let count = state.items.len() as int;
        assert(next.items == state.items.push((object, index)));
        assert(next.items[count] == (object, index));
        assert forall|k: int| 0 <= k < next.items.len() implies (#[trigger] next.items[k]).0
            < entries.len() by {
            if k < count {
                assert(next.items[k] == state.items[k]);
            }
        }
        assert forall|other: int| 0 <= other < entries.len() implies (
        #[trigger] next.contributed[other] <==> has_kept_section(next, other)) by {
            if has_kept_section(state, other) {
                let k = choose|k: int| 0 <= k < state.items.len() && (#[trigger] state.items[k]).0
                    == other;
                assert(next.items[k] == state.items[k]);
            }
            if has_kept_section(next, other) && other != object {
                let k = choose|k: int| 0 <= k < next.items.len() && (#[trigger] next.items[k]).0
                    == other;
                assert(next.items[k] == state.items[k]);
            }
        }
        if !state.contributed[object as int] {
            let words = contributing_words(entries, state.contributed, entries.len() as int);
            let word = flag_word(entries[object as int].object.flags);
            lemma_new_contributor(entries, state.contributed, object as int, entries.len() as int);
            lemma_fold_is_union_and_max(words);
            let usage = usage_union(words);
            let level = float_abi_max(words);
            assert(merge_bits(usage | level, word) == (usage | (word & EF_USAGE_FLAGS)) | (if (word
                & EF_FLOAT_ABI_MASK) > level {
                word & EF_FLOAT_ABI_MASK
            } else {
                level
            })) by {
                crate::flags::lemma_merge(usage, level, word);
            }
        }
    }
}

proof fn lemma_flags_visit_sections(
    state: Gathered,
    entries: Seq<ManifestEntry>,
    pattern: Seq<char>,
    parent: usize,
    object: usize,
    from: int,
)
    requires
        object < entries.len(),
        0 <= from <= entries[object as int].object.sections@.len(),
        flags_merged(state, entries),
        visit_sections(state, pattern, parent, object, entries[object as int].object, from) is Ok,
    ensures
        flags_merged(
            visit_sections(
                state,
                pattern,
                parent,
                object,
                entries[object as int].object,
                from,
            )->Ok_0,
            entries,
        ),
    decreases entries[object as int].object.sections@.len() - from,
{
    let input = entries[object as int].object;
    assert(input.sections@.len() == input.sections.len());
    if from < input.sections@.len() {
        let next = visit_section(state, pattern, parent, object, input, from as usize)->Ok_0;
        lemma_flags_visit_section(state, entries, pattern, parent, object, from as usize);
        lemma_flags_visit_sections(next, entries, pattern, parent, object, from + 1);
    }
}

proof fn lemma_flags_visit_objects(
    state: Gathered,
    entries: Seq<ManifestEntry>,
    pattern: Seq<char>,
    parent: usize,
    from: int,
)
    requires
        entries.len() <= usize::MAX,
        0 <= from <= entries.len(),
        flags_merged(state, entries),
        visit_objects(state, pattern, parent, entries, from) is Ok,
    ensures
        flags_merged(visit_objects(state, pattern, parent, entries, from)->Ok_0, entries),
    decreases entries.len() - from,
{
    if from < entries.len() {
        let next = visit_object(state, pattern, parent, from as usize, entries[from].object)->Ok_0;
        lemma_flags_visit_sections(state, entries, pattern, parent, from as usize, 0);
        lemma_flags_visit_objects(next, entries, pattern, parent, from + 1);
    }
}

proof fn lemma_flags_visit_patterns(
    state: Gathered,
    entries: Seq<ManifestEntry>,
    patterns: Seq<Seq<char>>,
    parent: usize,
    from: int,
)
    requires
        entries.len() <= usize::MAX,
        0 <= from <= patterns.len(),
        flags_merged(state, entries),
        visit_patterns(state, patterns, parent, entries, from) is Ok,
    ensures
        flags_merged(visit_patterns(state, patterns, parent, entries, from)->Ok_0, entries),
    decreases patterns.len() - from,
{
    if from < patterns.len() {
        let next = visit_objects(state, patterns[from], parent, entries, 0)->Ok_0;
        lemma_flags_visit_objects(state, entries, patterns[from], parent, 0);
        lemma_flags_visit_patterns(next, entries, patterns, parent, from + 1);
    }
}

proof fn lemma_flags_visit_buckets(
    state: Gathered,
    config: Config,
    entries: Seq<ManifestEntry>,
    from: int,
)
    requires
        entries.len() <= usize::MAX,
        0 <= from <= STANDARD_SECTION_COUNT,
        flags_merged(state, entries),
        visit_buckets(state, config, entries, from) is Ok,
    ensures
        flags_merged(visit_buckets(state, config, entries, from)->Ok_0, entries),
    decreases STANDARD_SECTION_COUNT - from,
{
    if from < STANDARD_SECTION_COUNT {
        let patterns = bucket_patterns(config, from);
        let next = visit_patterns(state, patterns, from as usize, entries, 0)->Ok_0;
        lemma_flags_visit_patterns(state, entries, patterns, from as usize, 0);
        lemma_flags_visit_buckets(next, config, entries, from + 1);
    }
}

proof fn lemma_no_contributors(entries: Seq<ManifestEntry>, upto: int)
    requires
        0 <= upto <= entries.len(),
    ensures
        contributing_words(
            entries,
            Seq::new(entries.len(), |i: int| false),
            upto,
        ) == Seq::<u32>::empty(),
    decreases upto,
{
    if upto > 0 {
        lemma_no_contributors(entries, upto - 1);
    }
}

/// The file flags that a gather merges are the union of the usage bits
/// of the contributing objects together with the greatest of their
/// float ABI fields, where the contributing objects are the objects of
/// which a section is kept. They are ELF flags once a section is kept,
/// and unset before.
pub proof fn lemma_gather_flags(config: Config, manifest: Manifest)
    requires
        gathered(config, manifest) is Ok,
    ensures
        ({
            let outcome = gathered(config, manifest)->Ok_0;
            let words = contributing_words(
                manifest.entries@,
                outcome.contributed,
                manifest.entries@.len() as int,
            );
            &&& outcome.contributed.len() == manifest.entries@.len()
            &&& forall|object: int|
                0 <= object < manifest.entries@.len() ==> (#[trigger] outcome.contributed[object]
                    <==> has_kept_section(outcome, object))
            &&& flag_bits(outcome.flags) == Some(usage_union(words) | float_abi_max(words))
            &&& if outcome.kept().len() == 0 {
                outcome.flags == FileFlags::Unset
            } else {
                outcome.flags == FileFlags::Elf {
                    e_flags: usage_union(words) | float_abi_max(words),
                }
            }
        }),
{
    let entries = manifest.entries@;
    let start = nothing_gathered(entries.len());
    assert(entries.len() == manifest.entries.len());
    lemma_no_contributors(entries, entries.len() as int);
    assert(0u32 | 0u32 == 0u32) by (bit_vector);
    assert(flags_merged(start, entries));
    lemma_flags_visit_buckets(start, config, entries, 0);
}

} // verus!
