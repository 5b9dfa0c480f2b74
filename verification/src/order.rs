//! The order in which the gatherer keeps sections.

use vstd::prelude::*;
use crate::config::Config;
use crate::copy::section_key;
use crate::gather::{
    bucket_patterns, gathered, nothing_gathered, visit_buckets, visit_object, visit_objects,
    visit_patterns, visit_section, visit_sections, Gathered, ManifestSection,
    STANDARD_SECTION_COUNT,
};
use crate::kinds::kind_is_metadata;
use crate::manifest::{Manifest, ManifestEntry};
use crate::wildcard::wild_matches;

verus! {

/// A step of the gather: a section of an object meets a pattern of a
/// standard section.
pub struct Visit {
    pub parent: int,
    pub pattern: int,
    pub object: int,
    pub index: int,
}

/// Whether the gather makes visit `a` before visit `b`: standard sections
/// come in their fixed order, within one the patterns in listed order,
/// under a pattern the objects in manifest order, and within an object
/// the sections in index order.
pub open spec fn visit_before(a: Visit, b: Visit) -> bool {
    a.parent < b.parent || (a.parent == b.parent && (a.pattern < b.pattern || (a.pattern
        == b.pattern && (a.object < b.object || (a.object == b.object && a.index < b.index)))))
}

/// The position of the first of `patterns` at or after `from` that
/// matches `name`, or the number of patterns if none does.
pub open spec fn first_pattern(patterns: Seq<Seq<char>>, name: Seq<char>, from: int) -> int
    decreases patterns.len() - from,
{
    if from < 0 || from >= patterns.len() {
        patterns.len() as int
    } else if wild_matches(patterns[from], name) {
        from
    } else {
        first_pattern(patterns, name, from + 1)
    }
}

/// Whether a kept section names a section of the manifest that can be
/// kept: one with a readable name that is no metadata.
pub open spec fn names_section(entries: Seq<ManifestEntry>, kept: ManifestSection) -> bool {
    &&& kept.object < entries.len()
    &&& kept.index < entries[kept.object as int].object.sections@.len()
    &&& entries[kept.object as int].object.sections@[kept.index as int].name is Some
    &&& !kind_is_metadata(entries[kept.object as int].object.sections@[kept.index as int].kind)
}

/// The name of a kept section.
pub open spec fn kept_name(entries: Seq<ManifestEntry>, kept: ManifestSection) -> Seq<char> {
    entries[kept.object as int].object.sections@[kept.index as int].name->0@
}

/// The visit at which a kept section is kept: the first pattern of its
/// standard section that matches its name meets it.
pub open spec fn keeping_visit(
    config: Config,
    entries: Seq<ManifestEntry>,
    kept: ManifestSection,
) -> Visit {
    Visit {
        parent: kept.parent as int,
        pattern: first_pattern(
            bucket_patterns(config, kept.parent as int),
            kept_name(entries, kept),
            0,
        ),
        object: kept.object as int,
        index: kept.index as int,
    }
}

/// Whether a kept section is one that its standard section asks for.
pub open spec fn rightly_kept(
    config: Config,
    entries: Seq<ManifestEntry>,
    kept: ManifestSection,
) -> bool {
    &&& names_section(entries, kept)
    &&& kept.parent < STANDARD_SECTION_COUNT
    &&& keeping_visit(config, entries, kept).pattern < bucket_patterns(
        config,
        kept.parent as int,
    ).len()
}

/// What holds of a gather that has made every visit before `next`: the
/// kept sections are rightly kept, each at a visit before `next`, in
/// the order of the visits that kept them; and every section that a
/// visit of the current standard section asked for is kept.
pub open spec fn gathered_upto(
    state: Gathered,
    config: Config,
    entries: Seq<ManifestEntry>,
    next: Visit,
) -> bool {
    &&& state.items.len() == state.parents.len()
    &&& forall|i: int, j: int|
        0 <= i < j < state.items.len() ==> #[trigger] state.items[i] != #[trigger] state.items[j]
    &&& forall|k: int|
        0 <= k < state.items.len() ==> rightly_kept(config, entries, #[trigger] state.kept()[k])
            && visit_before(keeping_visit(config, entries, state.kept()[k]), next)
    &&& forall|i: int, j: int|
        0 <= i < j < state.items.len() ==> visit_before(
            keeping_visit(config, entries, #[trigger] state.kept()[i]),
            keeping_visit(config, entries, #[trigger] state.kept()[j]),
        )
    &&& forall|parent: int, pattern: int, object: int, index: int| #[trigger]
        asked_for(config, entries, next, parent, pattern, object, index) ==> state.items.contains(
            (object as usize, index as usize),
        )
}

/// Whether a visit asks for the section that it meets: the section has
/// a readable name that the pattern matches, and is no metadata.
pub open spec fn asks_for(
    config: Config,
    entries: Seq<ManifestEntry>,
    parent: int,
    pattern: int,
    object: int,
    index: int,
) -> bool {
    &&& 0 <= parent < STANDARD_SECTION_COUNT
    &&& 0 <= pattern < bucket_patterns(config, parent).len()
    &&& 0 <= object < entries.len()
    &&& 0 <= index < entries[object].object.sections@.len()
    &&& entries[object].object.sections@[index].name is Some
    &&& !kind_is_metadata(entries[object].object.sections@[index].kind)
    &&& wild_matches(
        bucket_patterns(config, parent)[pattern],
        entries[object].object.sections@[index].name->0@,
    )
}

/// Whether a visit that comes before `next` asks for the section that it
/// meets.
pub open spec fn asked_for(
    config: Config,
    entries: Seq<ManifestEntry>,
    next: Visit,
    parent: int,
    pattern: int,
    object: int,
    index: int,
) -> bool {
    &&& asks_for(config, entries, parent, pattern, object, index)
    &&& visit_before(Visit { parent, pattern, object, index }, next)
}

/// `first_pattern` finds the first pattern that matches.
pub proof fn lemma_first_pattern(patterns: Seq<Seq<char>>, name: Seq<char>, from: int)
    requires
        0 <= from <= patterns.len(),
    ensures
        from <= first_pattern(patterns, name, from) <= patterns.len(),
        first_pattern(patterns, name, from) < patterns.len() ==> wild_matches(
            patterns[first_pattern(patterns, name, from)],
            name,
        ),
        forall|i: int|
            from <= i < first_pattern(patterns, name, from) ==> !wild_matches(
                #[trigger] patterns[i],
                name,
            ),
    decreases patterns.len() - from,
{
    if from < patterns.len() && !wild_matches(patterns[from], name) {
        lemma_first_pattern(patterns, name, from + 1);
    }
}

proof fn lemma_visit_sections(
    state: Gathered,
    config: Config,
    entries: Seq<ManifestEntry>,
    parent: usize,
    pattern: int,
    object: usize,
    from: int,
)
    requires
        entries.len() <= usize::MAX,
        parent < STANDARD_SECTION_COUNT,
        0 <= pattern < bucket_patterns(config, parent as int).len(),
        object < entries.len(),
        0 <= from <= entries[object as int].object.sections@.len(),
        gathered_upto(
            state,
            config,
            entries,
            Visit { parent: parent as int, pattern, object: object as int, index: from },
        ),
        visit_sections(
            state,
            bucket_patterns(config, parent as int)[pattern],
            parent,
            object,
            entries[object as int].object,
            from,
        ) is Ok,
    ensures
        gathered_upto(
            visit_sections(
                state,
                bucket_patterns(config, parent as int)[pattern],
                parent,
                object,
                entries[object as int].object,
                from,
            )->Ok_0,
            config,
            entries,
            Visit {
                parent: parent as int,
                pattern,
                object: object as int,
                index: entries[object as int].object.sections@.len() as int,
            },
        ),
    decreases entries[object as int].object.sections@.len() - from,
{
    let input = entries[object as int].object;
    let patterns = bucket_patterns(config, parent as int);
    assert(input.sections@.len() == input.sections.len());
    if from < input.sections@.len() {
        let here = Visit { parent: parent as int, pattern, object: object as int, index: from };
        let there = Visit {
            parent: parent as int,
            pattern,
            object: object as int,
            index: from + 1,
        };
        let index = from as usize;
        let next = visit_section(state, patterns[pattern], parent, object, input, index)->Ok_0;
        let section = input.sections@[from];
        let name = section.name->0@;
        let keeps = wild_matches(patterns[pattern], name) && !kind_is_metadata(section.kind)
            && !state.items.contains((object, index));
        assert forall|p: int, q: int, o: int, s: int| #[trigger]
            asked_for(config, entries, there, p, q, o, s) implies next.items.contains(
            (o as usize, s as usize),
        ) by {
            if asked_for(config, entries, here, p, q, o, s) {
                assert(state.items.contains((o as usize, s as usize)));
                if keeps {
                    let at = choose|at: int|
                        0 <= at < state.items.len() && state.items[at] == (o as usize, s as usize);
                    assert(next.items[at] == (o as usize, s as usize));
                }
            } else {
                assert(p == parent && q == pattern && o == object && s == from);
                if keeps {
                    assert(next.items[state.items.len() as int] == (object, index));
                }
            }
        }
        if keeps {
            let added = ManifestSection { object, index, parent };
            let count = state.items.len() as int;
            assert(next.items == state.items.push((object, index)));
            assert(next.parents == state.parents.push(parent));
            assert(next.kept()[count] == added);
            lemma_first_pattern(patterns, name, 0);
            let first = first_pattern(patterns, name, 0);
            if first < pattern {
                assert(asked_for(config, entries, here, parent as int, first, object as int, from));
                assert(state.items.contains((object as usize, from as usize)));
            }
            assert(keeping_visit(config, entries, added) == here);
            assert forall|k: int| 0 <= k < next.items.len() implies rightly_kept(
                config,
                entries,
                #[trigger] next.kept()[k],
            ) && visit_before(keeping_visit(config, entries, next.kept()[k]), there) by {
                if k < count {
                    assert(next.kept()[k] == state.kept()[k]);
                }
            }
            assert forall|i: int, j: int| 0 <= i < j < next.items.len() implies visit_before(
                keeping_visit(config, entries, #[trigger] next.kept()[i]),
                keeping_visit(config, entries, #[trigger] next.kept()[j]),
            ) by {
                assert(next.kept()[i] == state.kept()[i]);
                if j < count {
                    assert(next.kept()[j] == state.kept()[j]);
                }
            }
            assert forall|i: int, j: int| 0 <= i < j < next.items.len() implies #[trigger] next.items[i]
                != #[trigger] next.items[j] by {
                assert(next.items[i] == state.items[i]);
                if j < count {
                    assert(next.items[j] == state.items[j]);
                }
            }
        } else {
            assert(next == state);
            assert forall|k: int| 0 <= k < next.items.len() implies rightly_kept(
                config,
                entries,
                #[trigger] next.kept()[k],
            ) && visit_before(keeping_visit(config, entries, next.kept()[k]), there) by {
                assert(visit_before(keeping_visit(config, entries, state.kept()[k]), here));
            }
        }
        assert(gathered_upto(next, config, entries, there));
        lemma_visit_sections(next, config, entries, parent, pattern, object, from + 1);
    }
}

proof fn lemma_visit_objects(
    state: Gathered,
    config: Config,
    entries: Seq<ManifestEntry>,
    parent: usize,
    pattern: int,
    from: int,
)
    requires
        entries.len() <= usize::MAX,
        parent < STANDARD_SECTION_COUNT,
        0 <= pattern < bucket_patterns(config, parent as int).len(),
        0 <= from <= entries.len(),
        gathered_upto(
            state,
            config,
            entries,
            Visit { parent: parent as int, pattern, object: from, index: 0 },
        ),
        visit_objects(
            state,
            bucket_patterns(config, parent as int)[pattern],
            parent,
            entries,
            from,
        ) is Ok,
    ensures
        gathered_upto(
            visit_objects(
                state,
                bucket_patterns(config, parent as int)[pattern],
                parent,
                entries,
                from,
            )->Ok_0,
            config,
            entries,
            Visit { parent: parent as int, pattern, object: entries.len() as int, index: 0 },
        ),
    decreases entries.len() - from,
{
    if from < entries.len() {
        let patterns = bucket_patterns(config, parent as int);
        let object = from as usize;
        let next = visit_object(state, patterns[pattern], parent, object, entries[from].object)->Ok_0;
        lemma_visit_sections(state, config, entries, parent, pattern, object, 0);
        let end = Visit {
            parent: parent as int,
            pattern,
            object: from,
            index: entries[from].object.sections@.len() as int,
        };
        let there = Visit { parent: parent as int, pattern, object: from + 1, index: 0 };
        assert forall|p: int, q: int, o: int, s: int| #[trigger]
            asked_for(config, entries, there, p, q, o, s) implies next.items.contains(
            (o as usize, s as usize),
        ) by {
            assert(asked_for(config, entries, end, p, q, o, s));
        }
        assert forall|k: int| 0 <= k < next.items.len() implies rightly_kept(
            config,
            entries,
            #[trigger] next.kept()[k],
        ) && visit_before(keeping_visit(config, entries, next.kept()[k]), there) by {
            assert(visit_before(keeping_visit(config, entries, next.kept()[k]), end));
        }
        assert(gathered_upto(next, config, entries, there));
        lemma_visit_objects(next, config, entries, parent, pattern, from + 1);
    }
}

proof fn lemma_visit_patterns(
    state: Gathered,
    config: Config,
    entries: Seq<ManifestEntry>,
    parent: usize,
    from: int,
)
    requires
        entries.len() <= usize::MAX,
        parent < STANDARD_SECTION_COUNT,
        0 <= from <= bucket_patterns(config, parent as int).len(),
        gathered_upto(
            state,
            config,
            entries,
            Visit { parent: parent as int, pattern: from, object: 0, index: 0 },
        ),
        visit_patterns(state, bucket_patterns(config, parent as int), parent, entries, from) is Ok,
    ensures
        gathered_upto(
            visit_patterns(
                state,
                bucket_patterns(config, parent as int),
                parent,
                entries,
                from,
            )->Ok_0,
            config,
            entries,
            Visit {
                parent: parent as int,
                pattern: bucket_patterns(config, parent as int).len() as int,
                object: 0,
                index: 0,
            },
        ),
    decreases bucket_patterns(config, parent as int).len() - from,
{
    let patterns = bucket_patterns(config, parent as int);
    if from < patterns.len() {
        let next = visit_objects(state, patterns[from], parent, entries, 0)->Ok_0;
        lemma_visit_objects(state, config, entries, parent, from, 0);
        let end = Visit {
            parent: parent as int,
            pattern: from,
            object: entries.len() as int,
            index: 0,
        };
        let there = Visit { parent: parent as int, pattern: from + 1, object: 0, index: 0 };
        assert forall|p: int, q: int, o: int, s: int| #[trigger]
            asked_for(config, entries, there, p, q, o, s) implies next.items.contains(
            (o as usize, s as usize),
        ) by {
            assert(asked_for(config, entries, end, p, q, o, s));
        }
        assert forall|k: int| 0 <= k < next.items.len() implies rightly_kept(
            config,
            entries,
            #[trigger] next.kept()[k],
        ) && visit_before(keeping_visit(config, entries, next.kept()[k]), there) by {
            assert(visit_before(keeping_visit(config, entries, next.kept()[k]), end));
        }
        assert(gathered_upto(next, config, entries, there));
        lemma_visit_patterns(next, config, entries, parent, from + 1);
    }
}

proof fn lemma_visit_buckets(
    state: Gathered,
    config: Config,
    entries: Seq<ManifestEntry>,
    from: int,
)
    requires
        entries.len() <= usize::MAX,
        0 <= from <= STANDARD_SECTION_COUNT,
        gathered_upto(
            state,
            config,
            entries,
            Visit { parent: from, pattern: 0, object: 0, index: 0 },
        ),
        visit_buckets(state, config, entries, from) is Ok,
    ensures
        gathered_upto(
            visit_buckets(state, config, entries, from)->Ok_0,
            config,
            entries,
            Visit { parent: STANDARD_SECTION_COUNT as int, pattern: 0, object: 0, index: 0 },
        ),
    decreases STANDARD_SECTION_COUNT - from,
{
    if from < STANDARD_SECTION_COUNT {
        let parent = from as usize;
        let patterns = bucket_patterns(config, from);
        let next = visit_patterns(state, patterns, parent, entries, 0)->Ok_0;
        lemma_visit_patterns(state, config, entries, parent, 0);
        let end = Visit { parent: from, pattern: patterns.len() as int, object: 0, index: 0 };
        let there = Visit { parent: from + 1, pattern: 0, object: 0, index: 0 };
        assert forall|p: int, q: int, o: int, s: int| #[trigger]
            asked_for(config, entries, there, p, q, o, s) implies next.items.contains(
            (o as usize, s as usize),
        ) by {
            assert(asked_for(config, entries, end, p, q, o, s));
        }
        assert forall|k: int| 0 <= k < next.items.len() implies rightly_kept(
            config,
            entries,
            #[trigger] next.kept()[k],
        ) && visit_before(keeping_visit(config, entries, next.kept()[k]), there) by {
            assert(visit_before(keeping_visit(config, entries, next.kept()[k]), end));
        }
        assert(gathered_upto(next, config, entries, there));
        lemma_visit_buckets(next, config, entries, from + 1);
    }
}

/// The gatherer keeps no section twice, and keeps sections in the order
/// of the visits at which it keeps them. Every kept section names a section of the manifest with a
/// readable name that is no metadata, and is kept under the first
/// pattern of its standard section that matches its name. Of two kept
/// sections the earlier has the earlier standard section or, within one
/// standard section, comes first by pattern, then by the position of its
/// object in the manifest, then by its index.
pub proof fn lemma_gather_order(config: Config, manifest: Manifest, i: int, j: int)
    requires
        gathered(config, manifest) is Ok,
        0 <= i < j < gathered(config, manifest)->Ok_0.kept().len(),
    ensures
        ({
            let kept = gathered(config, manifest)->Ok_0.kept();
            &&& section_key(kept[i]) != section_key(kept[j])
            &&& rightly_kept(config, manifest.entries@, kept[i])
            &&& rightly_kept(config, manifest.entries@, kept[j])
            &&& visit_before(
                keeping_visit(config, manifest.entries@, kept[i]),
                keeping_visit(config, manifest.entries@, kept[j]),
            )
        }),
{
    let entries = manifest.entries@;
    let start = nothing_gathered(entries.len());
    assert(entries.len() == manifest.entries.len());
    assert(start.kept().len() == 0);
    assert(gathered_upto(
        start,
        config,
        entries,
        Visit { parent: 0, pattern: 0, object: 0, index: 0 },
    ));
    lemma_visit_buckets(start, config, entries, 0);
    let done = gathered(config, manifest)->Ok_0;
    assert(rightly_kept(config, entries, done.kept()[i]));
    assert(rightly_kept(config, entries, done.kept()[j]));
    assert(done.items[i] != done.items[j]);
}

/// Every section that the gatherer keeps is rightly kept: it names a
/// section of the manifest with a readable name that is no metadata, its
/// standard section is one of the four, and a pattern of that standard
/// section matches its name.
pub proof fn lemma_gather_rightly_kept(config: Config, manifest: Manifest, position: int)
    requires
        gathered(config, manifest) is Ok,
        0 <= position < gathered(config, manifest)->Ok_0.kept().len(),
    ensures
        ({
            let kept = gathered(config, manifest)->Ok_0.kept()[position];
            let visit = keeping_visit(config, manifest.entries@, kept);
            &&& rightly_kept(config, manifest.entries@, kept)
            &&& 0 <= visit.pattern < bucket_patterns(config, kept.parent as int).len()
            &&& wild_matches(
                bucket_patterns(config, kept.parent as int)[visit.pattern],
                kept_name(manifest.entries@, kept),
            )
        }),
{
    let entries = manifest.entries@;
    let start = nothing_gathered(entries.len());
    assert(entries.len() == manifest.entries.len());
    assert(start.kept().len() == 0);
    assert(gathered_upto(
        start,
        config,
        entries,
        Visit { parent: 0, pattern: 0, object: 0, index: 0 },
    ));
    lemma_visit_buckets(start, config, entries, 0);
    let kept = gathered(config, manifest)->Ok_0.kept()[position];
    assert(rightly_kept(config, entries, kept));
    lemma_first_pattern(bucket_patterns(config, kept.parent as int), kept_name(entries, kept), 0);
}

/// The gatherer keeps every section that the link script asks for: a
/// section with a readable name that is no metadata and that a pattern
/// of a standard section matches is among the kept sections.
pub proof fn lemma_gather_complete(
    config: Config,
    manifest: Manifest,
    parent: int,
    pattern: int,
    object: int,
    index: int,
)
    requires
        gathered(config, manifest) is Ok,
        asks_for(config, manifest.entries@, parent, pattern, object, index),
    ensures
        gathered(config, manifest)->Ok_0.items.contains((object as usize, index as usize)),
        exists|k: int|
            0 <= k < gathered(config, manifest)->Ok_0.kept().len() && #[trigger] section_key(
                gathered(config, manifest)->Ok_0.kept()[k],
            ) == (object as usize, index as usize),
{
    let entries = manifest.entries@;
    let start = nothing_gathered(entries.len());
    assert(entries.len() == manifest.entries.len());
    assert(start.kept().len() == 0);
    let origin = Visit { parent: 0, pattern: 0, object: 0, index: 0 };
    assert(gathered_upto(start, config, entries, origin));
    lemma_visit_buckets(start, config, entries, 0);
    let done = gathered(config, manifest)->Ok_0;
    let end = Visit { parent: STANDARD_SECTION_COUNT as int, pattern: 0, object: 0, index: 0 };
    assert(asked_for(config, entries, end, parent, pattern, object, index));
    let key = (object as usize, index as usize);
    let k = choose|k: int| 0 <= k < done.items.len() && done.items[k] == key;
    assert(section_key(done.kept()[k]) == key);
}

/// The pattern `*` keeps every section that has a readable name and is
/// no metadata.
pub proof fn lemma_star_keeps_everything(
    config: Config,
    manifest: Manifest,
    parent: int,
    pattern: int,
    object: int,
    index: int,
)
    requires
        gathered(config, manifest) is Ok,
        0 <= parent < STANDARD_SECTION_COUNT,
        0 <= pattern < bucket_patterns(config, parent).len(),
        bucket_patterns(config, parent)[pattern] == seq![crate::wildcard::ANY_RUN],
        0 <= object < manifest.entries@.len(),
        0 <= index < manifest.entries@[object].object.sections@.len(),
        manifest.entries@[object].object.sections@[index].name is Some,
        !kind_is_metadata(manifest.entries@[object].object.sections@[index].kind),
    ensures
        gathered(config, manifest)->Ok_0.items.contains((object as usize, index as usize)),
{
    crate::wildcard::lemma_star_matches_everything(
        manifest.entries@[object].object.sections@[index].name->0@,
    );
    lemma_gather_complete(config, manifest, parent, pattern, object, index);
}

} // verus!
