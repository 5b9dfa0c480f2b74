//! The link proper: from a link script and a manifest to the output
//! image.

use vstd::prelude::*;
use crate::config::Config;
use crate::copy::{
    attributions_below, copy_relocations, copy_sections, copy_symbols, lemma_copy_relocations,
    lemma_copy_sections, lemma_copy_symbols, relocations, relocations_below, section_key,
    sections, sections_consistent, symbols, symbols_consistent, SectionsCopied, SymbolsCopied,
};
use crate::context::Context;
use crate::emit::{emit, emit_outcome, EmitError};
use crate::error::LinkError;
use crate::gather::{gathered, Collection};
use crate::image::{Image, ImageView, OutputMap};
use crate::manifest::Manifest;

verus! {

impl ImageView {
    /// Every relocation patches a section of the image and refers to a
    /// symbol of the image, and every symbol that is attributed to a
    /// section is attributed to a section of the image.
    pub open spec fn wf(self) -> bool {
        &&& relocations_below(self.relocations, self.sections.len(), self.symbols.len())
        &&& attributions_below(self.symbols, self.sections.len())
    }
}

/// What a link produces: the image and the maps from the sections and
/// symbols of the inputs to those of the image.
pub struct LinkedView {
    pub image: ImageView,
    pub section_map: Map<(usize, usize), usize>,
    pub symbol_map: Map<(usize, usize), usize>,
}

/// The outcome of linking the manifest under the link script: the kept
/// sections are copied in kept order, then the symbols, then the
/// relocations, and the file flags are those that the gatherer merged.
pub open spec fn linked(config: Config, manifest: Manifest) -> Result<LinkedView, LinkError> {
    match gathered(config, manifest) {
        Err(e) => Err(e),
        Ok(outcome) => match copy_sections(
            SectionsCopied { sections: Seq::empty(), map: Map::empty() },
            outcome.kept(),
            manifest.entries@,
            0,
        ) {
            Err(e) => Err(e),
            Ok(copied) => match copy_symbols(
                SymbolsCopied { symbols: Seq::empty(), map: Map::empty() },
                copied.map,
                manifest.entries@,
                0,
            ) {
                Err(e) => Err(e),
                Ok(named) => match copy_relocations(
                    Seq::empty(),
                    copied.map,
                    named.map,
                    manifest.entries@,
                    0,
                ) {
                    Err(e) => Err(e),
                    Ok(relocated) => Ok(
                        LinkedView {
                            image: ImageView {
                                sections: copied.sections,
                                symbols: named.symbols,
                                relocations: relocated,
                                flags: outcome.flags,
                            },
                            section_map: copied.map,
                            symbol_map: named.map,
                        },
                    ),
                },
            },
        },
    }
}

/// An image with the maps that led to it.
#[derive(Debug)]
pub struct Linked {
    pub image: Image,
    pub collection: Collection,
    pub output_sections: OutputMap,
    pub output_symbols: OutputMap,
}

impl View for Linked {
    type V = LinkedView;

    open spec fn view(&self) -> LinkedView {
        LinkedView {
            image: self.image@,
            section_map: self.output_sections@,
            symbol_map: self.output_symbols@,
        }
    }
}

/// Links the manifest under the link script.
///
/// On success the image is well-formed, every kept section has an
/// output section of the image, and both maps are injective.
pub fn link(config: &Config, manifest: &Manifest) -> (result: Result<Linked, LinkError>)
    ensures
        match linked(*config, *manifest) {
            Ok(outcome) => result matches Ok(done) && done@ == outcome && done.image@.wf()
                && done.collection.wf() && Ok::<crate::gather::Gathered, LinkError>(
                done.collection.state(),
            ) == gathered(*config, *manifest) && sections_consistent(
                SectionsCopied { sections: outcome.image.sections, map: outcome.section_map },
                manifest.entries@,
            ) && symbols_consistent(
                SymbolsCopied { symbols: outcome.image.symbols, map: outcome.symbol_map },
                outcome.section_map,
                manifest.entries@,
            ) && outcome.image.sections.len() == done.collection.kept().len() && forall|i: int|
                0 <= i < done.collection.kept().len() ==> outcome.section_map.dom().contains(
                    #[trigger] section_key(done.collection.kept()[i]),
                ),
            Err(e) => result matches Err(error) && error == e,
        },
{
    let mut collection = match Collection::new(config, manifest) {
        Err(e) => {
            return Err(e);
        },
        Ok(collection) => collection,
    };
    collection.merge();
    let mut image = Image::new();
    assert(image@.sections =~= Seq::empty());
    assert(image@.symbols =~= Seq::empty());
    assert(image@.relocations =~= Seq::empty());
    let output_sections = match sections(&mut image, &collection, manifest) {
        Err(e) => {
            return Err(e);
        },
        Ok(map) => map,
    };
    let ghost copied = SectionsCopied { sections: image@.sections, map: output_sections@ };
    proof {
        let start = SectionsCopied { sections: Seq::empty(), map: Map::empty() };
        assert(image@.sections.len() == image.sections.len());
        crate::copy::lemma_copy_sections_len(start, collection.kept(), manifest.entries@, 0);
        lemma_copy_sections(start, collection.kept(), manifest.entries@, 0);
    }
    let output_symbols = match symbols(&mut image, manifest, &output_sections) {
        Err(e) => {
            return Err(e);
        },
        Ok(map) => map,
    };
    proof {
        let start = SymbolsCopied { symbols: Seq::empty(), map: Map::empty() };
        assert(image@.symbols.len() == image.symbols.len());
        assert(manifest.entries@.len() == manifest.entries.len());
        lemma_copy_symbols(
            start,
            output_sections@,
            manifest.entries@,
            0,
            image@.sections.len(),
            image@.symbols.len(),
        );
    }
    match relocations(&mut image, manifest, &output_sections, &output_symbols) {
        Err(e) => {
            return Err(e);
        },
        Ok(()) => {},
    }
    proof {
        lemma_copy_relocations(
            Seq::empty(),
            output_sections@,
            output_symbols@,
            manifest.entries@,
            0,
            image@.sections.len(),
            image@.symbols.len(),
        );
    }
    Ok(Linked { image, collection, output_sections, output_symbols })
}

/// Of a link that succeeds and whose image has room in memory:
///
/// - every kept section has an output section of the image, the one at
///   its own position in kept order, which is its copy;
/// - the map of sections and the map of symbols are injective;
/// - every symbol that the map of symbols holds has its copy in the
///   image, and a copy that is attributed to a section is attributed to
///   a section of the image;
/// - every relocation patches a section of the image and refers to a
///   symbol of the image or to the section symbol of a section of the
///   image.
pub proof fn lemma_linked(config: Config, manifest: Manifest)
    requires
        linked(config, manifest) matches Ok(outcome) && outcome.image.sections.len() <= usize::MAX
            && outcome.image.symbols.len() <= usize::MAX,
    ensures
        ({
            let outcome = linked(config, manifest)->Ok_0;
            let kept = gathered(config, manifest)->Ok_0.kept();
            &&& outcome.image.sections.len() == kept.len()
            &&& forall|i: int|
                0 <= i < kept.len() ==> outcome.section_map.dom().contains(
                    #[trigger] section_key(kept[i]),
                ) && outcome.section_map[section_key(kept[i])] == i
            &&& sections_consistent(
                SectionsCopied { sections: outcome.image.sections, map: outcome.section_map },
                manifest.entries@,
            )
            &&& symbols_consistent(
                SymbolsCopied { symbols: outcome.image.symbols, map: outcome.symbol_map },
                outcome.section_map,
                manifest.entries@,
            )
            &&& outcome.image.wf()
        }),
{
    let entries = manifest.entries@;
    let kept = gathered(config, manifest)->Ok_0.kept();
    assert(entries.len() == manifest.entries.len());
    let no_sections = SectionsCopied { sections: Seq::empty(), map: Map::empty() };
    crate::copy::lemma_copy_sections_len(no_sections, kept, entries, 0);
    lemma_copy_sections(no_sections, kept, entries, 0);
    assert forall|i: int, j: int| 0 <= i < j < kept.len() implies section_key(#[trigger] kept[i])
        != section_key(#[trigger] kept[j]) by {
        crate::order::lemma_gather_order(config, manifest, i, j);
    }
    assert forall|i: int| 0 <= i < kept.len() implies copy_sections(
        no_sections,
        kept,
        entries,
        0,
    )->Ok_0.map[#[trigger] section_key(kept[i])] == i by {
        crate::copy::lemma_copy_sections_positions(no_sections, kept, entries, 0, i);
    }
    let copied = copy_sections(no_sections, kept, entries, 0)->Ok_0;
    let no_symbols = SymbolsCopied { symbols: Seq::empty(), map: Map::empty() };
    let named = copy_symbols(no_symbols, copied.map, entries, 0)->Ok_0;
    lemma_copy_symbols(
        no_symbols,
        copied.map,
        entries,
        0,
        copied.sections.len(),
        named.symbols.len(),
    );
    lemma_copy_relocations(
        Seq::empty(),
        copied.map,
        named.map,
        entries,
        0,
        copied.sections.len(),
        named.symbols.len(),
    );
}

/// Linking is a function of the link script and the manifest: two links
/// of the same script and manifest yield equal images and equal maps.
pub proof fn lemma_link_twice(config: Config, manifest: Manifest, first: Linked, second: Linked)
    requires
        linked(config, manifest) == Ok::<LinkedView, LinkError>(first@),
        linked(config, manifest) == Ok::<LinkedView, LinkError>(second@),
    ensures
        first.image@ == second.image@,
        first.output_sections@ == second.output_sections@,
        first.output_symbols@ == second.output_symbols@,
{
}

/// Why no output is produced.
#[derive(Clone, Copy, Debug, PartialEq, Eq, Structural)]
pub enum WriteError {
    /// The context holds no link script.
    NoLinkScript,
    /// The link ends early.
    Link(LinkError),
    /// The image cannot be serialized.
    Emit(EmitError),
}

/// What producing the output yields: a link script is mandatory, a link
/// that ends early ends the output, and the image of a link that
/// succeeds is emitted.
pub open spec fn write_outcome(config: Option<Config>, manifest: Manifest) -> Result<
    Seq<u8>,
    WriteError,
> {
    match config {
        None => Err(WriteError::NoLinkScript),
        Some(script) => match linked(script, manifest) {
            Err(e) => Err(WriteError::Link(e)),
            Ok(outcome) => match emit_outcome(outcome.image) {
                Err(e) => Err(WriteError::Emit(e)),
                Ok(bytes) => Ok(bytes),
            },
        },
    }
}

/// Whether a result is what producing the output yields.
pub open spec fn is_written(
    config: Option<Config>,
    manifest: Manifest,
    result: Result<Vec<u8>, WriteError>,
) -> bool {
    match write_outcome(config, manifest) {
        Ok(bytes) => result matches Ok(file) && file@ == bytes,
        Err(e) => result == Err::<Vec<u8>, WriteError>(e),
    }
}

/// Produces the bytes of the ELF file that the context asks for from the
/// manifest of its inputs.
///
/// A link script is mandatory. The manifest is linked under it, and the
/// image is serialized: the bytes are the file that the writer makes of
/// what the image hands to it, unless the writer refuses it.
pub fn write(cxt: &Context, manifest: &Manifest) -> (result: Result<Vec<u8>, WriteError>)
    ensures
        is_written(cxt.config, *manifest, result),
{
    let config = match cxt.get_config() {
        None => {
            return Err(WriteError::NoLinkScript);
        },
        Some(config) => config,
    };
    let linked = match link(config, manifest) {
        Err(e) => {
            return Err(WriteError::Link(e));
        },
        Ok(linked) => linked,
    };
    match emit(&linked.image) {
        Err(e) => Err(WriteError::Emit(e)),
        Ok(bytes) => Ok(bytes),
    }
}

/// The output is a function of the link script and the manifest: two
/// runs under the same script over the same manifest write the same
/// bytes, or end for the same reason.
pub proof fn lemma_write_twice(
    config: Option<Config>,
    manifest: Manifest,
    first: Result<Vec<u8>, WriteError>,
    second: Result<Vec<u8>, WriteError>,
)
    requires
        is_written(config, manifest, first),
        is_written(config, manifest, second),
    ensures
        first matches Ok(bytes) ==> second matches Ok(again) && again@ == bytes@,
        first matches Err(e) ==> second == Err::<Vec<u8>, WriteError>(e),
{
}

} // verus!
