//! The conditions that end a link.

use vstd::prelude::*;

verus! {

/// The classes of failure.
#[derive(Clone, Copy, Debug, PartialEq, Eq, Structural)]
pub enum ErrorClass {
    /// The command line or the link script cannot be used.
    Usage,
    /// An input has an invalid or unsupported encoding.
    Format,
    /// An input is well-formed but asks for something that is not done.
    Policy,
}

/// Why a link cannot go on. Objects are named by their position in the
/// manifest; sections, symbols and relocations by their index within
/// their object or section.
#[derive(Clone, Copy, Debug, PartialEq, Eq, Structural)]
pub enum LinkError {
    /// The command line holds no arguments.
    NoArguments,
    /// The command line asks for the usage text.
    HelpRequested,
    /// The command line asks for the version.
    VersionRequested,
    /// The argument at this position names an interface flavor other
    /// than `gnu`.
    WrongFlavor { argument: usize },
    /// The object holds COMDAT section groups.
    Comdat { object: usize, count: usize },
    /// The name of a section cannot be read.
    UnreadableSectionName { object: usize, section: usize },
    /// The contents of a section cannot be read.
    UnreadableSectionData { object: usize, section: usize },
    /// The segment name of a section cannot be read.
    UnreadableSegmentName { object: usize, section: usize },
    /// The file flags of the object, or those merged so far, are not ELF
    /// flags.
    UnsupportedFileFlags { object: usize },
    /// A kept section refers to an object or section that the manifest
    /// does not hold.
    MissingSection { object: usize, section: usize },
    /// A symbol is attributed to a section in a way that is not
    /// supported.
    UnsupportedSymbolSection { object: usize, symbol: usize },
    /// A symbol is attributed to a section that its object does not hold.
    SymbolSectionNotFound { object: usize, symbol: usize },
    /// A symbol lies below the start of the section that holds it.
    SymbolBelowSection { object: usize, symbol: usize },
    /// The flags of a symbol are not ELF flags.
    UnsupportedSymbolFlags { object: usize, symbol: usize },
    /// The name of a symbol cannot be read.
    UnreadableSymbolName { object: usize, symbol: usize },
    /// The relocation at position `relocation` of section `section`
    /// refers to section `target`, which was not kept.
    UnmappedSection { object: usize, section: usize, relocation: usize, target: usize },
    /// A relocation refers to something other than a symbol or a section.
    UnsupportedRelocation { object: usize, section: usize, relocation: usize },
}

impl LinkError {
    /// The class of the failure.
    pub open spec fn class_of(self) -> ErrorClass {
        match self {
            LinkError::NoArguments => ErrorClass::Usage,
            LinkError::HelpRequested => ErrorClass::Usage,
            LinkError::VersionRequested => ErrorClass::Usage,
            LinkError::WrongFlavor { .. } => ErrorClass::Usage,
            LinkError::UnreadableSectionName { .. } => ErrorClass::Format,
            LinkError::UnreadableSectionData { .. } => ErrorClass::Format,
            LinkError::UnreadableSegmentName { .. } => ErrorClass::Format,
            LinkError::MissingSection { .. } => ErrorClass::Format,
            LinkError::SymbolSectionNotFound { .. } => ErrorClass::Format,
            LinkError::SymbolBelowSection { .. } => ErrorClass::Format,
            LinkError::UnreadableSymbolName { .. } => ErrorClass::Format,
            LinkError::Comdat { .. } => ErrorClass::Policy,
            LinkError::UnsupportedFileFlags { .. } => ErrorClass::Policy,
            LinkError::UnsupportedSymbolSection { .. } => ErrorClass::Policy,
            LinkError::UnsupportedSymbolFlags { .. } => ErrorClass::Policy,
            LinkError::UnmappedSection { .. } => ErrorClass::Policy,
            LinkError::UnsupportedRelocation { .. } => ErrorClass::Policy,
        }
    }

    /// The class of the failure.
    pub fn class(&self) -> (class: ErrorClass)
        ensures
            class == self.class_of(),
    {
        match self {
            LinkError::NoArguments => ErrorClass::Usage,
            LinkError::HelpRequested => ErrorClass::Usage,
            LinkError::VersionRequested => ErrorClass::Usage,
            LinkError::WrongFlavor { .. } => ErrorClass::Usage,
            LinkError::UnreadableSectionName { .. } => ErrorClass::Format,
            LinkError::UnreadableSectionData { .. } => ErrorClass::Format,
            LinkError::UnreadableSegmentName { .. } => ErrorClass::Format,
            LinkError::MissingSection { .. } => ErrorClass::Format,
            LinkError::SymbolSectionNotFound { .. } => ErrorClass::Format,
            LinkError::SymbolBelowSection { .. } => ErrorClass::Format,
            LinkError::UnreadableSymbolName { .. } => ErrorClass::Format,
            LinkError::Comdat { .. } => ErrorClass::Policy,
            LinkError::UnsupportedFileFlags { .. } => ErrorClass::Policy,
            LinkError::UnsupportedSymbolSection { .. } => ErrorClass::Policy,
            LinkError::UnsupportedSymbolFlags { .. } => ErrorClass::Policy,
            LinkError::UnmappedSection { .. } => ErrorClass::Policy,
            LinkError::UnsupportedRelocation { .. } => ErrorClass::Policy,
        }
    }

    /// The position in the manifest of the object at fault, where the
    /// failure lies in an object.
    pub open spec fn object_of(self) -> Option<usize> {
        match self {
            LinkError::NoArguments => None,
            LinkError::HelpRequested => None,
            LinkError::VersionRequested => None,
            LinkError::WrongFlavor { .. } => None,
            LinkError::UnreadableSectionName { object, .. } => Some(object),
            LinkError::UnreadableSectionData { object, .. } => Some(object),
            LinkError::UnreadableSegmentName { object, .. } => Some(object),
            LinkError::MissingSection { object, .. } => Some(object),
            LinkError::SymbolSectionNotFound { object, .. } => Some(object),
            LinkError::SymbolBelowSection { object, .. } => Some(object),
            LinkError::UnreadableSymbolName { object, .. } => Some(object),
            LinkError::Comdat { object, .. } => Some(object),
            LinkError::UnsupportedFileFlags { object } => Some(object),
            LinkError::UnsupportedSymbolSection { object, .. } => Some(object),
            LinkError::UnsupportedSymbolFlags { object, .. } => Some(object),
            LinkError::UnmappedSection { object, .. } => Some(object),
            LinkError::UnsupportedRelocation { object, .. } => Some(object),
        }
    }

    /// The position in the manifest of the object at fault, where the
    /// failure lies in an object.
    pub fn object(&self) -> (object: Option<usize>)
        ensures
            object == self.object_of(),
    {
        match self {
            LinkError::NoArguments => None,
            LinkError::HelpRequested => None,
            LinkError::VersionRequested => None,
            LinkError::WrongFlavor { .. } => None,
            LinkError::UnreadableSectionName { object, .. } => Some(*object),
            LinkError::UnreadableSectionData { object, .. } => Some(*object),
            LinkError::UnreadableSegmentName { object, .. } => Some(*object),
            LinkError::MissingSection { object, .. } => Some(*object),
            LinkError::SymbolSectionNotFound { object, .. } => Some(*object),
            LinkError::SymbolBelowSection { object, .. } => Some(*object),
            LinkError::UnreadableSymbolName { object, .. } => Some(*object),
            LinkError::Comdat { object, .. } => Some(*object),
            LinkError::UnsupportedFileFlags { object } => Some(*object),
            LinkError::UnsupportedSymbolSection { object, .. } => Some(*object),
            LinkError::UnsupportedSymbolFlags { object, .. } => Some(*object),
            LinkError::UnmappedSection { object, .. } => Some(*object),
            LinkError::UnsupportedRelocation { object, .. } => Some(*object),
        }
    }
}

} // verus!
