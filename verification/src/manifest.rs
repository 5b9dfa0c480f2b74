//! The manifest: every object to link, under an identifier of its own.

use vstd::prelude::*;
use vstd::string::*;
use vstd::slice::*;
use crate::input::InputObject;
use crate::reader::{
    load_object, load_outcome, member_count_of, member_name_of, member_range_of, object_loaded,
    read_member_count, read_member_name, read_member_range, LoadError,
};
use crate::search::{join, joined};

verus! {

/// One object of the manifest. The identifier is a pseudo-path: a path
/// whose components may descend into archives, as in `libfoo.rlib/bar.o`.
#[derive(Debug)]
pub struct ManifestEntry {
    pub identifier: String,
    pub object: InputObject,
}

/// The objects to link, in the order in which they are visited.
#[derive(Debug)]
pub struct Manifest {
    pub entries: Vec<ManifestEntry>,
}

/// The position of the first of `entries` at or after `from` whose
/// identifier is `identifier`, or the length of `entries` if there is
/// none.
pub open spec fn entry_position(entries: Seq<ManifestEntry>, identifier: Seq<char>, from: int) -> int
    decreases entries.len() - from,
{
    if from < 0 || from >= entries.len() {
        entries.len() as int
    } else if entries[from].identifier@ == identifier {
        from
    } else {
        entry_position(entries, identifier, from + 1)
    }
}

/// Whether no two of `entries` share an identifier.
pub open spec fn distinct_identifiers(entries: Seq<ManifestEntry>) -> bool {
    forall|i: int, j: int|
        0 <= i < j < entries.len() ==> entries[i].identifier@ != entries[j].identifier@
}

impl Manifest {
    /// Every object has exactly one identifier in the manifest.
    pub open spec fn wf(&self) -> bool {
        distinct_identifiers(self.entries@)
    }

    /// The position of the object called `identifier`, or the number of
    /// objects if there is none.
    pub open spec fn position(&self, identifier: Seq<char>) -> int {
        entry_position(self.entries@, identifier, 0)
    }

    /// A manifest without objects.
    pub fn new() -> (manifest: Manifest)
        ensures
            manifest.entries@.len() == 0,
            manifest.wf(),
    {
        Manifest { entries: Vec::new() }
    }

    /// The number of objects.
    pub fn len(&self) -> (len: usize)
        ensures
            len == self.entries@.len(),
    {
        self.entries.len()
    }

    /// The objects in the order in which every pass visits them.
    pub fn raw_objects(&self) -> (entries: &Vec<ManifestEntry>)
        ensures
            entries == self.entries,
    {
        &self.entries
    }

    /// The position of the object called `identifier`.
    pub fn find(&self, identifier: &str) -> (position: usize)
        ensures
            position == self.position(identifier@),
            position <= self.entries@.len(),
            position < self.entries@.len() ==> self.entries@[position as int].identifier@
                == identifier@,
            forall|i: int| 0 <= i < position ==> self.entries@[i].identifier@ != identifier@,
    {
        let mut i: usize = 0;
        while i < self.entries.len()
            invariant
                i <= self.entries@.len(),
                entry_position(self.entries@, identifier@, 0) == entry_position(
                    self.entries@,
                    identifier@,
                    i as int,
                ),
                forall|j: int| 0 <= j < i ==> self.entries@[j].identifier@ != identifier@,
            decreases self.entries@.len() - i,
        {
            if crate::config::same_text(self.entries[i].identifier.as_str(), identifier) {
                return i;
            }
            i += 1;
        }
        i
    }

    /// The object called `identifier`, if the manifest holds one.
    pub fn get(&self, identifier: &str) -> (object: Option<&InputObject>)
        ensures
            object.is_some() == (self.position(identifier@) < self.entries@.len()),
            object matches Some(found) ==> *found == self.entries@[self.position(
                identifier@,
            )].object,
    {
        let position = self.find(identifier);
        if position < self.entries.len() {
            Some(&self.entries[position].object)
        } else {
            None
        }
    }

    /// Puts `object` under `identifier`: in the place of the object that
    /// had this identifier before, or else behind all others.
    pub fn add_object(&mut self, identifier: String, object: InputObject)
        requires
            old(self).wf(),
        ensures
            final(self).wf(),
            final(self).entries@ == (if old(self).position(identifier@) < old(self).entries@.len() {
                old(self).entries@.update(
                    old(self).position(identifier@),
                    ManifestEntry { identifier, object },
                )
            } else {
                old(self).entries@.push(ManifestEntry { identifier, object })
            }),
    {
        let position = self.find(identifier.as_str());
        if position < self.entries.len() {
            self.entries.set(position, ManifestEntry { identifier, object });
        } else {
            self.entries.push(ManifestEntry { identifier, object });
        }
    }
}

/// What the extension of a pseudo-path says of a file.
#[derive(Clone, Copy, Debug, PartialEq, Eq, Structural)]
pub enum FileKind {
    /// A relocatable object, `.o`.
    Object,
    /// An archive of files, `.rlib`.
    Archive,
    /// Compiler metadata, `.rmeta`.
    Metadata,
    /// Anything else.
    Unrecognized,
}

/// Whether the last component of `path` has a name before a final dot
/// and `extension` behind it.
pub open spec fn has_extension(path: Seq<char>, extension: Seq<char>) -> bool {
    &&& path.len() >= extension.len() + 2
    &&& path.subrange(path.len() - extension.len(), path.len() as int) == extension
    &&& path[path.len() - extension.len() - 1] == '.'
    &&& path[path.len() - extension.len() - 2] != crate::search::SEPARATOR
}

/// The kind of file that a pseudo-path names.
pub open spec fn kind_of_path(path: Seq<char>) -> FileKind {
    if has_extension(path, "o"@) {
        FileKind::Object
    } else if has_extension(path, "rlib"@) {
        FileKind::Archive
    } else if has_extension(path, "rmeta"@) {
        FileKind::Metadata
    } else {
        FileKind::Unrecognized
    }
}

/// Tests the extension of a pseudo-path.
pub fn path_has_extension(path: &str, extension: &str) -> (has: bool)
    ensures
        has == has_extension(path@, extension@),
{
    let path_len = path.unicode_len();
    let extension_len = extension.unicode_len();
    if extension_len > path_len || path_len - extension_len < 2 {
        return false;
    }
    let start = path_len - extension_len;
    if path.get_char(start - 1) != '.' || path.get_char(start - 2) == crate::search::SEPARATOR {
        return false;
    }
    let mut i: usize = 0;
    while i < extension_len
        invariant
            i <= extension_len,
            extension_len == extension@.len(),
            path_len == path@.len(),
            start == path_len - extension_len,
            forall|j: int| 0 <= j < i ==> path@[start + j] == extension@[j],
        decreases extension_len - i,
    {
        if path.get_char(start + i) != extension.get_char(i) {
            assert(path@.subrange(start as int, path_len as int)[i as int] != extension@[i as int]);
            return false;
        }
        i += 1;
    }
    assert(path@.subrange(start as int, path_len as int) =~= extension@);
    true
}

/// Tells from its extension what a pseudo-path names.
pub fn classify(path: &str) -> (kind: FileKind)
    ensures
        kind == kind_of_path(path@),
{
    if path_has_extension(path, "o") {
        FileKind::Object
    } else if path_has_extension(path, "rlib") {
        FileKind::Archive
    } else if path_has_extension(path, "rmeta") {
        FileKind::Metadata
    } else {
        FileKind::Unrecognized
    }
}

/// Why a file cannot be added to the manifest.
#[derive(Debug)]
pub enum ManifestError {
    /// The extension of the file is none that is linked.
    UnrecognizedFile { identifier: String },
    /// The archive cannot be parsed.
    BadArchive { identifier: String },
    /// A member of the archive cannot be read, has a name that is not
    /// UTF-8, or does not lie within the archive.
    BadMember { identifier: String, member: usize },
    /// The object cannot be loaded.
    BadObject { identifier: String, reason: LoadError },
}

/// A failure to add a file as a mathematical value.
pub enum ManifestFault {
    UnrecognizedFile { identifier: Seq<char> },
    BadArchive { identifier: Seq<char> },
    BadMember { identifier: Seq<char>, member: usize },
    BadObject { identifier: Seq<char>, reason: LoadError },
}

impl View for ManifestError {
    type V = ManifestFault;

    open spec fn view(&self) -> ManifestFault {
        match self {
            ManifestError::UnrecognizedFile { identifier } => ManifestFault::UnrecognizedFile {
                identifier: identifier@,
            },
            ManifestError::BadArchive { identifier } => ManifestFault::BadArchive {
                identifier: identifier@,
            },
            ManifestError::BadMember { identifier, member } => ManifestFault::BadMember {
                identifier: identifier@,
                member: *member,
            },
            ManifestError::BadObject { identifier, reason } => ManifestFault::BadObject {
                identifier: identifier@,
                reason: *reason,
            },
        }
    }
}

/// An object found in a file: its identifier and the bytes that hold it.
pub struct Found {
    pub identifier: Seq<char>,
    pub data: Seq<u8>,
}

/// The number of members of an archive; zero where it cannot be parsed.
pub open spec fn member_count(data: Seq<u8>) -> int {
    match member_count_of(data) {
        Some(count) => count as int,
        None => 0,
    }
}

/// The objects that a file holds, in the order in which they are added.
///
/// An object file holds itself, if it is one that is linked. An archive holds
/// what its members hold, each member being a range of the bytes of the
/// archive that goes by the pseudo-path of the archive with the name of
/// the member behind it. Compiler metadata holds nothing. Any other file
/// is refused.
pub open spec fn expanded_file(identifier: Seq<char>, data: Seq<u8>) -> Result<
    Seq<Found>,
    ManifestFault,
>
    decreases data.len(), 1int, 0int,
{
    match kind_of_path(identifier) {
        FileKind::Object => match load_outcome(data) {
            Ok(()) => Ok(seq![Found { identifier, data }]),
            Err(reason) => Err(ManifestFault::BadObject { identifier, reason }),
        },
        FileKind::Archive => match member_count_of(data) {
            None => Err(ManifestFault::BadArchive { identifier }),
            Some(_) => expanded_members(identifier, data, 0),
        },
        FileKind::Metadata => Ok(Seq::empty()),
        FileKind::Unrecognized => Err(ManifestFault::UnrecognizedFile { identifier }),
    }
}

/// The objects that the members of an archive from position `from` on
/// hold.
pub open spec fn expanded_members(identifier: Seq<char>, data: Seq<u8>, from: int) -> Result<
    Seq<Found>,
    ManifestFault,
>
    decreases data.len(), 0int, member_count(data) - from,
{
    if from < 0 || from >= member_count(data) {
        Ok(Seq::empty())
    } else {
        match (member_range_of(data, from), member_name_of(data, from)) {
            (Some((offset, length)), Some(name)) => {
                if offset + length > data.len() || length >= data.len() {
                    Err(ManifestFault::BadMember { identifier, member: from as usize })
                } else {
                    match expanded_file(
                        joined(identifier, name),
                        data.subrange(offset as int, offset + length),
                    ) {
                        Err(e) => Err(e),
                        Ok(first) => match expanded_members(identifier, data, from + 1) {
                            Err(e) => Err(e),
                            Ok(rest) => Ok(first + rest),
                        },
                    }
                }
            },
            _ => Err(ManifestFault::BadMember { identifier, member: from as usize }),
        }
    }
}

/// Whether `entries` are the objects `found`, loaded, each under its
/// identifier.
pub open spec fn entries_loaded(found: Seq<Found>, entries: Seq<ManifestEntry>) -> bool {
    &&& entries.len() == found.len()
    &&& forall|i: int|
        0 <= i < found.len() ==> (#[trigger] entries[i]).identifier@ == found[i].identifier
            && object_loaded(found[i].data, entries[i].object)
}

/// The manifest entries after `added` are put into `entries` one by one:
/// each in the place of the entry that had its identifier before, or
/// else behind all others.
pub open spec fn entries_added(entries: Seq<ManifestEntry>, added: Seq<ManifestEntry>) -> Seq<
    ManifestEntry,
>
    decreases added.len(),
{
    if added.len() == 0 {
        entries
    } else {
        let before = entries_added(entries, added.drop_last());
        let position = entry_position(before, added.last().identifier@, 0);
        if position < before.len() {
            before.update(position, added.last())
        } else {
            before.push(added.last())
        }
    }
}

/// Finds and loads the objects that a file holds, and puts them behind
/// `found`.
pub fn expand(found: &mut Vec<ManifestEntry>, identifier: String, data: &[u8]) -> (result: Result<
    (),
    ManifestError,
>)
    ensures
        match expanded_file(identifier@, data@) {
            Ok(list) => result is Ok && final(found)@.len() == old(found)@.len() + list.len()
                && final(found)@.subrange(0, old(found)@.len() as int) == old(found)@
                && entries_loaded(
                list,
                final(found)@.subrange(old(found)@.len() as int, final(found)@.len() as int),
            ),
            Err(fault) => result matches Err(error) && error@ == fault,
        },
    decreases data@.len(),
{
    let ghost start = found@;
    match classify(identifier.as_str()) {
        FileKind::Object => match load_object(data) {
            Err(reason) => Err(ManifestError::BadObject { identifier, reason }),
            Ok(object) => {
                found.push(ManifestEntry { identifier, object });
                assert(found@.subrange(0, start.len() as int) =~= start);
                Ok(())
            },
        },
        FileKind::Metadata => {
            assert(found@.subrange(0, start.len() as int) =~= start);
            Ok(())
        },
        FileKind::Unrecognized => Err(ManifestError::UnrecognizedFile { identifier }),
        FileKind::Archive => {
            let count = match read_member_count(data) {
                None => {
                    return Err(ManifestError::BadArchive { identifier });
                },
                Some(count) => count,
            };
            let ghost mut sofar: Seq<Found> = Seq::empty();
            let mut position: usize = 0;
            assert(found@.subrange(0, start.len() as int) =~= start);
            while position < count
                invariant
                    position <= count,
                    start == old(found)@,
                    kind_of_path(identifier@) == FileKind::Archive,
                    member_count_of(data@) == Some(count),
                    found@.len() == start.len() + sofar.len(),
                    found@.subrange(0, start.len() as int) == start,
                    entries_loaded(sofar, found@.subrange(start.len() as int, found@.len() as int)),
                    match expanded_members(identifier@, data@, position as int) {
                        Ok(rest) => expanded_members(identifier@, data@, 0) == Ok::<
                            Seq<Found>,
                            ManifestFault,
                        >(sofar + rest),
                        Err(e) => expanded_members(identifier@, data@, 0) == Err::<
                            Seq<Found>,
                            ManifestFault,
                        >(e),
                    },
                decreases count - position,
            {
                let range = read_member_range(data, position);
                let name = read_member_name(data, position);
                let (offset, length, name) = match (range, name) {
                    (Some((offset, length)), Some(name)) => (offset, length, name),
                    _ => {
                        return Err(ManifestError::BadMember { identifier, member: position });
                    },
                };
                let total = data.len() as u64;
                if length >= total || offset > total - length {
                    return Err(ManifestError::BadMember { identifier, member: position });
                }
                let from = offset as usize;
                let to = (offset + length) as usize;
                let member_data = slice_subrange(data, from, to);
                let member_path = join(identifier.as_str(), name.as_str());
                let ghost before = found@;
                let ghost member_list = expanded_file(member_path@, member_data@);
                match expand(found, member_path, member_data) {
                    Err(e) => {
                        return Err(e);
                    },
                    Ok(()) => {},
                }
                proof {
                    let first = member_list->Ok_0;
                    let next = sofar + first;
                    assert(found@.subrange(0, start.len() as int) =~= before.subrange(
                        0,
                        before.len() as int,
                    ).subrange(0, start.len() as int));
                    assert(before.subrange(0, before.len() as int) =~= before);
                    let loaded = found@.subrange(start.len() as int, found@.len() as int);
                    let earlier = before.subrange(start.len() as int, before.len() as int);
                    let later = found@.subrange(before.len() as int, found@.len() as int);
                    assert forall|i: int| 0 <= i < next.len() implies (#[trigger] loaded[i]).identifier@
                        == next[i].identifier && object_loaded(next[i].data, loaded[i].object) by {
                        if i < sofar.len() {
                            assert(found@.subrange(0, before.len() as int)[start.len() + i]
                                == before[start.len() + i]);
                            assert(loaded[i] == earlier[i]);
                        } else {
                            assert(loaded[i] == later[i - sofar.len()]);
                        }
                    }
                    match expanded_members(identifier@, data@, position + 1) {
                        Ok(rest) => {
                            assert(sofar + (first + rest) =~= next + rest);
                        },
                        Err(_) => {},
                    }
                    sofar = next;
                }
                position += 1;
            }
            proof {
                assert(sofar + Seq::<Found>::empty() =~= sofar);
            }
            Ok(())
        },
    }
}

impl Manifest {
    /// Puts entries into the manifest one by one, each as `add_object`
    /// does.
    pub fn add_entries(&mut self, added: Vec<ManifestEntry>)
        requires
            old(self).wf(),
        ensures
            final(self).wf(),
            final(self).entries@ == entries_added(old(self).entries@, added@),
    {
        let mut added = added;
        let ghost all = added@;
        let mut reversed: Vec<ManifestEntry> = Vec::new();
        while added.len() > 0
            invariant
                added@.len() + reversed@.len() == all.len(),
                forall|i: int| 0 <= i < added@.len() ==> added@[i] == all[i],
                forall|i: int|
                    0 <= i < reversed@.len() ==> reversed@[i] == all[all.len() - 1 - i],
            decreases added@.len(),
        {
            match added.pop() {
                Some(entry) => {
                    reversed.push(entry);
                },
                None => {},
            }
        }
        let ghost mut done: int = 0;
        while reversed.len() > 0
            invariant
                0 <= done <= all.len(),
                reversed@.len() == all.len() - done,
                forall|i: int|
                    0 <= i < reversed@.len() ==> reversed@[i] == all[all.len() - 1 - i],
                self.wf(),
                self.entries@ == entries_added(old(self).entries@, all.subrange(0, done)),
            decreases reversed@.len(),
        {
            match reversed.pop() {
                Some(entry) => {
                    proof {
                        assert(entry == all[done]);
                        assert(all.subrange(0, done + 1).drop_last() =~= all.subrange(0, done));
                        assert(all.subrange(0, done + 1).last() == entry);
                    }
                    self.add_object(entry.identifier, entry.object);
                    proof {
                        done = done + 1;
                    }
                },
                None => {},
            }
        }
        proof {
            assert(all.subrange(0, all.len() as int) =~= all);
        }
    }

    /// Adds a file to the manifest: `path` is its path and `data` are
    /// its bytes.
    ///
    /// The objects that the file holds are loaded and put into the
    /// manifest in the order in which they are found. Where the file
    /// cannot be added, the manifest stays as it is.
    pub fn add(&mut self, path: &String, data: &[u8]) -> (result: Result<(), ManifestError>)
        requires
            old(self).wf(),
        ensures
            final(self).wf(),
            match expanded_file(path@, data@) {
                Ok(list) => result is Ok && exists|loaded: Seq<ManifestEntry>|
                    entries_loaded(list, loaded) && final(self).entries@ == entries_added(
                        old(self).entries@,
                        loaded,
                    ),
                Err(fault) => result matches Err(error) && error@ == fault && final(self).entries@
                    == old(self).entries@,
            },
    {
        let mut found: Vec<ManifestEntry> = Vec::new();
        match expand(&mut found, path.clone(), data) {
            Err(e) => Err(e),
            Ok(()) => {
                proof {
                    assert(found@.subrange(0, found@.len() as int) =~= found@);
                }
                self.add_entries(found);
                Ok(())
            },
        }
    }
}

} // verus!
