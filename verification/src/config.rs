//! The link script: where the output is placed and which input sections
//! flow into which standard section.

use vstd::prelude::*;
use vstd::string::*;

verus! {

/// The views of a sequence of strings.
pub open spec fn text_views(strings: Seq<String>) -> Seq<Seq<char>> {
    Seq::new(strings.len(), |i: int| strings[i]@)
}

/// The view of an optional string.
pub open spec fn optional_text(text: Option<String>) -> Option<Seq<char>> {
    match text {
        Some(t) => Some(t@),
        None => None,
    }
}

/// Where the image is to be loaded.
#[derive(Clone, Copy, Debug, PartialEq, Eq, Structural)]
pub enum ExecutablePlacement {
    /// At fixed physical and virtual base addresses, in this order.
    Static(u64, u64),
    /// Anywhere.
    Relocatable,
}

/// The `[output]` table of a link script.
#[derive(Debug)]
pub struct Output {
    pub entry: String,
    pub relocatable: bool,
    pub start_symbol: Option<String>,
    pub end_symbol: Option<String>,
    pub base_phys_addr: Option<u64>,
    pub base_virt_addr: Option<u64>,
}

/// The placement that a pair of optional base addresses asks for in a
/// static image: a single given address serves as both, and a missing
/// pair means address zero.
pub open spec fn static_placement(phys: Option<u64>, virt: Option<u64>) -> ExecutablePlacement {
    match (phys, virt) {
        (None, None) => ExecutablePlacement::Static(0, 0),
        (None, Some(v)) => ExecutablePlacement::Static(v, v),
        (Some(p), None) => ExecutablePlacement::Static(p, p),
        (Some(p), Some(v)) => ExecutablePlacement::Static(p, v),
    }
}

impl Output {
    /// The placement that this table asks for. The base addresses are
    /// ignored in a relocatable image.
    pub open spec fn placement(&self) -> ExecutablePlacement {
        if self.relocatable {
            ExecutablePlacement::Relocatable
        } else {
            static_placement(self.base_phys_addr, self.base_virt_addr)
        }
    }

    /// Builds the table from the fields that a script gives. A missing
    /// entry symbol is `_start`, and an image is relocatable unless the
    /// script says otherwise.
    pub fn new(
        entry: Option<String>,
        relocatable: Option<bool>,
        start_symbol: Option<String>,
        end_symbol: Option<String>,
        base_phys_addr: Option<u64>,
        base_virt_addr: Option<u64>,
    ) -> (output: Output)
        ensures
            output.entry@ == (match entry {
                Some(e) => e@,
                None => "_start"@,
            }),
            output.relocatable == (match relocatable {
                Some(r) => r,
                None => true,
            }),
            output.start_symbol == start_symbol,
            output.end_symbol == end_symbol,
            output.base_phys_addr == base_phys_addr,
            output.base_virt_addr == base_virt_addr,
    {
        Output {
            entry: match entry {
                Some(e) => e,
                None => String::from_str("_start"),
            },
            relocatable: match relocatable {
                Some(r) => r,
                None => true,
            },
            start_symbol,
            end_symbol,
            base_phys_addr,
            base_virt_addr,
        }
    }

    pub fn get_entry_symbol(&self) -> (entry: &String)
        ensures
            entry == self.entry,
    {
        &self.entry
    }

    pub fn get_start_symbol(&self) -> (symbol: &Option<String>)
        ensures
            symbol == self.start_symbol,
    {
        &self.start_symbol
    }

    pub fn get_end_symbol(&self) -> (symbol: &Option<String>)
        ensures
            symbol == self.end_symbol,
    {
        &self.end_symbol
    }

    pub fn is_relocatable(&self) -> (relocatable: bool)
        ensures
            relocatable == self.relocatable,
    {
        self.relocatable
    }

    pub fn get_placement(&self) -> (placement: ExecutablePlacement)
        ensures
            placement == self.placement(),
    {
        if self.relocatable {
            ExecutablePlacement::Relocatable
        } else {
            match (self.base_phys_addr, self.base_virt_addr) {
                (None, None) => ExecutablePlacement::Static(0, 0),
                (None, Some(virt)) => ExecutablePlacement::Static(virt, virt),
                (Some(phys), None) => ExecutablePlacement::Static(phys, phys),
                (Some(phys), Some(virt)) => ExecutablePlacement::Static(phys, virt),
            }
        }
    }
}

/// A `[section.<name>]` table of a link script.
#[derive(Debug)]
pub struct Section {
    /// Wildcard patterns of the input sections to take in, in the order
    /// in which they are visited.
    pub includes: Vec<String>,
    pub start_symbol: Option<String>,
    pub end_symbol: Option<String>,
}

impl Section {
    /// The patterns of `includes` as character sequences.
    pub open spec fn patterns(&self) -> Seq<Seq<char>> {
        text_views(self.includes@)
    }

    pub fn new(includes: Vec<String>, start_symbol: Option<String>, end_symbol: Option<String>) -> (section: Section)
        ensures
            section.includes == includes,
            section.start_symbol == start_symbol,
            section.end_symbol == end_symbol,
    {
        Section { includes, start_symbol, end_symbol }
    }

    pub fn get_sections_to_include(&self) -> (includes: &Vec<String>)
        ensures
            includes == self.includes,
    {
        &self.includes
    }

    pub fn get_start_symbol(&self) -> (symbol: &Option<String>)
        ensures
            symbol == self.start_symbol,
    {
        &self.start_symbol
    }

    pub fn get_end_symbol(&self) -> (symbol: &Option<String>)
        ensures
            symbol == self.end_symbol,
    {
        &self.end_symbol
    }
}

/// A section table under its name.
#[derive(Debug)]
pub struct NamedSection {
    pub name: String,
    pub section: Section,
}

/// The position of the first of `entries` at or after `from` that is
/// called `name`, or the length of `entries` if there is none.
pub open spec fn position_from(entries: Seq<NamedSection>, name: Seq<char>, from: int) -> int
    decreases entries.len() - from,
{
    if from < 0 || from >= entries.len() {
        entries.len() as int
    } else if entries[from].name@ == name {
        from
    } else {
        position_from(entries, name, from + 1)
    }
}

/// The section tables of a link script by name. Of several tables with
/// one name the first counts.
#[derive(Debug)]
pub struct SectionTable {
    pub entries: Vec<NamedSection>,
}

impl SectionTable {
    /// The position of the table called `name`, or the number of tables
    /// if there is none.
    pub open spec fn position(&self, name: Seq<char>) -> int {
        position_from(self.entries@, name, 0)
    }

    /// Whether there is a table called `name`.
    pub open spec fn contains(&self, name: Seq<char>) -> bool {
        self.position(name) < self.entries@.len()
    }

    /// The table called `name`.
    pub open spec fn lookup(&self, name: Seq<char>) -> Option<Section> {
        if self.contains(name) {
            Some(self.entries@[self.position(name)].section)
        } else {
            None
        }
    }

    pub fn new() -> (table: SectionTable)
        ensures
            table.entries@.len() == 0,
    {
        SectionTable { entries: Vec::new() }
    }

    /// The position of the table called `name`.
    pub fn find(&self, name: &str) -> (position: usize)
        ensures
            position == self.position(name@),
            position <= self.entries@.len(),
            position < self.entries@.len() ==> self.entries@[position as int].name@ == name@,
            forall|i: int| 0 <= i < position ==> self.entries@[i].name@ != name@,
    {
        let mut i: usize = 0;
        while i < self.entries.len()
            invariant
                i <= self.entries@.len(),
                position_from(self.entries@, name@, 0) == position_from(
                    self.entries@,
                    name@,
                    i as int,
                ),
                forall|j: int| 0 <= j < i ==> self.entries@[j].name@ != name@,
            decreases self.entries@.len() - i,
        {
            if same_text(self.entries[i].name.as_str(), name) {
                return i;
            }
            i += 1;
        }
        i
    }

    /// The table called `name`, if there is one.
    pub fn get(&self, name: &str) -> (section: Option<&Section>)
        ensures
            section.is_some() == self.contains(name@),
            section matches Some(found) ==> self.lookup(name@) == Some(*found),
    {
        let position = self.find(name);
        if position < self.entries.len() {
            Some(&self.entries[position].section)
        } else {
            None
        }
    }

    /// Puts `section` under `name`, in place of the table that had this
    /// name before or else behind all others.
    pub fn insert(&mut self, name: String, section: Section)
        ensures
            final(self).lookup(name@) == Some(section),
            forall|other: Seq<char>|
                other != name@ ==> #[trigger] final(self).lookup(other) == old(self).lookup(other),
            forall|other: Seq<char>|
                other != name@ ==> #[trigger] final(self).contains(other) == old(self).contains(
                    other,
                ),
            final(self).entries@.len() == if old(self).contains(name@) {
                old(self).entries@.len()
            } else {
                old(self).entries@.len() + 1
            },
    {
        let position = self.find(name.as_str());
        let ghost before = self.entries@;
        let ghost key = name@;
        if position < self.entries.len() {
            self.entries.set(position, NamedSection { name, section });
        } else {
            self.entries.push(NamedSection { name, section });
        }
        proof {
            let after = self.entries@;
            assert forall|other: Seq<char>, from: int|
                0 <= from <= before.len() implies #[trigger] position_from(after, other, from) == (
            if other == key {
                if from <= position {
                    position as int
                } else {
                    position_from(after, other, from)
                }
            } else if position_from(before, other, from) == before.len() {
                after.len() as int
            } else {
                position_from(before, other, from)
            }) by {
                lemma_position_after_insert(before, after, key, position as int, other, from);
            }
            assert forall|other: Seq<char>| other != key implies self.lookup(other) == old(
                self,
            ).lookup(other) by {
                let p = position_from(before, other, 0);
                lemma_position_bounds(before, other, 0);
                assert(position_from(after, other, 0) == if p == before.len() {
                    after.len() as int
                } else {
                    p
                });
                if p < before.len() {
                    assert(before[p].name@ == other);
                    assert(p != position);
                    assert(after[p] == before[p]);
                }
            }
            assert forall|other: Seq<char>| other != key implies self.contains(other) == old(
                self,
            ).contains(other) by {
                lemma_position_bounds(before, other, 0);
                assert(position_from(after, other, 0) == if position_from(before, other, 0)
                    == before.len() {
                    after.len() as int
                } else {
                    position_from(before, other, 0)
                });
            }
            assert(position_from(after, key, 0) == position);
        }
    }
}

/// Compares two texts character by character.
pub fn same_text(a: &str, b: &str) -> (same: bool)
    ensures
        same == (a@ == b@),
{
    let a_owned = String::from_str(a);
    let b_owned = String::from_str(b);
    a_owned == b_owned
}

/// `position_from` stays within the sequence and finds a matching entry.
pub proof fn lemma_position_bounds(entries: Seq<NamedSection>, name: Seq<char>, from: int)
    requires
        0 <= from <= entries.len(),
    ensures
        from <= position_from(entries, name, from) <= entries.len(),
        position_from(entries, name, from) < entries.len() ==> entries[position_from(
            entries,
            name,
            from,
        )].name@ == name,
        forall|i: int|
            from <= i < position_from(entries, name, from) ==> entries[i].name@ != name,
    decreases entries.len() - from,
{
    if from < entries.len() && entries[from].name@ != name {
        lemma_position_bounds(entries, name, from + 1);
    }
}

proof fn lemma_position_after_insert(
    before: Seq<NamedSection>,
    after: Seq<NamedSection>,
    key: Seq<char>,
    position: int,
    other: Seq<char>,
    from: int,
)
    requires
        0 <= from <= before.len(),
        position == position_from(before, key, 0),
        0 <= position <= before.len(),
        position < before.len() ==> before[position].name@ == key,
        forall|i: int| 0 <= i < position ==> before[i].name@ != key,
        after.len() == if position < before.len() {
            before.len()
        } else {
            before.len() + 1
        },
        after[position].name@ == key,
        forall|i: int| 0 <= i < before.len() && i != position ==> after[i] == before[i],
    ensures
        position_from(after, other, from) == (if other == key {
            if from <= position {
                position
            } else {
                position_from(after, other, from)
            }
        } else if position_from(before, other, from) == before.len() {
            after.len() as int
        } else {
            position_from(before, other, from)
        }),
    decreases after.len() - from,
{
    if from < before.len() {
        lemma_position_after_insert(before, after, key, position, other, from + 1);
    } else if from < after.len() {
        assert(from == position);
        if other != key {
            assert(position_from(after, other, from + 1) == after.len());
        }
    }
}

/// A link script.
#[derive(Debug)]
pub struct Config {
    pub output: Output,
    pub section: SectionTable,
}

impl Config {
    pub fn new(output: Output, section: SectionTable) -> (config: Config)
        ensures
            config.output == output,
            config.section == section,
    {
        Config { output, section }
    }

    pub fn get_sections(&self) -> (sections: &SectionTable)
        ensures
            sections == self.section,
    {
        &self.section
    }

    pub fn get_output(&self) -> (output: &Output)
        ensures
            output == self.output,
    {
        &self.output
    }
}

/// A section table that takes in the sections matching one pattern and
/// has no bracketing symbols.
fn single_pattern_section(pattern: &str) -> (section: Section)
    ensures
        section.patterns() == seq![pattern@],
        section.start_symbol is None,
        section.end_symbol is None,
{
    let mut includes: Vec<String> = Vec::new();
    includes.push(String::from_str(pattern));
    let section = Section { includes, start_symbol: None, end_symbol: None };
    assert(section.patterns() =~= seq![pattern@]);
    section
}

/// The link script that is used where none is given: a relocatable image
/// entered at `_start`, with the four standard sections fed from the
/// input sections of the customary names.
pub fn default_config() -> (config: Config)
    ensures
        config.output.entry@ == "_start"@,
        config.output.relocatable,
        config.output.start_symbol is None,
        config.output.end_symbol is None,
        config.output.base_phys_addr is None,
        config.output.base_virt_addr is None,
        config.section.entries@.len() == 4,
        config.section.lookup("text"@) matches Some(text) && text.patterns() == seq![
            ".entry*"@,
            ".init*"@,
            ".text*"@,
        ] && text.start_symbol is None && text.end_symbol is None,
        config.section.lookup("rodata"@) matches Some(rodata) && rodata.patterns() == seq![
            ".rodata*"@,
        ] && rodata.start_symbol is None && rodata.end_symbol is None,
        config.section.lookup("data"@) matches Some(data) && data.patterns() == seq![".data*"@]
            && data.start_symbol is None && data.end_symbol is None,
        config.section.lookup("bss"@) matches Some(bss) && bss.patterns() == seq![".bss*"@]
            && optional_text(bss.start_symbol) == Some("__bss_start"@) && optional_text(
            bss.end_symbol,
        ) == Some("__bss_end"@),
{
    proof {
        reveal_strlit("text");
        reveal_strlit("rodata");
        reveal_strlit("data");
        reveal_strlit("bss");
        assert("text"@.len() == 4 && "rodata"@.len() == 6 && "data"@.len() == 4 && "bss"@.len()
            == 3);
        assert("text"@[0] != "data"@[0]);
    }
    let output = Output {
        entry: String::from_str("_start"),
        relocatable: true,
        start_symbol: None,
        end_symbol: None,
        base_phys_addr: None,
        base_virt_addr: None,
    };
    let mut text_patterns: Vec<String> = Vec::new();
    text_patterns.push(String::from_str(".entry*"));
    text_patterns.push(String::from_str(".init*"));
    text_patterns.push(String::from_str(".text*"));
    let text = Section { includes: text_patterns, start_symbol: None, end_symbol: None };
    assert(text.patterns() =~= seq![".entry*"@, ".init*"@, ".text*"@]);
    let mut bss = single_pattern_section(".bss*");
    bss.start_symbol = Some(String::from_str("__bss_start"));
    bss.end_symbol = Some(String::from_str("__bss_end"));
    let mut table = SectionTable::new();
    assert(!table.contains("text"@));
    table.insert(String::from_str("text"), text);
    assert(!table.contains("rodata"@) && !table.contains("data"@) && !table.contains("bss"@));
    table.insert(String::from_str("rodata"), single_pattern_section(".rodata*"));
    assert(!table.contains("data"@) && !table.contains("bss"@));
    assert(table.lookup("text"@) is Some);
    table.insert(String::from_str("data"), single_pattern_section(".data*"));
    assert(!table.contains("bss"@));
    assert(table.lookup("text"@) is Some && table.lookup("rodata"@) is Some);
    table.insert(String::from_str("bss"), bss);
    Config { output, section: table }
}

} // verus!
