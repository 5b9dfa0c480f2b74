//! Merging of the RISC-V processor-specific ELF header flags.

use vstd::prelude::*;

verus! {

/// Bits that record the use of an extension or ABI variant: compressed
/// instructions (bit 0), the embedded ABI (bit 3) and the RVTSO memory
/// model (bit 4).
pub const EF_USAGE_FLAGS: u32 = 0x19;

/// The two-bit float ABI level (bits 1 and 2).
pub const EF_FLOAT_ABI_MASK: u32 = 0x6;

/// File flags of an object file, as far as this linker tells them apart.
#[derive(Clone, Copy, Debug, PartialEq, Eq, Structural)]
pub enum FileFlags {
    /// No flags are recorded.
    Unset,
    /// ELF header flags.
    Elf { e_flags: u32 },
    /// Flags of a file format that is not linked here.
    Other,
}

/// The flag word that a `FileFlags` value stands for, if it has one.
pub open spec fn flag_bits(flags: FileFlags) -> Option<u32> {
    match flags {
        FileFlags::Unset => Some(0u32),
        FileFlags::Elf { e_flags } => Some(e_flags),
        FileFlags::Other => None,
    }
}

/// One step of the merge: the usage bits of `obj` are added to `acc`, and
/// the float ABI field of `acc` is replaced by that of `obj` where the
/// latter is greater.
pub open spec fn merge_bits(acc: u32, obj: u32) -> u32 {
    let with_usage = acc | (obj & EF_USAGE_FLAGS);
    if (obj & EF_FLOAT_ABI_MASK) > (with_usage & EF_FLOAT_ABI_MASK) {
        (obj & EF_FLOAT_ABI_MASK) | (with_usage & !EF_FLOAT_ABI_MASK)
    } else {
        with_usage
    }
}

/// The merge on flag values: defined where both sides carry a flag word.
pub open spec fn merged_flags(current: FileFlags, obj: FileFlags) -> Option<FileFlags> {
    match (flag_bits(current), flag_bits(obj)) {
        (Some(acc), Some(bits)) => Some(FileFlags::Elf { e_flags: merge_bits(acc, bits) }),
        _ => None,
    }
}

/// Folds the flags of one more object into the accumulated flags.
///
/// Returns `None` exactly when one of the two values is of a kind that
/// carries no ELF flag word.
pub fn update_e_flags(current: FileFlags, obj: FileFlags) -> (merged: Option<FileFlags>)
    ensures
        merged == merged_flags(current, obj),
{
    let obj_bits: u32 = match obj {
        FileFlags::Unset => 0,
        FileFlags::Elf { e_flags } => e_flags,
        FileFlags::Other => { return None; },
    };
    let mut elf_bits: u32 = match current {
        FileFlags::Unset => 0,
        FileFlags::Elf { e_flags } => e_flags,
        FileFlags::Other => { return None; },
    };
    elf_bits = elf_bits | (obj_bits & EF_USAGE_FLAGS);
    let obj_level: u32 = obj_bits & EF_FLOAT_ABI_MASK;
    let elf_level: u32 = elf_bits & EF_FLOAT_ABI_MASK;
    if obj_level > elf_level {
        elf_bits = obj_level | (elf_bits & !EF_FLOAT_ABI_MASK);
    }
    Some(FileFlags::Elf { e_flags: elf_bits })
}

/// The flag word reached by merging the words of `objects` in order,
/// starting from zero.
pub open spec fn fold_bits(objects: Seq<u32>) -> u32
    decreases objects.len(),
{
    if objects.len() == 0 {
        0u32
    } else {
        merge_bits(fold_bits(objects.drop_last()), objects.last())
    }
}

/// The union of the usage bits of all of `objects`.
pub open spec fn usage_union(objects: Seq<u32>) -> u32
    decreases objects.len(),
{
    if objects.len() == 0 {
        0u32
    } else {
        usage_union(objects.drop_last()) | (objects.last() & EF_USAGE_FLAGS)
    }
}

/// The greatest float ABI field among `objects`.
pub open spec fn float_abi_max(objects: Seq<u32>) -> u32
    decreases objects.len(),
{
    if objects.len() == 0 {
        0u32
    } else {
        let rest = float_abi_max(objects.drop_last());
        let level = objects.last() & EF_FLOAT_ABI_MASK;
        if level > rest { level } else { rest }
    }
}

/// Merging an object into flags that are made of usage bits and a float
/// ABI field adds the usage bits of the object and keeps the greater of
/// the two float ABI fields.
pub proof fn lemma_merge(usage: u32, level: u32, obj: u32)
    requires
        usage & !EF_USAGE_FLAGS == 0,
        level & !EF_FLOAT_ABI_MASK == 0,
    ensures
        (usage | (obj & EF_USAGE_FLAGS)) & !EF_USAGE_FLAGS == 0,
        (obj & EF_FLOAT_ABI_MASK) & !EF_FLOAT_ABI_MASK == 0,
        merge_bits(usage | level, obj) == (usage | (obj & EF_USAGE_FLAGS)) | (if (obj
            & EF_FLOAT_ABI_MASK) > level {
            obj & EF_FLOAT_ABI_MASK
        } else {
            level
        }),
{
    assert((usage | (obj & 0x19u32)) & !0x19u32 == 0) by (bit_vector)
        requires
            usage & !0x19u32 == 0,
    ;
    assert((obj & 0x6u32) & !0x6u32 == 0) by (bit_vector);
    assert(((usage | level) | (obj & 0x19u32)) & 0x6u32 == level) by (bit_vector)
        requires
            usage & !0x19u32 == 0,
            level & !0x6u32 == 0,
    ;
    assert((obj & 0x6u32) | (((usage | level) | (obj & 0x19u32)) & !0x6u32) == (usage | (obj
        & 0x19u32)) | (obj & 0x6u32)) by (bit_vector)
        requires
            usage & !0x19u32 == 0,
            level & !0x6u32 == 0,
    ;
    assert((usage | level) | (obj & 0x19u32) == (usage | (obj & 0x19u32)) | level)
        by (bit_vector);
}

/// Merging the flag words of any sequence of objects, starting from zero,
/// gives the union of their usage bits together with the greatest of
/// their float ABI fields.
pub proof fn lemma_fold_is_union_and_max(objects: Seq<u32>)
    ensures
        fold_bits(objects) == usage_union(objects) | float_abi_max(objects),
        usage_union(objects) & !EF_USAGE_FLAGS == 0,
        float_abi_max(objects) & !EF_FLOAT_ABI_MASK == 0,
    decreases objects.len(),
{
    if objects.len() == 0 {
        assert(0u32 | 0u32 == 0u32) by (bit_vector);
        assert(0u32 & !0x19u32 == 0) by (bit_vector);
        assert(0u32 & !0x6u32 == 0) by (bit_vector);
    } else {
        let rest = objects.drop_last();
        lemma_fold_is_union_and_max(rest);
        lemma_merge(usage_union(rest), float_abi_max(rest), objects.last());
    }
}

} // verus!
