//! Extraction options and their encoding into the engine's flag bitmask.

use vstd::prelude::*;

verus! {

/// One independent extraction option. The engine takes the whole selection as
/// a single bitmask; [`flags_to_code`] builds it.
#[allow(non_camel_case_types)]
#[derive(Debug, Clone, Copy, PartialEq, Eq, Structural)]
pub enum ArchiveExtractFlag {
    Owner,
    Perm,
    Time,
    No_Overwrite,
    Unlink,
    Acl,
    Fflags,
    Xattr,
    Secure_Symlinks,
    Secure_Nodotdot,
    No_Autodir,
    No_Overwrite_Newer,
    Sparse,
    Mac_Metadata,
    No_Hfs_Compression,
    Hfs_Compression_Forced,
    Secure_Noabsolutepaths,
}

/// The engine's bit for one extraction option. Each option owns exactly one
/// distinct bit; see [`lemma_flag_codes_distinct`].
pub open spec fn flag_code(flag: ArchiveExtractFlag) -> i32 {
    match flag {
        ArchiveExtractFlag::Owner => 0x0001,
        ArchiveExtractFlag::Perm => 0x0002,
        ArchiveExtractFlag::Time => 0x0004,
        ArchiveExtractFlag::No_Overwrite => 0x0008,
        ArchiveExtractFlag::Unlink => 0x0010,
        ArchiveExtractFlag::Acl => 0x0020,
        ArchiveExtractFlag::Fflags => 0x0040,
        ArchiveExtractFlag::Xattr => 0x0080,
        ArchiveExtractFlag::Secure_Symlinks => 0x0100,
        ArchiveExtractFlag::Secure_Nodotdot => 0x0200,
        ArchiveExtractFlag::No_Autodir => 0x0400,
        ArchiveExtractFlag::No_Overwrite_Newer => 0x0800,
        ArchiveExtractFlag::Sparse => 0x1000,
        ArchiveExtractFlag::Mac_Metadata => 0x2000,
        ArchiveExtractFlag::No_Hfs_Compression => 0x4000,
        ArchiveExtractFlag::Hfs_Compression_Forced => 0x8000,
        ArchiveExtractFlag::Secure_Noabsolutepaths => 0x10000,
    }
}

/// The bitmask for a whole selection of options: the bitwise-or of each
/// option's bit, folded left to right.
pub open spec fn combined_code(flags: Seq<ArchiveExtractFlag>) -> i32
    decreases flags.len(),
{
    if flags.len() == 0 {
        0
    } else {
        combined_code(flags.drop_last()) | flag_code(flags.last())
    }
}

/// Combines a selection of extraction options into the engine's bitmask.
pub fn flags_to_code(flags: Vec<ArchiveExtractFlag>) -> (r: i32)
    ensures
        r == combined_code(flags@),
{
    let mut flags_code: i32 = 0;
    let mut i: usize = 0;
    while i < flags.len()
        invariant
            i <= flags.len(),
            flags_code == combined_code(flags@.subrange(0, i as int)),
        decreases flags.len() - i,
    {
        let flag_bit: i32 = match flags[i] {
            ArchiveExtractFlag::Owner => 0x0001,
            ArchiveExtractFlag::Perm => 0x0002,
            ArchiveExtractFlag::Time => 0x0004,
            ArchiveExtractFlag::No_Overwrite => 0x0008,
            ArchiveExtractFlag::Unlink => 0x0010,
            ArchiveExtractFlag::Acl => 0x0020,
            ArchiveExtractFlag::Fflags => 0x0040,
            ArchiveExtractFlag::Xattr => 0x0080,
            ArchiveExtractFlag::Secure_Symlinks => 0x0100,
            ArchiveExtractFlag::Secure_Nodotdot => 0x0200,
            ArchiveExtractFlag::No_Autodir => 0x0400,
            ArchiveExtractFlag::No_Overwrite_Newer => 0x0800,
            ArchiveExtractFlag::Sparse => 0x1000,
            ArchiveExtractFlag::Mac_Metadata => 0x2000,
            ArchiveExtractFlag::No_Hfs_Compression => 0x4000,
            ArchiveExtractFlag::Hfs_Compression_Forced => 0x8000,
            ArchiveExtractFlag::Secure_Noabsolutepaths => 0x10000,
        };
        proof {
            assert(flag_bit == flag_code(flags@[i as int]));
            assert(flags@.subrange(0, i + 1 as int).drop_last() =~= flags@.subrange(
                0,
                i as int,
            ));
            assert(flags@.subrange(0, i + 1 as int).last() == flags@[i as int]);
        }
        flags_code = flags_code | flag_bit;
        i = i + 1;
    }
    proof {
        assert(flags@.subrange(0, flags@.len() as int) =~= flags@);
    }
    flags_code
}

/// No two extraction options share an engine bit: the mapping from option to
/// bit is injective, so no selection can silently stand for another.
pub proof fn lemma_flag_codes_distinct(a: ArchiveExtractFlag, b: ArchiveExtractFlag)
    ensures
        flag_code(a) == flag_code(b) ==> a == b,
{
}

/// Every selected option is carried by the combined bitmask: or-ing a
/// selected option's bit into the mask changes nothing, because the bit is
/// already set. A no-overwrite selection, for instance, can never fall out of
/// the mask the engine's extraction call receives.
pub proof fn lemma_selected_flag_bit_is_set(flags: Seq<ArchiveExtractFlag>, i: int)
    requires
        0 <= i < flags.len(),
    ensures
        combined_code(flags) | flag_code(flags[i]) == combined_code(flags),
    decreases flags.len(),
{
    let x = combined_code(flags.drop_last());
    let b = flag_code(flags.last());
    if i == flags.len() - 1 {
        assert((x | b) | b == x | b) by (bit_vector);
    } else {
        lemma_selected_flag_bit_is_set(flags.drop_last(), i);
        let c = flag_code(flags.drop_last()[i]);
        assert(flags.drop_last()[i] == flags[i]);
        assert(x | c == x ==> (x | b) | c == x | b) by (bit_vector);
    }
}

} // verus!
