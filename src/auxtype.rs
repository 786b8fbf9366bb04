//! Keys of the auxiliary vector and their names.
//!
//! The numeric values are the Linux ABI constants.

use vstd::prelude::*;

verus! {

/// An ELF word.
pub type Word = u64;

/// The type (key) of an auxiliary vector entry.
#[derive(Copy, Clone, Debug, Hash, PartialEq, Eq, Structural)]
pub struct Type(pub Word);

/// `AT_NULL`.
pub const AT_NULL: Word = 0;

/// `AT_IGNORE`.
pub const AT_IGNORE: Word = 1;

/// `AT_EXECFD`.
pub const AT_EXECFD: Word = 2;

/// `AT_PHDR`.
pub const AT_PHDR: Word = 3;

/// `AT_PHENT`.
pub const AT_PHENT: Word = 4;

/// `AT_PHNUM`.
pub const AT_PHNUM: Word = 5;

/// `AT_PAGESZ`.
pub const AT_PAGESZ: Word = 6;

/// `AT_BASE`.
pub const AT_BASE: Word = 7;

/// `AT_FLAGS`.
pub const AT_FLAGS: Word = 8;

/// `AT_ENTRY`.
pub const AT_ENTRY: Word = 9;

/// `AT_NOTELF`.
pub const AT_NOTELF: Word = 10;

/// `AT_UID`.
pub const AT_UID: Word = 11;

/// `AT_EUID`.
pub const AT_EUID: Word = 12;

/// `AT_GID`.
pub const AT_GID: Word = 13;

/// `AT_EGID`.
pub const AT_EGID: Word = 14;

/// `AT_HWCAP2`.
pub const AT_HWCAP2: Word = 26;

/// `AT_PLATFORM`.
pub const AT_PLATFORM: Word = 15;

/// `AT_HWCAP`.
pub const AT_HWCAP: Word = 16;

/// `AT_CLKTCK`.
pub const AT_CLKTCK: Word = 17;

/// `AT_FPUCW` (Linux on PowerPC).
pub const AT_FPUCW: Word = 18;

/// `AT_DCACHEBSIZE` (Linux on PowerPC).
pub const AT_DCACHEBSIZE: Word = 19;

/// `AT_ICACHEBSIZE` (Linux on PowerPC).
pub const AT_ICACHEBSIZE: Word = 20;

/// `AT_UCACHEBSIZE` (Linux on PowerPC).
pub const AT_UCACHEBSIZE: Word = 21;

/// `AT_IGNOREPPC` (Linux on PowerPC).
pub const AT_IGNOREPPC: Word = 22;

/// `AT_SECURE`.
pub const AT_SECURE: Word = 23;

/// `AT_BASE_PLATFORM`.
pub const AT_BASE_PLATFORM: Word = 24;

/// `AT_RANDOM`.
pub const AT_RANDOM: Word = 25;

/// `AT_RSEQ_FEATURE_SIZE`.
pub const AT_RSEQ_FEATURE_SIZE: Word = 27;

/// `AT_RSEQ_ALIGN`.
pub const AT_RSEQ_ALIGN: Word = 28;

/// `AT_HWCAP3`.
pub const AT_HWCAP3: Word = 29;

/// `AT_HWCAP4`.
pub const AT_HWCAP4: Word = 30;

/// `AT_EXECFN`.
pub const AT_EXECFN: Word = 31;

/// `AT_SYSINFO`.
pub const AT_SYSINFO: Word = 32;

/// `AT_SYSINFO_EHDR`.
pub const AT_SYSINFO_EHDR: Word = 33;

/// `AT_L1I_CACHESHAPE`.
pub const AT_L1I_CACHESHAPE: Word = 34;

/// `AT_L1D_CACHESHAPE`.
pub const AT_L1D_CACHESHAPE: Word = 35;

/// `AT_L2_CACHESHAPE`.
pub const AT_L2_CACHESHAPE: Word = 36;

/// `AT_L3_CACHESHAPE`.
pub const AT_L3_CACHESHAPE: Word = 37;

/// `AT_L1I_CACHESIZE`.
pub const AT_L1I_CACHESIZE: Word = 40;

/// `AT_L1I_CACHEGEOMETRY`.
pub const AT_L1I_CACHEGEOMETRY: Word = 41;

/// `AT_L1D_CACHESIZE`.
pub const AT_L1D_CACHESIZE: Word = 42;

/// `AT_L1D_CACHEGEOMETRY`.
pub const AT_L1D_CACHEGEOMETRY: Word = 43;

/// `AT_L2_CACHESIZE`.
pub const AT_L2_CACHESIZE: Word = 44;

/// `AT_L2_CACHEGEOMETRY`.
pub const AT_L2_CACHEGEOMETRY: Word = 45;

/// `AT_L3_CACHESIZE`.
pub const AT_L3_CACHESIZE: Word = 46;

/// `AT_L3_CACHEGEOMETRY`.
pub const AT_L3_CACHEGEOMETRY: Word = 47;

/// `AT_MINSIGSTKSZ`.
pub const AT_MINSIGSTKSZ: Word = 51;

/// Name of a key that every supported system defines.
pub open spec fn base_name(k: Word) -> Option<Seq<char>> {
    match k {
        0 => Some("AT_NULL"@),
        1 => Some("AT_IGNORE"@),
        2 => Some("AT_EXECFD"@),
        3 => Some("AT_PHDR"@),
        4 => Some("AT_PHENT"@),
        5 => Some("AT_PHNUM"@),
        6 => Some("AT_PAGESZ"@),
        7 => Some("AT_BASE"@),
        8 => Some("AT_FLAGS"@),
        9 => Some("AT_ENTRY"@),
        10 => Some("AT_NOTELF"@),
        11 => Some("AT_UID"@),
        12 => Some("AT_EUID"@),
        13 => Some("AT_GID"@),
        14 => Some("AT_EGID"@),
        26 => Some("AT_HWCAP2"@),
        _ => None,
    }
}

/// Name of a key that only Linux defines.
pub open spec fn os_name(k: Word) -> Option<Seq<char>> {
    match k {
        15 => Some("AT_PLATFORM"@),
        16 => Some("AT_HWCAP"@),
        17 => Some("AT_CLKTCK"@),
        23 => Some("AT_SECURE"@),
        24 => Some("AT_BASE_PLATFORM"@),
        25 => Some("AT_RANDOM"@),
        27 => Some("AT_RSEQ_FEATURE_SIZE"@),
        28 => Some("AT_RSEQ_ALIGN"@),
        29 => Some("AT_HWCAP3"@),
        30 => Some("AT_HWCAP4"@),
        31 => Some("AT_EXECFN"@),
        32 => Some("AT_SYSINFO"@),
        33 => Some("AT_SYSINFO_EHDR"@),
        34 => Some("AT_L1I_CACHESHAPE"@),
        35 => Some("AT_L1D_CACHESHAPE"@),
        36 => Some("AT_L2_CACHESHAPE"@),
        37 => Some("AT_L3_CACHESHAPE"@),
        40 => Some("AT_L1I_CACHESIZE"@),
        41 => Some("AT_L1I_CACHEGEOMETRY"@),
        42 => Some("AT_L1D_CACHESIZE"@),
        43 => Some("AT_L1D_CACHEGEOMETRY"@),
        44 => Some("AT_L2_CACHESIZE"@),
        45 => Some("AT_L2_CACHEGEOMETRY"@),
        46 => Some("AT_L3_CACHESIZE"@),
        47 => Some("AT_L3_CACHEGEOMETRY"@),
        51 => Some("AT_MINSIGSTKSZ"@),
        _ => None,
    }
}

/// Name of a key, where it is well known.
pub open spec fn key_name(k: Word) -> Option<Seq<char>> {
    match base_name(k) {
        Some(s) => Some(s),
        None => os_name(k),
    }
}

/// The view of an optional string.
pub open spec fn opt_str_view(o: Option<&str>) -> Option<Seq<char>> {
    match o {
        Some(s) => Some(s@),
        None => None,
    }
}

impl Type {
    /// Converts the `Type` to its well-known name, if it has one.
    pub fn to_str(self) -> (r: Option<&'static str>)
        ensures
            opt_str_view(r) == key_name(self.0),
    {
        match self.to_str_base() {
            Some(s) => Some(s),
            None => self.to_str_os(),
        }
    }

    pub(crate) fn to_str_base(self) -> (r: Option<&'static str>)
        ensures
            opt_str_view(r) == base_name(self.0),
    {
        match self.0 {
            0 => Some("AT_NULL"),
            1 => Some("AT_IGNORE"),
            2 => Some("AT_EXECFD"),
            3 => Some("AT_PHDR"),
            4 => Some("AT_PHENT"),
            5 => Some("AT_PHNUM"),
            6 => Some("AT_PAGESZ"),
            7 => Some("AT_BASE"),
            8 => Some("AT_FLAGS"),
            9 => Some("AT_ENTRY"),
            10 => Some("AT_NOTELF"),
            11 => Some("AT_UID"),
            12 => Some("AT_EUID"),
            13 => Some("AT_GID"),
            14 => Some("AT_EGID"),
            26 => Some("AT_HWCAP2"),
            _ => None,
        }
    }


    fn to_str_os(self) -> (r: Option<&'static str>)
        ensures
            opt_str_view(r) == os_name(self.0),
    {
        match self.0 {
            15 => Some("AT_PLATFORM"),
            16 => Some("AT_HWCAP"),
            17 => Some("AT_CLKTCK"),
            23 => Some("AT_SECURE"),
            24 => Some("AT_BASE_PLATFORM"),
            25 => Some("AT_RANDOM"),
            27 => Some("AT_RSEQ_FEATURE_SIZE"),
            28 => Some("AT_RSEQ_ALIGN"),
            29 => Some("AT_HWCAP3"),
            30 => Some("AT_HWCAP4"),
            31 => Some("AT_EXECFN"),
            32 => Some("AT_SYSINFO"),
            33 => Some("AT_SYSINFO_EHDR"),
            34 => Some("AT_L1I_CACHESHAPE"),
            35 => Some("AT_L1D_CACHESHAPE"),
            36 => Some("AT_L2_CACHESHAPE"),
            37 => Some("AT_L3_CACHESHAPE"),
            40 => Some("AT_L1I_CACHESIZE"),
            41 => Some("AT_L1I_CACHEGEOMETRY"),
            42 => Some("AT_L1D_CACHESIZE"),
            43 => Some("AT_L1D_CACHEGEOMETRY"),
            44 => Some("AT_L2_CACHESIZE"),
            45 => Some("AT_L2_CACHEGEOMETRY"),
            46 => Some("AT_L3_CACHESIZE"),
            47 => Some("AT_L3_CACHEGEOMETRY"),
            51 => Some("AT_MINSIGSTKSZ"),
            _ => None,
        }
    }

}

} // verus!
