//! Keys that FreeBSD and DragonFly define above the common ones, with
//! their names and the verbose rendering of their values.

use vstd::prelude::*;

use crate::auxtype::{
    base_name, opt_str_view, Type, Word, AT_EGID, AT_EUID, AT_GID, AT_PAGESZ, AT_PHENT, AT_PHNUM,
    AT_UID,
};
use crate::auxvec::AuxVal;
use crate::display::{dec_text, hex_text, placeholder, push_dec};

verus! {

/// `AT_EXECPATH`.
pub const AT_EXECPATH: Word = 15;

/// `AT_CANARY`.
pub const AT_CANARY: Word = 16;

/// `AT_CANARYLEN`.
pub const AT_CANARYLEN: Word = 17;

/// `AT_OSRELDATE`.
pub const AT_OSRELDATE: Word = 18;

/// `AT_NCPUS`.
pub const AT_NCPUS: Word = 19;

/// `AT_PAGESIZES`.
pub const AT_PAGESIZES: Word = 20;

/// `AT_PAGESIZESLEN`.
pub const AT_PAGESIZESLEN: Word = 21;

/// `AT_TIMEKEEP`.
pub const AT_TIMEKEEP: Word = 22;

/// `AT_STACKPROT`.
pub const AT_STACKPROT: Word = 23;

/// `AT_EHDRFLAGS`.
pub const AT_EHDRFLAGS: Word = 24;

/// `AT_HWCAP`.
pub const AT_HWCAP: Word = 25;

/// `AT_BSDFLAGS`.
pub const AT_BSDFLAGS: Word = 27;

/// `AT_ARGC`.
pub const AT_ARGC: Word = 28;

/// `AT_ARGV`.
pub const AT_ARGV: Word = 29;

/// `AT_ENVC`.
pub const AT_ENVC: Word = 30;

/// `AT_ENVV`.
pub const AT_ENVV: Word = 31;

/// `AT_PS_STRINGS`.
pub const AT_PS_STRINGS: Word = 32;

/// `AT_FXRNG`.
pub const AT_FXRNG: Word = 33;

/// `AT_KPRELOAD`.
pub const AT_KPRELOAD: Word = 34;

/// `AT_USRSTACKBASE`.
pub const AT_USRSTACKBASE: Word = 35;

/// `AT_USRSTACKLIM`.
pub const AT_USRSTACKLIM: Word = 36;

/// `AT_COUNT`.
pub const AT_COUNT: Word = 37;

/// Name of a key that only FreeBSD and DragonFly define.
pub open spec fn freebsd_os_name(k: Word) -> Option<Seq<char>> {
    match k {
        15 => Some("AT_EXECPATH"@),
        16 => Some("AT_CANARY"@),
        17 => Some("AT_CANARYLEN"@),
        18 => Some("AT_OSRELDATE"@),
        19 => Some("AT_NCPUS"@),
        20 => Some("AT_PAGESIZES"@),
        21 => Some("AT_PAGESIZESLEN"@),
        22 => Some("AT_TIMEKEEP"@),
        23 => Some("AT_STACKPROT"@),
        24 => Some("AT_EHDRFLAGS"@),
        25 => Some("AT_HWCAP"@),
        27 => Some("AT_BSDFLAGS"@),
        28 => Some("AT_ARGC"@),
        29 => Some("AT_ARGV"@),
        30 => Some("AT_ENVC"@),
        31 => Some("AT_ENVV"@),
        32 => Some("AT_PS_STRINGS"@),
        33 => Some("AT_FXRNG"@),
        34 => Some("AT_KPRELOAD"@),
        35 => Some("AT_USRSTACKBASE"@),
        36 => Some("AT_USRSTACKLIM"@),
        37 => Some("AT_COUNT"@),
        _ => None,
    }
}

/// Name of a key on FreeBSD and DragonFly, where it is well known.
pub open spec fn freebsd_key_name(k: Word) -> Option<Seq<char>> {
    match base_name(k) {
        Some(s) => Some(s),
        None => freebsd_os_name(k),
    }
}

/// Keys whose value is a count or an identifier on FreeBSD and
/// DragonFly.
pub open spec fn is_freebsd_numeric_key(k: Word) -> bool {
    k == AT_PHENT || k == AT_PHNUM || k == AT_PAGESZ || k == AT_UID || k == AT_EUID
        || k == AT_GID || k == AT_EGID || k == AT_STACKPROT
}

/// Keys whose value is the address of a NUL-terminated string on
/// FreeBSD and DragonFly.
pub open spec fn is_freebsd_string_key(k: Word) -> bool {
    k == AT_EXECPATH
}

/// The verbose rendering of the value `v` of key `k` on FreeBSD and
/// DragonFly. `text` is the string at address `v`, where it is valid
/// UTF-8.
pub open spec fn freebsd_verbose_value_text(k: Word, v: Word, text: Option<Seq<char>>) -> Seq<
    char,
> {
    if is_freebsd_numeric_key(k) {
        dec_text(v as nat)
    } else if is_freebsd_string_key(k) {
        if v == 0 {
            placeholder()
        } else {
            match text {
                Some(s) => s,
                None => placeholder(),
            }
        }
    } else {
        hex_text(v as nat)
    }
}

impl Type {
    /// Whether the key's value is the address of a NUL-terminated
    /// string on FreeBSD and DragonFly.
    pub fn names_string_freebsd(self) -> (r: bool)
        ensures
            r == is_freebsd_string_key(self.0),
    {
        self.0 == AT_EXECPATH
    }

    /// Converts the `Type` to its well-known name on FreeBSD and
    /// DragonFly, if it has one.
    pub fn to_str_freebsd(self) -> (r: Option<&'static str>)
        ensures
            opt_str_view(r) == freebsd_key_name(self.0),
    {
        match self.to_str_base() {
            Some(s) => Some(s),
            None => self.to_str_os_freebsd(),
        }
    }

    fn to_str_os_freebsd(self) -> (r: Option<&'static str>)
        ensures
            opt_str_view(r) == freebsd_os_name(self.0),
    {
        match self.0 {

            15 => Some("AT_EXECPATH"),
            16 => Some("AT_CANARY"),
            17 => Some("AT_CANARYLEN"),
            18 => Some("AT_OSRELDATE"),
            19 => Some("AT_NCPUS"),
            20 => Some("AT_PAGESIZES"),
            21 => Some("AT_PAGESIZESLEN"),
            22 => Some("AT_TIMEKEEP"),
            23 => Some("AT_STACKPROT"),
            24 => Some("AT_EHDRFLAGS"),
            25 => Some("AT_HWCAP"),
            27 => Some("AT_BSDFLAGS"),
            28 => Some("AT_ARGC"),
            29 => Some("AT_ARGV"),
            30 => Some("AT_ENVC"),
            31 => Some("AT_ENVV"),
            32 => Some("AT_PS_STRINGS"),
            33 => Some("AT_FXRNG"),
            34 => Some("AT_KPRELOAD"),
            35 => Some("AT_USRSTACKBASE"),
            36 => Some("AT_USRSTACKLIM"),
            37 => Some("AT_COUNT"),

            _ => None,
        }
    }
}

impl AuxVal {
    /// Appends the value as its key reads it on FreeBSD and DragonFly
    /// to `out`: counts, identifiers and the stack protection in
    /// decimal, the executable path as the text that `text` holds (the
    /// string at the value's address where it is valid UTF-8),
    /// everything else in hexadecimal. A null path address, or a path
    /// that is not valid UTF-8, shows as `???`.
    pub fn write_val_alt_freebsd(&self, out: &mut String, text: Option<&str>)
        ensures
            final(out)@ == old(out)@ + freebsd_verbose_value_text(
                self.key.0,
                self.val,
                opt_str_view(text),
            ),
    {
        let k = self.key.0;
        if k == AT_PHENT || k == AT_PHNUM || k == AT_PAGESZ || k == AT_UID || k == AT_EUID
            || k == AT_GID || k == AT_EGID || k == AT_STACKPROT {
            push_dec(out, self.val);
        } else if self.key.names_string_freebsd() {
            if self.val == 0 {
                out.append("???");
            } else {
                match text {
                    Some(s) => out.append(s),
                    None => out.append("???"),
                }
            }
        } else {
            self.write_val_hex(out);
        }
    }
}

} // verus!
