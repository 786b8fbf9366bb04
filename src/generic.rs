//! Names and verbose rendering of keys on the other systems that have
//! an auxiliary vector (NetBSD, Solaris, illumos), where only the
//! common keys are known.

use vstd::prelude::*;

use crate::auxtype::{
    base_name, opt_str_view, Type, Word, AT_EGID, AT_EUID, AT_GID, AT_PAGESZ, AT_PHENT, AT_PHNUM,
    AT_UID,
};
use crate::auxvec::AuxVal;
use crate::display::{dec_text, hex_text, push_dec};

verus! {

/// Keys whose value is a count or an identifier on every system.
pub open spec fn is_generic_numeric_key(k: Word) -> bool {
    k == AT_PHENT || k == AT_PHNUM || k == AT_PAGESZ || k == AT_UID || k == AT_EUID
        || k == AT_GID || k == AT_EGID
}

/// The verbose rendering of the value `v` of key `k` on the other
/// systems.
pub open spec fn generic_verbose_value_text(k: Word, v: Word) -> Seq<char> {
    if is_generic_numeric_key(k) {
        dec_text(v as nat)
    } else {
        hex_text(v as nat)
    }
}

impl Type {
    /// Converts the `Type` to its well-known name on the other systems,
    /// where only the common keys have one.
    pub fn to_str_generic(self) -> (r: Option<&'static str>)
        ensures
            opt_str_view(r) == base_name(self.0),
    {
        self.to_str_base()
    }
}

impl AuxVal {
    /// Appends the value as its key reads it on the other systems to
    /// `out`: counts and identifiers in decimal, everything else in
    /// hexadecimal.
    pub fn write_val_alt_generic(&self, out: &mut String)
        ensures
            final(out)@ == old(out)@ + generic_verbose_value_text(self.key.0, self.val),
    {
        let k = self.key.0;
        if k == AT_PHENT || k == AT_PHNUM || k == AT_PAGESZ || k == AT_UID || k == AT_EUID
            || k == AT_GID || k == AT_EGID {
            push_dec(out, self.val);
        } else {
            self.write_val_hex(out);
        }
    }
}

} // verus!
