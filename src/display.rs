//! Text rendering of keys, values, entries and whole vectors.

use vstd::prelude::*;

use crate::auxtype::{
    key_name, opt_str_view, Type, Word, AT_CLKTCK, AT_EGID, AT_EUID, AT_EXECFN, AT_GID,
    AT_MINSIGSTKSZ, AT_NOTELF, AT_PAGESZ, AT_PHENT, AT_PHNUM, AT_PLATFORM, AT_SECURE, AT_UID,
};
use crate::auxvec::{AuxVal, AuxVec};

verus! {

/// Width to which key names are padded in a listing.
pub const NAME_WIDTH: usize = 20;

/// The digit for `d`, in lower case.
pub open spec fn digit_text(d: nat) -> Seq<char> {
    if d == 0 {
        "0"@
    } else if d == 1 {
        "1"@
    } else if d == 2 {
        "2"@
    } else if d == 3 {
        "3"@
    } else if d == 4 {
        "4"@
    } else if d == 5 {
        "5"@
    } else if d == 6 {
        "6"@
    } else if d == 7 {
        "7"@
    } else if d == 8 {
        "8"@
    } else if d == 9 {
        "9"@
    } else if d == 10 {
        "a"@
    } else if d == 11 {
        "b"@
    } else if d == 12 {
        "c"@
    } else if d == 13 {
        "d"@
    } else if d == 14 {
        "e"@
    } else if d == 15 {
        "f"@
    } else {
        Seq::empty()
    }
}

/// `n` in decimal, without leading zeros.
pub open spec fn dec_text(n: nat) -> Seq<char>
    decreases n,
{
    if n < 10 {
        digit_text(n)
    } else {
        dec_text(n / 10) + digit_text(n % 10)
    }
}

/// `n` in lower-case hexadecimal digits, without leading zeros.
pub open spec fn hex_digits(n: nat) -> Seq<char>
    decreases n,
{
    if n < 16 {
        digit_text(n)
    } else {
        hex_digits(n / 16) + digit_text(n % 16)
    }
}

/// `n` in hexadecimal with the `0x` prefix.
pub open spec fn hex_text(n: nat) -> Seq<char> {
    "0x"@ + hex_digits(n)
}

/// How a key is shown: its well-known name, or `Type(<number>)`.
pub open spec fn type_text(k: Word) -> Seq<char> {
    match key_name(k) {
        Some(s) => s,
        None => "Type("@ + dec_text(k as nat) + ")"@,
    }
}

/// `s` followed by spaces up to `w` characters.
pub open spec fn pad_text(s: Seq<char>, w: nat) -> Seq<char> {
    if s.len() < w {
        s + Seq::new((w - s.len()) as nat, |i: int| ' ')
    } else {
        s
    }
}

/// The placeholder shown for a string that cannot be shown.
pub open spec fn placeholder() -> Seq<char> {
    "???"@
}

/// Keys whose value is a count or an identifier.
pub open spec fn is_numeric_key(k: Word) -> bool {
    k == AT_PHENT || k == AT_PHNUM || k == AT_PAGESZ || k == AT_UID || k == AT_EUID
        || k == AT_GID || k == AT_EGID || k == AT_CLKTCK || k == AT_SECURE || k == AT_NOTELF
        || k == AT_MINSIGSTKSZ
}

/// Keys whose value is the address of a NUL-terminated string.
pub open spec fn is_string_key(k: Word) -> bool {
    k == AT_EXECFN || k == AT_PLATFORM
}

/// The raw rendering of a value.
pub open spec fn raw_value_text(v: Word) -> Seq<char> {
    hex_text(v as nat)
}

/// The verbose rendering of the value `v` of key `k`. `text` is the
/// string at address `v`, where it is valid UTF-8.
pub open spec fn verbose_value_text(k: Word, v: Word, text: Option<Seq<char>>) -> Seq<char> {
    if is_numeric_key(k) {
        dec_text(v as nat)
    } else if is_string_key(k) {
        if v == 0 {
            placeholder()
        } else {
            match text {
                Some(s) => s,
                None => placeholder(),
            }
        }
    } else {
        hex_text(v as nat)
    }
}

/// One entry: `<key>: <value>`.
pub open spec fn entry_text(key: Seq<char>, value: Seq<char>) -> Seq<char> {
    key + ": "@ + value
}

/// The view of an optional owned string.
pub open spec fn opt_string_view(o: Option<String>) -> Option<Seq<char>> {
    match o {
        Some(s) => Some(s@),
        None => None,
    }
}

/// One line of a listing: the key padded to [`NAME_WIDTH`], then the
/// value, then a newline.
pub open spec fn line_text(e: AuxVal, alt: bool, text: Option<Seq<char>>) -> Seq<char> {
    let value = if alt {
        verbose_value_text(e.key.0, e.val, text)
    } else {
        raw_value_text(e.val)
    };
    entry_text(pad_text(type_text(e.key.0), NAME_WIDTH as nat), value) + "\n"@
}

/// The lines of the first `n` entries of `s`; `texts[i]` is the string
/// that the value of entry `i` points to, where there is one.
pub open spec fn listing_text(
    s: Seq<AuxVal>,
    alt: bool,
    texts: Seq<Option<String>>,
    n: nat,
) -> Seq<char>
    decreases n,
{
    if n == 0 {
        Seq::empty()
    } else {
        listing_text(s, alt, texts, (n - 1) as nat) + line_text(
            s[n - 1],
            alt,
            opt_string_view(texts[n - 1]),
        )
    }
}

fn digit(d: u64) -> (r: &'static str)
    requires
        d < 16,
    ensures
        r@ == digit_text(d as nat),
{
    match d {
        0 => "0",
        1 => "1",
        2 => "2",
        3 => "3",
        4 => "4",
        5 => "5",
        6 => "6",
        7 => "7",
        8 => "8",
        9 => "9",
        10 => "a",
        11 => "b",
        12 => "c",
        13 => "d",
        14 => "e",
        15 => "f",
        _ => "f",
    }
}

/// Appends `n` in decimal to `out`.
pub fn push_dec(out: &mut String, n: u64)
    ensures
        final(out)@ == old(out)@ + dec_text(n as nat),
    decreases n,
{
    if n >= 10 {
        push_dec(out, n / 10);
    }
    out.append(digit(n % 10));
    assert(final(out)@ =~= old(out)@ + dec_text(n as nat));
}

fn push_hex_digits(out: &mut String, n: u64)
    ensures
        final(out)@ == old(out)@ + hex_digits(n as nat),
    decreases n,
{
    if n >= 16 {
        push_hex_digits(out, n / 16);
    }
    out.append(digit(n % 16));
    assert(final(out)@ =~= old(out)@ + hex_digits(n as nat));
}

/// Appends `n` in hexadecimal, with the `0x` prefix, to `out`.
pub fn push_hex(out: &mut String, n: u64)
    ensures
        final(out)@ == old(out)@ + hex_text(n as nat),
{
    out.append("0x");
    push_hex_digits(out, n);
    assert(final(out)@ =~= old(out)@ + hex_text(n as nat));
}

impl Type {
    /// Whether the key's value is the address of a NUL-terminated
    /// string.
    pub fn names_string(self) -> (r: bool)
        ensures
            r == is_string_key(self.0),
    {
        self.0 == AT_EXECFN || self.0 == AT_PLATFORM
    }

    /// Appends the key's name, or `Type(<number>)` for a key that is
    /// not well known, to `out`.
    pub fn write_name(self, out: &mut String)
        ensures
            final(out)@ == old(out)@ + type_text(self.0),
    {
        match self.to_str() {
            Some(s) => out.append(s),
            None => {
                out.append("Type(");
                push_dec(out, self.0);
                out.append(")");
            }
        }
        assert(final(out)@ =~= old(out)@ + type_text(self.0));
    }

    /// The key's name, or `Type(<number>)`.
    pub fn to_text(self) -> (r: String)
        ensures
            r@ == type_text(self.0),
    {
        let mut out = String::new();
        self.write_name(&mut out);
        assert(out@ =~= type_text(self.0));
        out
    }
}

impl AuxVal {
    /// Appends the value in hexadecimal to `out`.
    pub fn write_val_hex(&self, out: &mut String)
        ensures
            final(out)@ == old(out)@ + raw_value_text(self.val),
    {
        push_hex(out, self.val);
    }

    /// Appends the value as its key reads it to `out`: counts and
    /// identifiers in decimal, strings as the text that `text` holds
    /// (the string at the value's address where it is valid UTF-8),
    /// everything else in hexadecimal. A null string address, or a
    /// string that is not valid UTF-8, shows as `???`.
    pub fn write_val_alt(&self, out: &mut String, text: Option<&str>)
        ensures
            final(out)@ == old(out)@ + verbose_value_text(self.key.0, self.val, opt_str_view(text)),
    {
        let k = self.key.0;
        if k == AT_PHENT || k == AT_PHNUM || k == AT_PAGESZ || k == AT_UID || k == AT_EUID
            || k == AT_GID || k == AT_EGID || k == AT_CLKTCK || k == AT_SECURE || k == AT_NOTELF
            || k == AT_MINSIGSTKSZ {
            push_dec(out, self.val);
        } else if self.key.names_string() {
            if self.val == 0 {
                out.append("???");
            } else {
                match text {
                    Some(s) => out.append(s),
                    None => out.append("???"),
                }
            }
        } else {
            self.write_val_hex(out);
        }
    }

    /// The entry as `<key>: <value>`, the value in hexadecimal.
    pub fn to_text(&self) -> (r: String)
        ensures
            r@ == entry_text(type_text(self.key.0), raw_value_text(self.val)),
    {
        let mut out = String::new();
        self.key.write_name(&mut out);
        out.append(": ");
        self.write_val_hex(&mut out);
        assert(out@ =~= entry_text(type_text(self.key.0), raw_value_text(self.val)));
        out
    }

    /// The entry as `<key>: <value>`, the value as its key reads it
    /// (see [`AuxVal::write_val_alt`]).
    pub fn to_text_alt(&self, text: Option<&str>) -> (r: String)
        ensures
            r@ == entry_text(
                type_text(self.key.0),
                verbose_value_text(self.key.0, self.val, opt_str_view(text)),
            ),
    {
        let mut out = String::new();
        self.key.write_name(&mut out);
        out.append(": ");
        self.write_val_alt(&mut out, text);
        assert(out@ =~= entry_text(
            type_text(self.key.0),
            verbose_value_text(self.key.0, self.val, opt_str_view(text)),
        ));
        out
    }
}

impl AuxVal {
    fn write_line(&self, out: &mut String, alt: bool, text: Option<&str>)
        ensures
            final(out)@ == old(out)@ + line_text(*self, alt, opt_str_view(text)),
    {
        let name = self.key.to_text();
        let len = name.as_str().unicode_len();
        out.append(name.as_str());
        let mut k: usize = len;
        while k < NAME_WIDTH
            invariant
                len == type_text(self.key.0).len(),
                len <= k,
                k <= NAME_WIDTH || k == len,
                out@ == old(out)@ + type_text(self.key.0) + Seq::new(
                    (k - len) as nat,
                    |i: int| ' ',
                ),
            decreases NAME_WIDTH - k,
        {
            out.append(" ");
            k = k + 1;
            proof {
                reveal_strlit(" ");
            }
            assert(out@ =~= old(out)@ + type_text(self.key.0) + Seq::new(
                (k - len) as nat,
                |i: int| ' ',
            ));
        }
        assert(old(out)@ + pad_text(type_text(self.key.0), NAME_WIDTH as nat) =~= out@);
        out.append(": ");
        if alt {
            self.write_val_alt(out, text);
        } else {
            self.write_val_hex(out);
        }
        out.append("\n");
        assert(final(out)@ =~= old(out)@ + line_text(*self, alt, opt_str_view(text)));
    }
}

impl AuxVec {
    fn write_lines(&self, alt: bool, texts: &Vec<Option<String>>) -> (r: String)
        requires
            self.wf(),
            texts@.len() == self@.len(),
        ensures
            r@ == listing_text(self@, alt, texts@, self@.len()),
    {
        let entries = self.iter();
        let mut out = String::new();
        let mut i: usize = 0;
        while i < entries.len()
            invariant
                entries@ == self@,
                texts@.len() == self@.len(),
                0 <= i <= self@.len(),
                out@ == listing_text(self@, alt, texts@, i as nat),
            decreases self@.len() - i,
        {
            let text: Option<&str> = match &texts[i] {
                Some(t) => Some(t.as_str()),
                None => None,
            };
            assert(opt_str_view(text) == opt_string_view(texts@[i as int]));
            entries[i].write_line(&mut out, alt, text);
            i = i + 1;
        }
        out
    }

    /// One line per entry, `<key padded>: <value>`, each value in
    /// hexadecimal.
    pub fn to_text(&self) -> (r: String)
        requires
            self.wf(),
        ensures
            r@ == listing_text(self@, false, Seq::new(self@.len(), |i: int| None), self@.len()),
    {
        let mut texts: Vec<Option<String>> = Vec::new();
        let mut i: usize = 0;
        while i < self.len()
            invariant
                0 <= i <= self@.len(),
                texts@ == Seq::new(i as nat, |j: int| None::<String>),
            decreases self@.len() - i,
        {
            texts.push(None);
            i = i + 1;
            assert(texts@ =~= Seq::new(i as nat, |j: int| None::<String>));
        }
        self.write_lines(false, &texts)
    }

    /// One line per entry, `<key padded>: <value>`, each value as its
    /// key reads it (see [`AuxVal::write_val_alt`]). `texts[i]` is the
    /// string that the value of entry `i` points to, where the key
    /// names a string, the address is not null and the bytes there are
    /// valid UTF-8.
    pub fn to_text_alt(&self, texts: &Vec<Option<String>>) -> (r: String)
        requires
            self.wf(),
            texts@.len() == self@.len(),
        ensures
            r@ == listing_text(self@, true, texts@, self@.len()),
    {
        self.write_lines(true, texts)
    }
}

} // verus!
