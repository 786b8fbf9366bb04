use std::sync::atomic::{AtomicU64, Ordering};

use sys_auxv::auxtype::{
    AT_BASE_PLATFORM, AT_DCACHEBSIZE, AT_FPUCW, AT_ICACHEBSIZE, AT_IGNOREPPC, AT_UCACHEBSIZE,
    AT_EXECFN, AT_HWCAP, AT_HWCAP2, AT_MINSIGSTKSZ, AT_NULL, AT_PAGESZ,
    AT_PHDR, AT_PLATFORM, AT_RANDOM, AT_UID,
};
use sys_auxv::cache::{cached, publish_word, settle, UNAVAILABLE, UNRESOLVED};
use sys_auxv::display::{push_dec, push_hex};
use sys_auxv::freebsd;
use sys_auxv::locate::{address_of, auxv_via_argv, envp, find_auxv, find_term, walk, Phase, Walker};
use sys_auxv::{AuxVal, AuxVec, Type, Word};

fn val(key: Word, v: Word) -> AuxVal {
    AuxVal { key: Type(key), val: v }
}

fn sample() -> AuxVec {
    let records = [val(AT_UID, 1000), val(AT_PAGESZ, 4096), val(AT_NULL, 0)];
    AuxVec::from_slice(&records).unwrap()
}

#[test]
fn synthetic_array_yields_two_entries_in_order() {
    let v = sample();
    assert_eq!(v.len(), 2);
    assert!(!v.is_empty());
    assert_eq!(v.iter(), &[val(AT_UID, 1000), val(AT_PAGESZ, 4096)][..]);
}

#[test]
fn iterating_twice_yields_the_same_entries() {
    let v = sample();
    let first: Vec<AuxVal> = v.iter().to_vec();
    let second: Vec<AuxVal> = v.iter().to_vec();
    assert_eq!(first, second);
    assert_eq!(first[0].key, Type(AT_UID));
    assert_eq!(first[1].key, Type(AT_PAGESZ));
}

#[test]
fn lookup_of_the_terminator_is_not_found() {
    let v = sample();
    assert_eq!(v.lookup(Type(AT_NULL)), None);
}

#[test]
fn lookup_matches_a_walk_over_the_entries() {
    let v = sample();
    for e in v.iter() {
        let manual = v.iter().iter().find(|x| x.key == e.key).map(|x| x.val);
        assert_eq!(v.lookup(e.key), manual);
    }
    assert_eq!(v.lookup(Type(AT_UID)), Some(1000));
    assert_eq!(v.lookup(Type(AT_PAGESZ)), Some(4096));
    assert_eq!(v.lookup(Type(AT_HWCAP)), None);
}

#[test]
fn lookup_returns_the_first_of_equal_keys() {
    let records = [val(AT_UID, 1), val(AT_UID, 2), val(AT_NULL, 0)];
    let v = AuxVec::from_slice(&records).unwrap();
    assert_eq!(v.lookup(Type(AT_UID)), Some(1));
}

#[test]
fn from_slice_stops_at_the_first_terminator() {
    let records = [val(AT_PHDR, 64), val(AT_NULL, 0), val(AT_UID, 5), val(AT_NULL, 0)];
    let v = AuxVec::from_slice(&records).unwrap();
    assert_eq!(v.iter(), &[val(AT_PHDR, 64)][..]);
    assert_eq!(v.lookup(Type(AT_UID)), None);
}

#[test]
fn from_slice_without_terminator_is_none() {
    let records = [val(AT_UID, 1000), val(AT_PAGESZ, 4096)];
    assert!(AuxVec::from_slice(&records).is_none());
    assert!(AuxVec::from_slice(&[]).is_none());
}

#[test]
fn terminator_alone_gives_an_empty_vector() {
    let v = AuxVec::from_slice(&[val(AT_NULL, 7)]).unwrap();
    assert!(v.is_empty());
    assert_eq!(v.len(), 0);
    assert_eq!(v.to_text(), "");
}

#[test]
fn verbose_numeric_key_is_decimal() {
    let e = val(AT_UID, 1000);
    assert_eq!(e.to_text_alt(None), "AT_UID: 1000");
    assert_eq!(e.to_text(), "AT_UID: 0x3e8");
}

#[test]
fn verbose_null_string_key_is_a_placeholder() {
    let e = val(AT_PLATFORM, 0);
    assert_eq!(e.to_text_alt(None), "AT_PLATFORM: ???");
    assert_eq!(e.to_text_alt(Some("x86_64")), "AT_PLATFORM: ???");
}

#[test]
fn verbose_string_key_shows_the_string() {
    let e = val(AT_EXECFN, 0x7ffd_0000);
    assert_eq!(e.to_text_alt(Some("/bin/true")), "AT_EXECFN: /bin/true");
    assert_eq!(e.to_text_alt(None), "AT_EXECFN: ???");
    assert_eq!(e.to_text(), "AT_EXECFN: 0x7ffd0000");
}

#[test]
fn verbose_other_key_is_hexadecimal() {
    let e = val(AT_RANDOM, 255);
    assert_eq!(e.to_text_alt(Some("ignored")), "AT_RANDOM: 0xff");
}

#[test]
fn unknown_key_shows_its_number() {
    let e = val(99, 1);
    assert_eq!(e.to_text(), "Type(99): 0x1");
    assert_eq!(e.to_text_alt(None), "Type(99): 0x1");
    assert_eq!(Type(99).to_str(), None);
    assert_eq!(Type(u64::MAX).to_text(), "Type(18446744073709551615)");
}

#[test]
fn key_names() {
    assert_eq!(Type(AT_NULL).to_str(), Some("AT_NULL"));
    assert_eq!(Type(AT_HWCAP2).to_str(), Some("AT_HWCAP2"));
    assert_eq!(Type(AT_BASE_PLATFORM).to_str(), Some("AT_BASE_PLATFORM"));
    assert_eq!(Type(AT_MINSIGSTKSZ).to_str(), Some("AT_MINSIGSTKSZ"));
    assert_eq!(Type(25).to_str(), Some("AT_RANDOM"));
    assert_eq!(Type(38).to_str(), None);
    assert_eq!(Type(AT_UID).to_text(), "AT_UID");
}

#[test]
fn number_rendering() {
    let mut s = String::new();
    push_dec(&mut s, 0);
    assert_eq!(s, "0");
    let mut s = String::from("n=");
    push_dec(&mut s, 1234567890);
    assert_eq!(s, "n=1234567890");
    let mut s = String::new();
    push_hex(&mut s, 0);
    assert_eq!(s, "0x0");
    let mut s = String::new();
    push_hex(&mut s, u64::MAX);
    assert_eq!(s, "0xffffffffffffffff");
    let mut s = String::new();
    push_hex(&mut s, 0xdead_beef);
    assert_eq!(s, "0xdeadbeef");
}

#[test]
fn listing_pads_key_names() {
    let v = sample();
    assert_eq!(
        v.to_text(),
        "AT_UID              : 0x3e8\nAT_PAGESZ           : 0x1000\n"
    );
    let texts = vec![None, None];
    assert_eq!(
        v.to_text_alt(&texts),
        "AT_UID              : 1000\nAT_PAGESZ           : 4096\n"
    );
}

#[test]
fn listing_verbose_with_strings_and_long_names() {
    let records = [val(AT_PLATFORM, 0x1000), val(AT_BASE_PLATFORM, 0x2000), val(AT_NULL, 0)];
    let v = AuxVec::from_slice(&records).unwrap();
    let texts = vec![Some(String::from("x86_64")), None];
    assert_eq!(
        v.to_text_alt(&texts),
        "AT_PLATFORM         : x86_64\nAT_BASE_PLATFORM    : 0x2000\n"
    );
    let records = [val(17, 100), val(99, 3), val(AT_NULL, 0)];
    let v = AuxVec::from_slice(&records).unwrap();
    assert_eq!(v.to_text(), "AT_CLKTCK           : 0x64\nType(99)            : 0x3\n");
}

// argv = [a, b], envp = [x], then the vector (AT_UID 1000, AT_PAGESZ 4096).
fn stack() -> Vec<Word> {
    vec![
        0x100, 0x200, 0, 0x300, 0, AT_UID, 1000, AT_PAGESZ, 4096, AT_NULL, 0,
    ]
}

#[test]
fn find_term_finds_the_first_null_word() {
    let mem = stack();
    assert_eq!(find_term(&mem, 0), Some(2));
    assert_eq!(find_term(&mem, 2), Some(2));
    assert_eq!(find_term(&mem, 3), Some(4));
    assert_eq!(find_term(&[1, 2, 3], 0), None);
    assert_eq!(find_term(&mem, 11), None);
}

#[test]
fn auxv_is_found_after_the_environment() {
    let mem = stack();
    assert_eq!(find_auxv(&mem, Some(3)), Some(5));
    assert_eq!(find_auxv(&mem, None), None);
    assert_eq!(find_auxv(&[7, 8], Some(0)), None);
    assert_eq!(auxv_via_argv(&mem, Some(0)), Some(5));
    assert_eq!(auxv_via_argv(&mem, None), None);
    assert_eq!(auxv_via_argv(&[1, 0, 2], Some(0)), None);
}

#[test]
fn environ_is_preferred_over_captured_envp() {
    assert_eq!(envp(Some(3), Some(9)), Some(9));
    assert_eq!(envp(None, Some(9)), Some(9));
    assert_eq!(envp(Some(3), None), Some(3));
    assert_eq!(envp(None, None), None);
}

#[test]
fn vector_is_read_from_words() {
    let mem = stack();
    let v = AuxVec::from_ptr(&mem, 5).unwrap();
    assert_eq!(v.iter(), &[val(AT_UID, 1000), val(AT_PAGESZ, 4096)][..]);
    assert!(AuxVec::from_ptr(&mem[..9], 5).is_none());
    assert!(AuxVec::from_ptr(&mem[..8], 5).is_none());
    assert_eq!(AuxVec::from_ptr(&mem[..10], 5).unwrap().len(), 2);
}

#[test]
fn walker_reads_the_vector_word_by_word() {
    let mem = stack();
    let mut w = Walker::new();
    while !w.is_done() {
        let word = mem[3 + w.offset()];
        w.feed(word);
    }
    assert_eq!(w.offset(), 6);
    let v = w.finish().unwrap();
    assert_eq!(v.iter(), &[val(AT_UID, 1000), val(AT_PAGESZ, 4096)][..]);
    let from_env = walk(&mem[3..]).unwrap();
    assert_eq!(from_env.iter(), v.iter());
    assert!(walk(&mem[3..9]).is_none());
    assert!(walk(&[1, 2]).is_none());
}

#[test]
fn walker_is_unfinished_before_the_terminator() {
    let w = Walker::new();
    assert!(!w.is_done());
    assert!(w.finish().is_none());
    assert_ne!(Phase::Env, Phase::Done);
}

#[test]
fn slot_words() {
    assert_eq!(publish_word(Some(0x7ffd_1000)), 0x7ffd_1000);
    assert_eq!(publish_word(None), UNAVAILABLE);
    assert_eq!(publish_word(Some(0)), UNAVAILABLE);
    assert_eq!(cached(UNRESOLVED), None);
    assert_eq!(cached(UNAVAILABLE), Some(None));
    assert_eq!(cached(0x7ffd_1000), Some(Some(0x7ffd_1000)));
    assert_eq!(settle(0x10, Ok(UNRESOLVED)), 0x10);
    assert_eq!(settle(0x10, Err(0x20)), 0x20);
}

#[test]
fn racing_resolvers_agree() {
    let slot = AtomicU64::new(UNRESOLVED);
    let found = 0x7ffd_1000;
    let mut seen = Vec::new();
    for _ in 0..4 {
        let loaded = slot.load(Ordering::Relaxed);
        let mine = publish_word(Some(found));
        let word = match cached(loaded) {
            Some(_) => loaded,
            None => settle(
                mine,
                slot.compare_exchange(UNRESOLVED, mine, Ordering::SeqCst, Ordering::Relaxed),
            ),
        };
        seen.push(word);
    }
    // A resolver that loaded before the first publication loses its
    // compare-and-set and takes the winner's word.
    let late = settle(
        publish_word(Some(found)),
        slot.compare_exchange(UNRESOLVED, found, Ordering::SeqCst, Ordering::Relaxed),
    );
    seen.push(late);
    assert!(seen.iter().all(|w| *w == found));
    assert_eq!(cached(slot.load(Ordering::Relaxed)), Some(Some(found)));
}

#[test]
fn string_keys() {
    assert!(Type(AT_PLATFORM).names_string());
    assert!(Type(AT_EXECFN).names_string());
    assert!(!Type(AT_UID).names_string());
    assert!(!Type(AT_BASE_PLATFORM).names_string());
}

#[test]
fn freebsd_key_names() {
    assert_eq!(Type(freebsd::AT_HWCAP).to_str_freebsd(), Some("AT_HWCAP"));
    assert_eq!(Type(25).to_str_freebsd(), Some("AT_HWCAP"));
    assert_eq!(Type(15).to_str_freebsd(), Some("AT_EXECPATH"));
    assert_eq!(Type(freebsd::AT_COUNT).to_str_freebsd(), Some("AT_COUNT"));
    assert_eq!(Type(AT_UID).to_str_freebsd(), Some("AT_UID"));
    assert_eq!(Type(26).to_str_freebsd(), Some("AT_HWCAP2"));
    assert_eq!(Type(38).to_str_freebsd(), None);
    assert_eq!(Type(16).to_str(), Some("AT_HWCAP"));
}

#[test]
fn freebsd_verbose_values() {
    let mut s = String::new();
    val(freebsd::AT_STACKPROT, 7).write_val_alt_freebsd(&mut s, None);
    assert_eq!(s, "7");
    let mut s = String::new();
    val(AT_PAGESZ, 4096).write_val_alt_freebsd(&mut s, None);
    assert_eq!(s, "4096");
    let mut s = String::new();
    val(freebsd::AT_NCPUS, 8).write_val_alt_freebsd(&mut s, Some("x"));
    assert_eq!(s, "0x8");
    let mut s = String::new();
    val(17, 100).write_val_alt_freebsd(&mut s, None);
    assert_eq!(s, "0x64");
}

#[test]
fn freebsd_executable_path_is_a_string() {
    assert!(Type(freebsd::AT_EXECPATH).names_string_freebsd());
    assert!(!Type(AT_EXECFN).names_string_freebsd());
    let mut s = String::new();
    val(freebsd::AT_EXECPATH, 0).write_val_alt_freebsd(&mut s, Some("/bin/sh"));
    assert_eq!(s, "???");
    let mut s = String::new();
    val(freebsd::AT_EXECPATH, 0x4000).write_val_alt_freebsd(&mut s, Some("/bin/sh"));
    assert_eq!(s, "/bin/sh");
    let mut s = String::new();
    val(freebsd::AT_EXECPATH, 0x4000).write_val_alt_freebsd(&mut s, None);
    assert_eq!(s, "???");
}

#[test]
fn other_systems_know_only_common_keys() {
    assert_eq!(Type(AT_UID).to_str_generic(), Some("AT_UID"));
    assert_eq!(Type(AT_HWCAP2).to_str_generic(), Some("AT_HWCAP2"));
    assert_eq!(Type(AT_PLATFORM).to_str_generic(), None);
    let mut s = String::new();
    val(AT_PAGESZ, 4096).write_val_alt_generic(&mut s);
    assert_eq!(s, "4096");
    let mut s = String::new();
    val(17, 100).write_val_alt_generic(&mut s);
    assert_eq!(s, "0x64");
    let mut s = String::new();
    val(AT_PHDR, 64).write_val_alt_generic(&mut s);
    assert_eq!(s, "0x40");
}

#[test]
fn word_addresses() {
    assert_eq!(address_of(0x1000, 3), Some(0x1018));
    assert_eq!(address_of(0, 0), Some(0));
    assert_eq!(address_of(u64::MAX - 7, 1), None);
    assert_eq!(address_of(u64::MAX - 8, 1), Some(u64::MAX));
}

#[test]
fn powerpc_key_values() {
    assert_eq!(
        [AT_FPUCW, AT_DCACHEBSIZE, AT_ICACHEBSIZE, AT_UCACHEBSIZE, AT_IGNOREPPC],
        [18, 19, 20, 21, 22]
    );
    assert_eq!(Type(AT_FPUCW).to_str(), None);
}
