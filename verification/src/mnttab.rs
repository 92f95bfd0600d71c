//! The mount table.
//!
//! A mounted dataset's entry carries the filesystem type, the mount
//! options as one comma-separated word, the mount point and the mounted
//! device.  The option lookup is exact: an option is present when it
//! stands between commas (or an end) of the option word.

use vstd::prelude::*;
use vstd::string::StringSliceAdditionalSpecFns;

verus! {

/// The byte the option word separates its options with.
pub const OPT_SEPARATOR: u8 = 44;

/// Holds when `opt` stands at position `i` of the option word `s`,
/// bounded by separators or the word's ends.
pub open spec fn is_option_at(s: Seq<u8>, opt: Seq<u8>, i: int) -> bool {
    &&& 0 <= i
    &&& i + opt.len() <= s.len()
    &&& s.subrange(i, i + opt.len()) == opt
    &&& (i == 0 || s[i - 1] == OPT_SEPARATOR)
    &&& (i + opt.len() == s.len() || s[i + opt.len()] == OPT_SEPARATOR)
}

/// Holds when `opt` is one of the comma-separated options of `s`.
pub open spec fn has_mnt_option(s: Seq<u8>, opt: Seq<u8>) -> bool {
    !opt.contains(OPT_SEPARATOR) && exists|i: int| is_option_at(s, opt, i)
}

/// The mathematical image of a [`Mnttab`] entry.
pub struct MnttabView {
    pub fstype: Seq<char>,
    pub mntopts: Seq<char>,
    pub mountp: Seq<char>,
    pub special: Seq<char>,
}

/// One entry of the mount table.
#[derive(Debug)]
pub struct Mnttab {
    fstype: String,
    mntopts: String,
    mountp: String,
    special: String,
}

impl View for Mnttab {
    type V = MnttabView;

    closed spec fn view(&self) -> MnttabView {
        MnttabView {
            fstype: self.fstype@,
            mntopts: self.mntopts@,
            mountp: self.mountp@,
            special: self.special@,
        }
    }
}

impl Clone for Mnttab {
    fn clone(&self) -> (r: Self)
        ensures
            r@ == self@,
    {
        Mnttab {
            fstype: self.fstype.clone(),
            mntopts: self.mntopts.clone(),
            mountp: self.mountp.clone(),
            special: self.special.clone(),
        }
    }
}

impl Mnttab {
    /// Builds an entry from the four fields the platform's table stores.
    pub fn from_entry(fstype: String, mntopts: String, mountp: String, special: String) -> (r:
        Mnttab)
        ensures
            r@.fstype == fstype@,
            r@.mntopts == mntopts@,
            r@.mountp == mountp@,
            r@.special == special@,
    {
        Mnttab { fstype, mntopts, mountp, special }
    }

    /// The filesystem type of the entry.
    pub fn _fstype(&self) -> (r: &str)
        ensures
            r@ == self@.fstype,
    {
        self.fstype.as_str()
    }

    /// The mount options of the entry, as one comma-separated word.
    pub fn mntopts(&self) -> (r: &str)
        ensures
            r@ == self@.mntopts,
    {
        self.mntopts.as_str()
    }

    /// The mount point of the entry.
    pub fn _mountp(&self) -> (r: &str)
        ensures
            r@ == self@.mountp,
    {
        self.mountp.as_str()
    }

    /// The mounted device of the entry.
    pub fn _special(&self) -> (r: &str)
        ensures
            r@ == self@.special,
    {
        self.special.as_str()
    }

    /// Whether `opt` is one of the entry's comma-separated mount options.
    pub fn hasmntopt(&self, opt: &str) -> (r: bool)
        ensures
            r == has_mnt_option(
                vstd::utf8::encode_utf8(self@.mntopts),
                vstd::utf8::encode_utf8(opt@),
            ),
    {
        has_option_word(self.mntopts.as_str(), opt)
    }

    /// Finds the first mount-table entry mounted from `name`.
    pub fn find(entries: &Vec<Mnttab>, name: &str) -> (r: Option<Mnttab>)
        ensures
            r matches Some(m) ==> exists|i: int|
                #[trigger] first_mnttab_match(entries@, name@, i) && m@ == entries@[i]@,
            r is None ==> forall|i: int|
                0 <= i < entries@.len() ==> (#[trigger] entries@[i])@.special != name@,
    {
        let mut i: usize = 0;
        while i < entries.len()
            invariant
                i <= entries@.len(),
                forall|j: int| 0 <= j < i ==> (#[trigger] entries@[j])@.special != name@,
            decreases entries@.len() - i,
        {
            if crate::text::str_eq(entries[i]._special(), name) {
                let m = entries[i].clone();
                proof {
                    assert(first_mnttab_match(entries@, name@, i as int));
                }
                return Some(m);
            }
            i = i + 1;
        }
        None
    }
}

/// Whether `ob` holds the separator byte.
fn contains_separator(ob: &[u8]) -> (r: bool)
    ensures
        r == ob@.contains(OPT_SEPARATOR),
{
    let mut i: usize = 0;
    while i < ob.len()
        invariant
            i <= ob@.len(),
            forall|j: int| 0 <= j < i ==> ob@[j] != OPT_SEPARATOR,
        decreases ob@.len() - i,
    {
        if ob[i] == OPT_SEPARATOR {
            return true;
        }
        i = i + 1;
    }
    proof {
        assert(!ob@.contains(OPT_SEPARATOR));
    }
    false
}

/// Whether the bytes `[start, start + n)` of `sb` are exactly `ob`.
fn range_matches(sb: &[u8], start: usize, ob: &[u8]) -> (r: bool)
    requires
        start + ob@.len() <= sb@.len(),
    ensures
        r == (sb@.subrange(start as int, start as int + ob@.len() as int) == ob@),
{
    let total = sb.len();
    let mut k: usize = 0;
    while k < ob.len()
        invariant
            k <= ob@.len(),
            total == sb@.len(),
            start + ob@.len() <= sb@.len(),
            forall|j: int| 0 <= j < k ==> sb@[start + j] == ob@[j],
        decreases ob@.len() - k,
    {
        if sb[start + k] != ob[k] {
            proof {
                assert(sb@.subrange(start as int, start as int + ob@.len() as int)[k as int]
                    == sb@[start + k]);
            }
            return false;
        }
        k = k + 1;
    }
    proof {
        assert(sb@.subrange(start as int, start as int + ob@.len() as int) =~= ob@);
    }
    true
}

/// Whether `opt` is one of the comma-separated options of `word`.
fn has_option_word(word: &str, opt: &str) -> (r: bool)
    ensures
        r == has_mnt_option(word.spec_bytes(), opt.spec_bytes()),
{
    let sb = word.as_bytes();
    let ob = opt.as_bytes();
    if contains_separator(ob) {
        return false;
    }
    let mut start: usize = 0;
    loop
        invariant
            start <= sb@.len(),
            sb@ == word.spec_bytes(),
            ob@ == opt.spec_bytes(),
            !ob@.contains(OPT_SEPARATOR),
            start == 0 || sb@[start - 1] == OPT_SEPARATOR,
            forall|i: int| 0 <= i < start ==> !is_option_at(sb@, ob@, i),
        decreases sb@.len() - start,
    {
        let mut end: usize = start;
        while end < sb.len() && sb[end] != OPT_SEPARATOR
            invariant
                start <= end <= sb@.len(),
                forall|j: int| start <= j < end ==> sb@[j] != OPT_SEPARATOR,
            decreases sb@.len() - end,
        {
            end = end + 1;
        }
        if end - start == ob.len() {
            if range_matches(sb, start, ob) {
                proof {
                    assert(is_option_at(sb@, ob@, start as int));
                }
                return true;
            }
        }
        proof {
            assert forall|i: int| start <= i < end + 1 implies !is_option_at(sb@, ob@, i) by {
                if i == start {
                    if end - start != ob@.len() {
                        if is_option_at(sb@, ob@, i) {
                            if ob@.len() < end - start {
                                assert(sb@[start + ob@.len()] != OPT_SEPARATOR);
                                assert(start + ob@.len() < sb@.len());
                            } else {
                                assert(ob@.len() > end - start);
                                if end < sb@.len() {
                                    assert(sb@.subrange(i, i + ob@.len())[end - start]
                                        == sb@[end as int]);
                                    assert(ob@[end - start] == OPT_SEPARATOR);
                                    assert(ob@.contains(OPT_SEPARATOR));
                                } else {
                                    assert(i + ob@.len() > sb@.len());
                                }
                            }
                        }
                    }
                } else if i < end {
                    assert(sb@[i - 1] != OPT_SEPARATOR);
                } else {
                    assert(i == end);
                    assert(i > start);
                    assert(sb@[i - 1] != OPT_SEPARATOR);
                }
            }
        }
        if end == sb.len() {
            proof {
                assert forall|i: int| !is_option_at(sb@, ob@, i) by {
                    if 0 <= i && i + ob@.len() <= sb@.len() {
                        if i < end + 1 {
                        } else {
                            assert(i > end);
                            assert(i + ob@.len() > sb@.len());
                        }
                    }
                }
            }
            return false;
        }
        start = end + 1;
    }
}

/// Holds when position `i` is the first entry of `entries` mounted from
/// `special`.
pub open spec fn first_mnttab_match(entries: Seq<Mnttab>, special: Seq<char>, i: int) -> bool {
    &&& 0 <= i < entries.len()
    &&& entries[i]@.special == special
    &&& forall|j: int| 0 <= j < i ==> (#[trigger] entries[j])@.special != special
}

} // verus!
