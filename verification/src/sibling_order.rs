//! The order in which the entries of one directory are shown: directories
//! before files, then by lower-cased name, byte by byte.

use vstd::prelude::*;
use vstd::string::*;
use vstd::utf8::encode_utf8;

verus! {

/// The lower-case form of a text, as `str::to_lowercase` computes it.
pub uninterp spec fn lowercase(text: Seq<char>) -> Seq<char>;

/// Calls `str::to_lowercase` of the standard library, which gives the
/// lower-case equivalent of a text as Unicode defines it. The result depends
/// on the text alone; nothing else is claimed of it.
#[verifier::external_body]
fn to_lowercase(text: &str) -> (lowered: String)
    ensures
        lowered@ == lowercase(text@),
{
    text.to_lowercase()
}

/// Lexicographic "less than" on byte strings, looking only at positions from
/// `from` on.
pub open spec fn bytes_before_from(a: Seq<u8>, b: Seq<u8>, from: int) -> bool
    decreases a.len() - from,
{
    if from < 0 || from >= b.len() {
        false
    } else if from >= a.len() {
        true
    } else if a[from] != b[from] {
        a[from] < b[from]
    } else {
        bytes_before_from(a, b, from + 1)
    }
}

/// Lexicographic "less than" on byte strings: at the first position where the
/// two differ the smaller byte decides, and a proper prefix comes first.
pub open spec fn bytes_before(a: Seq<u8>, b: Seq<u8>) -> bool {
    bytes_before_from(a, b, 0)
}

/// No byte string comes before one that comes before it.
pub proof fn lemma_bytes_before_asymmetric(a: Seq<u8>, b: Seq<u8>, from: int)
    requires
        bytes_before_from(a, b, from),
    ensures
        !bytes_before_from(b, a, from),
    decreases a.len() - from,
{
    if from < a.len() && from < b.len() && a[from] == b[from] {
        lemma_bytes_before_asymmetric(a, b, from + 1);
    }
}

/// Whatever stands between two ordered byte strings is after the first or
/// before the second.
pub proof fn lemma_bytes_before_splits(a: Seq<u8>, b: Seq<u8>, c: Seq<u8>, from: int)
    requires
        bytes_before_from(a, c, from),
    ensures
        bytes_before_from(a, b, from) || bytes_before_from(b, c, from),
    decreases c.len() - from,
{
    if from < a.len() && from < b.len() && from < c.len() && a[from] == b[from] && b[from]
        == c[from] {
        lemma_bytes_before_splits(a, b, c, from + 1);
    }
}

/// Compares two byte strings lexicographically.
pub fn bytes_less(a: &[u8], b: &[u8]) -> (less: bool)
    ensures
        less == bytes_before(a@, b@),
{
    let mut i: usize = 0;
    while i < a.len() && i < b.len() && a[i] == b[i]
        invariant
            i <= a.len(),
            i <= b.len(),
            bytes_before(a@, b@) == bytes_before_from(a@, b@, i as int),
        decreases a.len() - i,
    {
        i = i + 1;
    }
    if i >= b.len() {
        false
    } else if i >= a.len() {
        true
    } else {
        a[i] < b[i]
    }
}

/// The bytes by which a name is ordered among its siblings.
pub open spec fn name_key(name: Seq<char>) -> Seq<u8> {
    encode_utf8(lowercase(name))
}

/// `a` is shown strictly before `b`: a directory before a file, and among
/// entries of one kind the one whose lower-cased name is smaller.
pub open spec fn shown_before(
    a_is_dir: bool,
    a_name: Seq<char>,
    b_is_dir: bool,
    b_name: Seq<char>,
) -> bool {
    if a_is_dir != b_is_dir {
        a_is_dir
    } else {
        bytes_before(name_key(a_name), name_key(b_name))
    }
}

/// What decides an entry's place among its siblings, computed once.
#[derive(Debug)]
pub struct SortKey {
    /// Whether the entry is a directory.
    pub is_dir: bool,
    /// The bytes of the entry's lower-cased name.
    pub bytes: Vec<u8>,
}

impl SortKey {
    /// This is the key of an entry of the given kind and name.
    pub open spec fn is_key_of(self, is_dir: bool, name: Seq<char>) -> bool {
        self.is_dir == is_dir && self.bytes@ == name_key(name)
    }

    /// The entry with this key is shown strictly before the one with `other`.
    pub open spec fn precedes(self, other: SortKey) -> bool {
        if self.is_dir != other.is_dir {
            self.is_dir
        } else {
            bytes_before(self.bytes@, other.bytes@)
        }
    }

    /// Computes the key of an entry.
    pub fn of(is_dir: bool, name: &str) -> (key: SortKey)
        ensures
            key.is_key_of(is_dir, name@),
    {
        let lowered = to_lowercase(name);
        SortKey { is_dir, bytes: lowered.as_str().as_bytes_vec() }
    }

    /// Decides whether the entry with this key is shown strictly before the
    /// one with `other`.
    pub fn is_before(&self, other: &SortKey) -> (before: bool)
        ensures
            before == self.precedes(*other),
    {
        if self.is_dir != other.is_dir {
            self.is_dir
        } else {
            bytes_less(self.bytes.as_slice(), other.bytes.as_slice())
        }
    }
}

/// Decides whether the first entry is shown strictly before the second.
pub fn is_shown_before(a_is_dir: bool, a_name: &str, b_is_dir: bool, b_name: &str) -> (before:
    bool)
    ensures
        before == shown_before(a_is_dir, a_name@, b_is_dir, b_name@),
{
    if a_is_dir != b_is_dir {
        a_is_dir
    } else {
        SortKey::of(a_is_dir, a_name).is_before(&SortKey::of(b_is_dir, b_name))
    }
}

} // verus!
