use vstd::prelude::*;

verus! {

/// The byte that separates a comment's key from its value: `=`.
pub const SEPARATOR: u8 = 61;

/// The text that `String::from_utf8_lossy` makes of a byte string.
pub uninterp spec fn lossy_utf8(b: Seq<u8>) -> Seq<char>;

/// The text that `str::to_uppercase` makes of a string.
pub uninterp spec fn upper_of(s: Seq<char>) -> Seq<char>;

/// Relies on String::from_utf8_lossy: the bytes decoded as UTF-8, each invalid
/// sequence replaced by U+FFFD; the text depends on the bytes alone.
#[verifier::external_body]
fn decode_lossy(b: &[u8]) -> (r: String)
    ensures
        r@ == lossy_utf8(b@),
        b@.len() == 0 ==> r@.len() == 0,
{
    String::from_utf8_lossy(b).into_owned()
}

/// Relies on str::to_uppercase: the upper-case form of the text, which depends
/// on the characters alone.
#[verifier::external_body]
fn to_upper(s: &str) -> (r: String)
    ensures
        r@ == upper_of(s@),
        s@.len() == 0 ==> r@.len() == 0,
{
    s.to_uppercase()
}

/// `i` is the position of the first separator in `b`.
pub open spec fn is_first_separator(b: Seq<u8>, i: int) -> bool {
    &&& 0 <= i < b.len()
    &&& b[i] == SEPARATOR
    &&& forall|j: int| 0 <= j < i ==> b[j] != SEPARATOR
}

/// A comment split at its first separator into key bytes and value bytes;
/// `None` for a comment without one.
pub open spec fn spec_split(b: Seq<u8>) -> Option<(Seq<u8>, Seq<u8>)> {
    if exists|i: int| is_first_separator(b, i) {
        let i = choose|i: int| is_first_separator(b, i);
        Some((b.subrange(0, i), b.subrange(i + 1, b.len() as int)))
    } else {
        None
    }
}

/// The (key, value) pair that a comment yields: the key decoded and upper-cased,
/// the value decoded; `None` for a comment without a separator.
pub open spec fn spec_parse(b: Seq<u8>) -> Option<(Seq<char>, Seq<char>)> {
    match spec_split(b) {
        Some((k, v)) => Some((upper_of(lossy_utf8(k)), lossy_utf8(v))),
        None => None,
    }
}

/// The pairs that a comment list yields, in order, with the comments that lack
/// a separator left out.
pub open spec fn kept_pairs(cs: Seq<Seq<u8>>) -> Seq<(Seq<char>, Seq<char>)>
    decreases cs.len(),
{
    if cs.len() == 0 {
        Seq::empty()
    } else {
        let rest = kept_pairs(cs.drop_last());
        match spec_parse(cs.last()) {
            Some(p) => rest.push(p),
            None => rest,
        }
    }
}

/// The pairs of owned strings, seen as pairs of texts.
pub open spec fn pairs_view(v: Seq<(String, String)>) -> Seq<(Seq<char>, Seq<char>)> {
    v.map_values(|p: (String, String)| (p.0@, p.1@))
}

/// Splits a comment at its first separator into key bytes and value bytes, or
/// answers `None` when it holds no separator.
pub fn split_comment(b: &[u8]) -> (r: Option<(Vec<u8>, Vec<u8>)>)
    ensures
        r.is_none() <==> !b@.contains(SEPARATOR),
        r matches Some((k, v)) ==> {
            &&& b@ == k@ + seq![SEPARATOR] + v@
            &&& !k@.contains(SEPARATOR)
        },
        r matches Some((k, v)) ==> spec_split(b@) == Some((k@, v@)),
        r.is_none() ==> spec_split(b@).is_none(),
{
    let mut i: usize = 0;
    while i < b.len()
        invariant
            i <= b@.len(),
            forall|j: int| 0 <= j < i ==> b@[j] != SEPARATOR,
        ensures
            i <= b@.len(),
            forall|j: int| 0 <= j < i ==> b@[j] != SEPARATOR,
            i < b@.len() ==> b@[i as int] == SEPARATOR,
        decreases b.len() - i,
    {
        if b[i] == SEPARATOR {
            break;
        }
        i = i + 1;
    }
    if i == b.len() {
        assert(!b@.contains(SEPARATOR)) by {
            if b@.contains(SEPARATOR) {
                let j = choose|j: int| 0 <= j < b@.len() && b@[j] == SEPARATOR;
                assert(b@[j] != SEPARATOR);
            }
        }
        return None;
    }
    let mut key: Vec<u8> = Vec::new();
    let mut j: usize = 0;
    while j < i
        invariant
            j <= i,
            i < b@.len(),
            key@ == b@.subrange(0, j as int),
        decreases i - j,
    {
        key.push(b[j]);
        j = j + 1;
    }
    let mut value: Vec<u8> = Vec::new();
    let mut m: usize = i + 1;
    while m < b.len()
        invariant
            i < m <= b@.len(),
            value@ == b@.subrange(i + 1, m as int),
        decreases b.len() - m,
    {
        value.push(b[m]);
        m = m + 1;
    }
    proof {
        assert(is_first_separator(b@, i as int));
        let c = choose|c: int| is_first_separator(b@, c);
        if c < i {
            assert(b@[c] != SEPARATOR);
        }
        if i < c {
            assert(b@[i as int] != SEPARATOR);
        }
        assert(c == i);
        assert(b@ =~= key@ + seq![SEPARATOR] + value@);
        assert(!key@.contains(SEPARATOR)) by {
            if key@.contains(SEPARATOR) {
                let q = choose|q: int| 0 <= q < key@.len() && key@[q] == SEPARATOR;
                assert(b@[q] == SEPARATOR);
            }
        }
        assert(b@.contains(SEPARATOR)) by {
            assert(b@[i as int] == SEPARATOR);
        }
    }
    Some((key, value))
}

/// Turns one comment into its (key, value) pair: the text before the first
/// separator, decoded and upper-cased, and the text after it, decoded. A
/// comment without a separator yields nothing.
pub fn parse_comment(b: &[u8]) -> (r: Option<(String, String)>)
    ensures
        r.is_none() <==> !b@.contains(SEPARATOR),
        r matches Some(p) ==> spec_parse(b@) == Some((p.0@, p.1@)),
        r.is_none() ==> spec_parse(b@).is_none(),
{
    match split_comment(b) {
        Some((k, v)) => {
            let key_text = decode_lossy(k.as_slice());
            let key = to_upper(key_text.as_str());
            let value = decode_lossy(v.as_slice());
            Some((key, value))
        },
        None => None,
    }
}

/// The engine's comment block: each comment's bytes, as delimited by its
/// explicit length, and the vendor string's bytes before its terminating NUL.
pub struct NativeTags {
    pub comments: Vec<Vec<u8>>,
    pub vendor: Vec<u8>,
}

impl NativeTags {
    /// The comments' bytes.
    pub open spec fn comments_view(&self) -> Seq<Seq<u8>> {
        self.comments@.map_values(|c: Vec<u8>| c@)
    }
}

/// An owned snapshot of one link's comments: the vendor string, and the
/// (key, value) pairs in the engine's order, duplicates kept.
#[derive(Clone, PartialEq, Eq, Debug)]
pub struct OpusTags {
    pub user_comments: Vec<(String, String)>,
    pub vendor: String,
}

impl OpusTags {
    /// Decodes the engine's comment block into owned pairs and vendor text.
    pub fn from_native(t: &NativeTags) -> (r: OpusTags)
        ensures
            pairs_view(r.user_comments@) == kept_pairs(t.comments_view()),
            r.vendor@ == lossy_utf8(t.vendor@),
    {
        let mut pairs: Vec<(String, String)> = Vec::new();
        let mut i: usize = 0;
        while i < t.comments.len()
            invariant
                i <= t.comments@.len(),
                pairs_view(pairs@) == kept_pairs(t.comments_view().subrange(0, i as int)),
            decreases t.comments@.len() - i,
        {
            let parsed = parse_comment(t.comments[i].as_slice());
            proof {
                let cs = t.comments_view();
                assert(cs.subrange(0, i + 1).drop_last() =~= cs.subrange(0, i as int));
                assert(cs.subrange(0, i + 1).last() == t.comments@[i as int]@);
            }
            match parsed {
                Some(p) => {
                    let ghost before = pairs@;
                    pairs.push(p);
                    assert(pairs_view(pairs@) =~= pairs_view(before).push((p.0@, p.1@)));
                },
                None => {},
            }
            i = i + 1;
        }
        assert(t.comments_view().subrange(0, i as int) =~= t.comments_view());
        let vendor = decode_lossy(t.vendor.as_slice());
        OpusTags { user_comments: pairs, vendor }
    }
}

} // verus!
