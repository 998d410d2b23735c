//! Domain names as sequences of labels, and the zone relation between them.

use std::str::FromStr;
use vstd::prelude::*;

verus! {

/// A domain name: its labels, leftmost first, each label a string of bytes.
///
/// Names that come off the wire are lower-cased by the transport; names that
/// come from text are lower-cased when they are parsed. Matching compares bytes.
#[derive(Debug, PartialEq, Eq)]
pub struct Name {
    pub labels: Vec<Vec<u8>>,
}

impl View for Name {
    type V = Seq<Seq<u8>>;

    open spec fn view(&self) -> Seq<Seq<u8>> {
        self.labels@.map_values(|label: Vec<u8>| label@)
    }
}

/// The most characters that a text may have to be read as a domain name.
/// A name within the limits of DNS needs fewer, even with every byte
/// written as an escape.
pub const MAX_NAME_TEXT: usize = 1024;

/// The most that a text may weigh to be read as a domain name.
pub const MAX_NAME_WEIGHT: usize = 3855;

/// The most code points that one character of text can become before a
/// label is encoded: one for an ASCII character, and eighteen for any other,
/// which is the longest replacement that the IDNA mapping knows.
pub open spec fn char_weight(c: char) -> nat {
    if (c as u32) < 128 {
        1
    } else {
        18
    }
}

/// The weights of the characters of `text`, added up: a bound on the code
/// points of any label of `text` after the IDNA mapping.
pub open spec fn text_weight(text: Seq<char>) -> nat
    decreases text.len(),
{
    if text.len() == 0 {
        0
    } else {
        text_weight(text.drop_last()) + char_weight(text.last())
    }
}

/// Whether `text` is short and light enough to be read as a domain name:
/// at most [`MAX_NAME_TEXT`] characters that weigh at most
/// [`MAX_NAME_WEIGHT`].
pub open spec fn admitted_text(text: Seq<char>) -> bool {
    text.len() <= MAX_NAME_TEXT && text_weight(text) <= MAX_NAME_WEIGHT
}

/// The labels that trust-dns reads from `text` as a domain name and then
/// lower-cases, leftmost first; `None` where it rejects the text.
pub uninterp spec fn parsed_name(text: Seq<char>) -> Option<Seq<Seq<u8>>>;

/// The labels that `text` is read as: none where the text is not admitted,
/// else what trust-dns reads from it.
pub open spec fn accepted_name(text: Seq<char>) -> Option<Seq<Seq<u8>>> {
    if admitted_text(text) {
        parsed_name(text)
    } else {
        None
    }
}

/// Calls `LowerName::from_str` of trust-dns, which parses `text` as a domain
/// name (dots separate labels, a backslash escapes, labels go through IDNA)
/// and lower-cases it. Nothing is proved of this: the contract only gives
/// the outcome its name, [`parsed_name`], the labels on success and `None`
/// on rejection.
///
/// The IDNA step maps and normalises a label, which can make eighteen code
/// points of one character, and encodes the result before any length is
/// checked. The encoder counts in 32 bits: it multiplies a difference of
/// code points, below 1,114,112, by the number of code points of the label,
/// and overflows on a label of 3856 or more. The bound on the weight of the
/// text keeps every label below that.
#[verifier::external_body]
pub(crate) fn parse_lower_name(text: &str) -> (name: Option<Name>)
    requires
        admitted_text(text@),
    ensures
        match name {
            Some(found) => parsed_name(text@) == Some(found@),
            None => parsed_name(text@) is None,
        },
{
    match trust_dns_server::client::rr::LowerName::from_str(text) {
        Ok(lower) => {
            let parsed: trust_dns_server::client::rr::Name = lower.into();
            Some(Name { labels: parsed.iter().map(|label| label.to_vec()).collect() })
        },
        Err(_) => None,
    }
}

/// Whether `text` is admitted to be read as a domain name.
pub fn admits(text: &str) -> (admitted: bool)
    ensures
        admitted == admitted_text(text@),
{
    let len = text.unicode_len();
    if len > MAX_NAME_TEXT {
        return false;
    }
    let mut weight: usize = 0;
    let mut i: usize = 0;
    while i < len
        invariant
            len == text@.len(),
            len <= MAX_NAME_TEXT,
            i <= len,
            weight == text_weight(text@.take(i as int)),
            weight <= 18 * i,
        decreases len - i,
    {
        let c = text.get_char(i);
        assert(text@.take(i + 1).drop_last() == text@.take(i as int));
        assert(text@.take(i + 1).last() == c);
        if (c as u32) < 128 {
            weight = weight + 1;
        } else {
            weight = weight + 18;
        }
        i += 1;
    }
    assert(text@.take(len as int) == text@);
    weight <= MAX_NAME_WEIGHT
}

/// The name one label below `parent`.
pub open spec fn child_of(label: Seq<u8>, parent: Seq<Seq<u8>>) -> Seq<Seq<u8>> {
    seq![label] + parent
}

/// A copy of `bytes`.
pub fn copy_bytes(bytes: &Vec<u8>) -> (copy: Vec<u8>)
    ensures
        copy@ == bytes@,
{
    let mut copy: Vec<u8> = Vec::new();
    let mut i: usize = 0;
    while i < bytes.len()
        invariant
            i <= bytes.len(),
            copy@ == bytes@.subrange(0, i as int),
        decreases bytes.len() - i,
    {
        copy.push(bytes[i]);
        i += 1;
    }
    assert(bytes@.subrange(0, bytes.len() as int) == bytes@);
    copy
}

/// Whether two byte strings are equal.
pub fn same_bytes(a: &Vec<u8>, b: &Vec<u8>) -> (same: bool)
    ensures
        same == (a@ == b@),
{
    if a.len() != b.len() {
        return false;
    }
    let mut i: usize = 0;
    while i < a.len()
        invariant
            a.len() == b.len(),
            i <= a.len(),
            a@.subrange(0, i as int) == b@.subrange(0, i as int),
        decreases a.len() - i,
    {
        if a[i] != b[i] {
            return false;
        }
        assert(a@.subrange(0, i + 1) == a@.subrange(0, i as int).push(a@[i as int]));
        assert(b@.subrange(0, i + 1) == b@.subrange(0, i as int).push(b@[i as int]));
        i += 1;
    }
    assert(a@.subrange(0, a.len() as int) == a@);
    assert(b@.subrange(0, b.len() as int) == b@);
    true
}

impl Clone for Name {
    fn clone(&self) -> (copy: Self)
        ensures
            copy@ == self@,
    {
        let mut labels: Vec<Vec<u8>> = Vec::new();
        let mut i: usize = 0;
        while i < self.labels.len()
            invariant
                i <= self.labels.len(),
                labels.len() == i,
                forall|j: int| 0 <= j < i ==> labels@[j]@ == self.labels@[j]@,
            decreases self.labels.len() - i,
        {
            let label = copy_bytes(&self.labels[i]);
            labels.push(label);
            i += 1;
        }
        let copy = Name { labels };
        assert(copy@ =~= self@);
        copy
    }
}

impl Name {
    /// Reads `text` as a domain name and lower-cases it. There is none where
    /// the text is not admitted (too long, or too heavy with characters
    /// other than ASCII), nor where trust-dns rejects it.
    pub fn parse(text: &str) -> (name: Option<Name>)
        ensures
            !admitted_text(text@) ==> name is None,
            match accepted_name(text@) {
                Some(labels) => name matches Some(found) && found@ == labels,
                None => name is None,
            },
    {
        if admits(text) {
            parse_lower_name(text)
        } else {
            None
        }
    }

    /// The name without labels, which every name lies under.
    pub fn root() -> (name: Name)
        ensures
            name@ == Seq::<Seq<u8>>::empty(),
    {
        Name { labels: Vec::new() }
    }

    /// The name one label below this one.
    pub fn child(&self, label: &Vec<u8>) -> (name: Name)
        ensures
            name@ == child_of(label@, self@),
    {
        let mut labels: Vec<Vec<u8>> = Vec::new();
        labels.push(copy_bytes(label));
        let mut i: usize = 0;
        while i < self.labels.len()
            invariant
                i <= self.labels.len(),
                labels.len() == i + 1,
                labels@[0]@ == label@,
                forall|j: int| 0 <= j < i ==> labels@[j + 1]@ == self.labels@[j]@,
            decreases self.labels.len() - i,
        {
            let next = copy_bytes(&self.labels[i]);
            labels.push(next);
            i += 1;
        }
        let name = Name { labels };
        assert(name@ =~= child_of(label@, self@));
        name
    }

    /// Whether this name, taken as a zone, claims `name`: whether its labels
    /// are the last labels of `name`. Every name is claimed by itself and by
    /// the name without labels.
    pub fn zone_of(&self, name: &Name) -> (claims: bool)
        ensures
            claims == self@.is_suffix_of(name@),
    {
        let zone_len = self.labels.len();
        let name_len = name.labels.len();
        if zone_len > name_len {
            return false;
        }
        let skip = name_len - zone_len;
        let mut i: usize = 0;
        while i < zone_len
            invariant
                zone_len == self.labels.len(),
                name_len == name.labels.len(),
                zone_len <= name_len,
                skip == name_len - zone_len,
                i <= zone_len,
                forall|j: int| 0 <= j < i ==> self@[j] == name@[skip + j],
            decreases zone_len - i,
        {
            if !same_bytes(&self.labels[i], &name.labels[skip + i]) {
                assert(name@.subrange(skip as int, name_len as int)[i as int] == name@[skip + i]);
                return false;
            }
            i += 1;
        }
        assert(self@ =~= name@.subrange(skip as int, name_len as int));
        true
    }
}

} // verus!
