use vstd::prelude::*;

verus! {

use crate::errors::MoveError;

/// The mathematical image of a parsed store location.
#[verifier::ext_equal]
pub struct LocView {
    pub container: Seq<char>,
    pub key_prefix: Option<Seq<char>>,
}

/// A parsed store location: a container (bucket) name and an optional key
/// prefix. The prefix, when present, is non-empty: an empty trailing key
/// path is normalized to "no prefix".
pub struct StoreLocation {
    pub container: String,
    pub key_prefix: Option<String>,
}

impl View for StoreLocation {
    type V = LocView;

    open spec fn view(&self) -> LocView {
        LocView {
            container: self.container@,
            key_prefix: match self.key_prefix {
                Some(p) => Some(p@),
                None => None,
            },
        }
    }
}

/// The fixed scheme every location string starts with.
pub open spec fn spec_scheme() -> Seq<char> {
    seq!['s', '3', ':', '/', '/']
}

/// The first position at or after `from` where `c` occurs in `s`, if any.
pub open spec fn find_char(s: Seq<char>, c: char, from: int) -> Option<int>
    decreases s.len() - from
    when 0 <= from <= s.len()
{
    if from >= s.len() {
        None
    } else if s[from] == c {
        Some(from)
    } else {
        find_char(s, c, from + 1)
    }
}

/// What a location string denotes: `None` when it does not match the
/// grammar `s3://container/keypath` (container non-empty, slash-free;
/// keypath arbitrary, possibly empty), the parsed location otherwise.
pub open spec fn spec_parse(s: Seq<char>) -> Option<LocView> {
    if s.len() < 5 || s.subrange(0, 5) != spec_scheme() {
        None
    } else {
        match find_char(s, '/', 5) {
            None => None,
            Some(j) => {
                if j == 5 {
                    None
                } else {
                    let rest = s.subrange(j + 1, s.len() as int);
                    Some(LocView {
                        container: s.subrange(5, j),
                        key_prefix: if rest.len() > 0 { Some(rest) } else { None },
                    })
                }
            },
        }
    }
}

/// The canonical string of a location: scheme, container, one slash, then
/// the prefix (empty when absent).
pub open spec fn spec_serialize(l: LocView) -> Seq<char> {
    spec_scheme() + l.container + seq!['/'] + (match l.key_prefix {
        Some(p) => p,
        None => Seq::<char>::empty(),
    })
}

/// The invariant every parsed location satisfies.
pub open spec fn loc_well_formed(l: LocView) -> bool {
    &&& l.container.len() > 0
    &&& (forall|i: int| 0 <= i < l.container.len() ==> l.container[i] != '/')
    &&& (l.key_prefix matches Some(p) ==> p.len() > 0)
}

proof fn lemma_find_char_at(s: Seq<char>, c: char, from: int, j: int)
    requires
        0 <= from <= j < s.len(),
        s[j] == c,
        forall|k: int| from <= k < j ==> s[k] != c,
    ensures
        find_char(s, c, from) == Some(j),
    decreases j - from,
{
    if from < j {
        lemma_find_char_at(s, c, from + 1, j);
    }
}

proof fn lemma_find_char_none(s: Seq<char>, c: char, from: int)
    requires
        0 <= from <= s.len(),
        forall|k: int| from <= k < s.len() ==> s[k] != c,
    ensures
        find_char(s, c, from) is None,
    decreases s.len() - from,
{
    if from < s.len() {
        lemma_find_char_none(s, c, from + 1);
    }
}

proof fn lemma_find_char_props(s: Seq<char>, c: char, from: int)
    requires
        0 <= from <= s.len(),
    ensures
        find_char(s, c, from) matches Some(j) ==> from <= j < s.len() && s[j] == c
            && (forall|k: int| from <= k < j ==> s[k] != c),
    decreases s.len() - from,
{
    if from < s.len() && s[from] != c {
        lemma_find_char_props(s, c, from + 1);
    }
}

/// Every location the grammar accepts is well-formed: non-empty container
/// without a slash, and a non-empty prefix when one is present.
pub proof fn lemma_parse_well_formed(s: Seq<char>)
    ensures
        spec_parse(s) matches Some(l) ==> loc_well_formed(l),
{
    if s.len() >= 5 && s.subrange(0, 5) == spec_scheme() {
        lemma_find_char_props(s, '/', 5);
    }
}

/// Parses a location string. Returns the parsed location exactly when the
/// string matches the grammar, and `MalformedLocation` otherwise.
pub fn parse_location(s: &str) -> (r: Result<StoreLocation, MoveError>)
    ensures
        match r {
            Ok(loc) => spec_parse(s@) == Some(loc@) && loc_well_formed(loc@),
            Err(e) => spec_parse(s@) is None && e == MoveError::MalformedLocation,
        },
{
    let n = s.unicode_len();
    if n < 6 {
        return Err(MoveError::MalformedLocation);
    }
    if s.get_char(0) != 's' || s.get_char(1) != '3' || s.get_char(2) != ':' || s.get_char(3)
        != '/' || s.get_char(4) != '/' {
        proof {
            assert(s@.subrange(0, 5) != spec_scheme()) by {
                if s@.subrange(0, 5) == spec_scheme() {
                    assert(s@[0] == spec_scheme()[0]);
                    assert(s@[1] == spec_scheme()[1]);
                    assert(s@[2] == spec_scheme()[2]);
                    assert(s@[3] == spec_scheme()[3]);
                    assert(s@[4] == spec_scheme()[4]);
                }
            }
        }
        return Err(MoveError::MalformedLocation);
    }
    proof {
        assert(s@.subrange(0, 5) =~= spec_scheme());
    }
    let mut i: usize = 5;
    let mut found = false;
    while !found && i < n
        invariant
            5 <= i <= n,
            n == s@.len(),
            forall|k: int| 5 <= k < i ==> s@[k] != '/',
            found ==> i < n && s@[i as int] == '/',
        decreases n - i + (if found { 0int } else { 1int }),
    {
        if s.get_char(i) == '/' {
            found = true;
        } else {
            i += 1;
        }
    }
    if !found {
        proof {
            lemma_find_char_none(s@, '/', 5);
        }
        return Err(MoveError::MalformedLocation);
    }
    proof {
        lemma_find_char_at(s@, '/', 5, i as int);
    }
    if i == 5 {
        return Err(MoveError::MalformedLocation);
    }
    let container = String::from_str(s.substring_char(5, i));
    let rest = s.substring_char(i + 1, n);
    let key_prefix = if rest.unicode_len() > 0 {
        Some(String::from_str(rest))
    } else {
        None
    };
    let loc = StoreLocation { container, key_prefix };
    proof {
        assert(spec_parse(s@) matches Some(l) && l =~= loc@);
        lemma_parse_well_formed(s@);
    }
    Ok(loc)
}

/// Writes a location back as a string: scheme, container, one slash, then
/// the prefix when present.
pub fn serialize_location(loc: &StoreLocation) -> (r: String)
    ensures
        r@ == spec_serialize(loc@),
{
    proof {
        reveal_strlit("s3://");
        reveal_strlit("/");
    }
    let mut out = String::from_str("s3://");
    out.append(loc.container.as_str());
    out.append("/");
    match &loc.key_prefix {
        Some(p) => out.append(p.as_str()),
        None => {},
    }
    proof {
        assert("s3://"@ =~= spec_scheme());
        assert(out@ =~= spec_serialize(loc@));
    }
    out
}

/// Law: serializing a well-formed location and parsing the result gives the
/// same location back.
pub proof fn lemma_serialize_parse(l: LocView)
    requires
        loc_well_formed(l),
    ensures
        spec_parse(spec_serialize(l)) == Some(l),
{
    let s = spec_serialize(l);
    let clen = l.container.len() as int;
    assert(s.subrange(0, 5) =~= spec_scheme());
    assert(s[5 + clen] == '/');
    assert(forall|k: int| 5 <= k < 5 + clen ==> s[k] == l.container[k - 5] && s[k] != '/');
    lemma_find_char_at(s, '/', 5, 5 + clen);
    assert(s.subrange(5, 5 + clen) =~= l.container);
    match l.key_prefix {
        Some(p) => {
            assert(s.subrange(5 + clen + 1, s.len() as int) =~= p);
            assert(spec_parse(s) matches Some(r) && r =~= l);
        },
        None => {
            assert(s.subrange(5 + clen + 1, s.len() as int) =~= Seq::<char>::empty());
            assert(spec_parse(s) matches Some(r) && r =~= l);
        },
    }
}

/// Law: for every string the grammar accepts, parsing and then
/// re-serializing round-trips — the serialized form parses back to the very
/// same container and effective prefix.
pub proof fn lemma_parse_round_trip(s: Seq<char>)
    requires
        spec_parse(s) is Some,
    ensures
        spec_parse(spec_serialize(spec_parse(s)->Some_0)) == spec_parse(s),
{
    lemma_parse_well_formed(s);
    lemma_serialize_parse(spec_parse(s)->Some_0);
}

} // verus!
