//! The app manifest (`package.json`) as far as resource ids and message keys
//! are generated from it: the media resource names, without repetitions, and
//! the message key names.
use vstd::prelude::*;
use vstd::string::StringSliceAdditionalSpecFns;

verus! {

/// A media resource of the manifest.
pub struct Resource {
    pub name: String,
}

/// The resources section of the manifest.
pub struct Resources {
    pub media: Option<Vec<Resource>>,
}

/// The `pebble` section of the manifest.
pub struct Pebble {
    pub message_keys: Option<Vec<String>>,
    pub resources: Option<Resources>,
}

/// The app manifest.
pub struct Package {
    pub pebble: Option<Pebble>,
}

/// The media resource names of the manifest, in order, empty when a section
/// is missing.
pub open spec fn spec_media_names(package: Package) -> Seq<Seq<char>> {
    match package.pebble {
        Some(p) => match p.resources {
            Some(r) => match r.media {
                Some(m) => m@.map_values(|res: Resource| res.name@),
                None => Seq::empty(),
            },
            None => Seq::empty(),
        },
        None => Seq::empty(),
    }
}

/// The message key names of the manifest, in order, empty when missing.
pub open spec fn spec_message_keys(package: Package) -> Seq<Seq<char>> {
    match package.pebble {
        Some(p) => match p.message_keys {
            Some(k) => k@.map_values(|s: String| s@),
            None => Seq::empty(),
        },
        None => Seq::empty(),
    }
}

/// `s` with every element after its first occurrence removed.
pub open spec fn dedup(s: Seq<Seq<char>>) -> Seq<Seq<char>>
    decreases s.len(),
{
    if s.len() == 0 {
        Seq::empty()
    } else {
        let d = dedup(s.drop_last());
        if d.contains(s.last()) {
            d
        } else {
            d.push(s.last())
        }
    }
}

/// The views of a vector of strings.
pub open spec fn string_views(v: Seq<String>) -> Seq<Seq<char>> {
    v.map_values(|s: String| s@)
}

fn contains_name(names: &Vec<String>, name: &String) -> (r: bool)
    ensures
        r == string_views(names@).contains(name@),
{
    let mut i: usize = 0;
    while i < names.len()
        invariant
            i <= names@.len(),
            forall|k: int| 0 <= k < i ==> names@[k]@ != name@,
        decreases names@.len() - i,
    {
        if names[i] == *name {
            assert(string_views(names@)[i as int] == name@);
            return true;
        }
        i = i + 1;
    }
    proof {
        if string_views(names@).contains(name@) {
            let k = choose|k: int| 0 <= k < string_views(names@).len() && string_views(names@)[k] == name@;
            assert(names@[k]@ == name@);
        }
    }
    false
}

/// The distinct media resource names, in order of first occurrence.
pub fn resource_names(package: &Package) -> (r: Vec<String>)
    ensures
        string_views(r@) == dedup(spec_media_names(*package)),
{
    let mut out: Vec<String> = Vec::new();
    let media: Option<&Vec<Resource>> = match &package.pebble {
        Some(p) => match &p.resources {
            Some(res) => match &res.media {
                Some(m) => Some(m),
                None => None,
            },
            None => None,
        },
        None => None,
    };
    match media {
        None => {
            assert(string_views(out@) =~= Seq::<Seq<char>>::empty());
            out
        },
        Some(m) => {
            let ghost all = m@.map_values(|res: Resource| res.name@);
            assert(all == spec_media_names(*package));
            let mut i: usize = 0;
            assert(string_views(out@) =~= dedup(all.take(0)));
            while i < m.len()
                invariant
                    i <= m@.len(),
                    all == m@.map_values(|res: Resource| res.name@),
                    string_views(out@) == dedup(all.take(i as int)),
                decreases m@.len() - i,
            {
                let name = &m[i].name;
                assert(all.take(i + 1).drop_last() =~= all.take(i as int));
                assert(all.take(i + 1).last() == name@);
                if !contains_name(&out, name) {
                    let ghost before = out@;
                    let copy = name.clone();
                    out.push(copy);
                    assert(string_views(out@) =~= string_views(before).push(name@));
                }
                i = i + 1;
            }
            assert(all.take(m@.len() as int) =~= all);
            out
        },
    }
}

/// The message key names, in order.
pub fn message_key_names(package: &Package) -> (r: Vec<String>)
    ensures
        string_views(r@) == spec_message_keys(*package),
{
    let mut out: Vec<String> = Vec::new();
    let keys: Option<&Vec<String>> = match &package.pebble {
        Some(p) => match &p.message_keys {
            Some(k) => Some(k),
            None => None,
        },
        None => None,
    };
    match keys {
        None => {
            assert(string_views(out@) =~= Seq::<Seq<char>>::empty());
            out
        },
        Some(k) => {
            let mut i: usize = 0;
            while i < k.len()
                invariant
                    i <= k@.len(),
                    out@.len() == i,
                    forall|j: int| 0 <= j < i ==> #[trigger] out@[j]@ == k@[j]@,
                decreases k@.len() - i,
            {
                let copy = k[i].clone();
                out.push(copy);
                i = i + 1;
            }
            assert(string_views(out@) =~= string_views(k@));
            out
        },
    }
}

/// The distinct names contain every name once and nothing else.
pub proof fn lemma_dedup_distinct(s: Seq<Seq<char>>)
    ensures
        forall|x: Seq<char>| #[trigger] dedup(s).contains(x) <==> s.contains(x),
        forall|i: int, j: int| 0 <= i < j < dedup(s).len() ==> dedup(s)[i] != dedup(s)[j],
    decreases s.len(),
{
    if s.len() > 0 {
        let p = s.drop_last();
        lemma_dedup_distinct(p);
        let d = dedup(p);
        assert forall|x: Seq<char>| #[trigger] dedup(s).contains(x) <==> s.contains(x) by {
            if s.contains(x) && x != s.last() {
                let k = choose|k: int| 0 <= k < s.len() && s[k] == x;
                assert(p[k] == x);
            }
            if p.contains(x) {
                let k = choose|k: int| 0 <= k < p.len() && p[k] == x;
                assert(s[k] == x);
            }
            if !d.contains(s.last()) {
                let e = d.push(s.last());
                if d.contains(x) {
                    let k = choose|k: int| 0 <= k < d.len() && d[k] == x;
                    assert(e[k] == x);
                }
                if e.contains(x) {
                    let k = choose|k: int| 0 <= k < e.len() && e[k] == x;
                    if k < d.len() {
                        assert(d[k] == x);
                    }
                }
                assert(e[d.len() as int] == s.last());
            }
            assert(s[s.len() - 1] == s.last());
        }
    }
}

/// Whether a byte may start an identifier: an ASCII letter or `_`.
pub open spec fn ident_start(b: u8) -> bool {
    (0x41 <= b <= 0x5a) || (0x61 <= b <= 0x7a) || b == 0x5f
}

/// Whether a byte may continue an identifier: an ASCII letter, digit or `_`.
pub open spec fn ident_continue(b: u8) -> bool {
    ident_start(b) || (0x30 <= b <= 0x39)
}

/// Whether the bytes spell an ASCII identifier, as the generated resource id
/// and message key items are named.
pub open spec fn spec_is_identifier(s: Seq<u8>) -> bool {
    &&& s.len() > 0
    &&& ident_start(s[0])
    &&& forall|i: int| 0 <= i < s.len() ==> #[trigger] ident_continue(s[i])
}

/// Whether a manifest name can name a generated item: a non-empty ASCII
/// identifier.
pub fn is_identifier(name: &str) -> (r: bool)
    ensures
        r == spec_is_identifier(name.spec_bytes()),
{
    let bytes = name.as_bytes();
    let n = bytes.len();
    if n == 0 {
        return false;
    }
    let b0 = bytes[0];
    if !((0x41 <= b0 && b0 <= 0x5a) || (0x61 <= b0 && b0 <= 0x7a) || b0 == 0x5f) {
        return false;
    }
    let mut i: usize = 0;
    while i < n
        invariant
            n == bytes@.len(),
            bytes@ == name.spec_bytes(),
            i <= n,
            forall|k: int| 0 <= k < i ==> #[trigger] ident_continue(bytes@[k]),
        decreases n - i,
    {
        let b = bytes[i];
        if !((0x41 <= b && b <= 0x5a) || (0x61 <= b && b <= 0x7a) || b == 0x5f || (0x30 <= b && b <= 0x39)) {
            assert(!ident_continue(bytes@[i as int]));
            return false;
        }
        i = i + 1;
    }
    true
}

} // verus!
