//! Label sets: key-unique mappings from label names to label values.
use vstd::prelude::*;
use crate::json::{members, str_view, DecodeError, DecodeFault, Json};

verus! {

/// A set of labels, each name present once, in the order first received.
#[derive(Debug, Clone, PartialEq, Eq)]
pub struct Labels {
    entries: Vec<(String, String)>,
}

/// The value of the first entry named `key`.
pub open spec fn lookup(e: Seq<(Seq<char>, Seq<char>)>, key: Seq<char>) -> Option<Seq<char>>
    decreases e.len(),
{
    if e.len() == 0 {
        None
    } else if e[0].0 == key {
        Some(e[0].1)
    } else {
        lookup(e.drop_first(), key)
    }
}

/// No two entries share a name.
pub open spec fn unique_keys(e: Seq<(Seq<char>, Seq<char>)>) -> bool {
    forall|i: int, k: int| 0 <= i < k < e.len() ==> #[trigger] e[i].0 != #[trigger] e[k].0
}

/// The members of a JSON object as labels: the first member of each name,
/// in order.
pub open spec fn first_members(m: Seq<(String, Json)>) -> Seq<(Seq<char>, Seq<char>)>
    decreases m.len(),
{
    if m.len() == 0 {
        Seq::empty()
    } else {
        let d = first_members(m.drop_last());
        if lookup(d, m.last().0@) is Some {
            d
        } else {
            d.push((m.last().0@, str_view(m.last().1)))
        }
    }
}

/// Every member holds a string.
pub open spec fn all_strings(m: Seq<(String, Json)>) -> bool {
    forall|i: int| 0 <= i < m.len() ==> (#[trigger] m[i]).1 is Str
}

/// The fault of a value that must be an object of strings.
pub open spec fn labels_fault(j: Json, key: Seq<char>) -> Option<DecodeFault> {
    match j {
        Json::Object(m) => if all_strings(m@) {
            None
        } else {
            Some(DecodeFault::InvalidType(key))
        },
        _ => Some(DecodeFault::InvalidType(key)),
    }
}

proof fn lemma_lookup_none(e: Seq<(Seq<char>, Seq<char>)>, key: Seq<char>)
    ensures
        lookup(e, key) is None <==> forall|i: int| 0 <= i < e.len() ==> (#[trigger] e[i]).0 != key,
    decreases e.len(),
{
    if e.len() > 0 {
        lemma_lookup_none(e.drop_first(), key);
        if lookup(e, key) is None {
            assert forall|i: int| 0 <= i < e.len() implies (#[trigger] e[i]).0 != key by {
                if i > 0 {
                    assert(e[i] == e.drop_first()[i - 1]);
                }
            }
        } else {
            if e[0].0 != key {
                let i = choose|i: int| 0 <= i < e.drop_first().len() && (#[trigger] e.drop_first()[i]).0 == key;
                assert(e[i + 1] == e.drop_first()[i]);
            }
        }
    }
}

impl View for Labels {
    type V = Seq<(Seq<char>, Seq<char>)>;

    closed spec fn view(&self) -> Seq<(Seq<char>, Seq<char>)> {
        self.entries@.map_values(|p: (String, String)| (p.0@, p.1@))
    }
}

impl Labels {
    /// The label set with no labels.
    pub fn new() -> (r: Labels)
        ensures
            r@ == Seq::<(Seq<char>, Seq<char>)>::empty(),
    {
        let r = Labels { entries: Vec::new() };
        proof {
            assert(r@ =~= Seq::<(Seq<char>, Seq<char>)>::empty());
        }
        r
    }

    /// The value of the label `key`.
    pub fn get(&self, key: &str) -> (r: Option<&str>)
        ensures
            match r {
                Some(v) => lookup(self@, key@) == Some(v@),
                None => lookup(self@, key@) is None,
            },
    {
        let mut i: usize = 0;
        proof {
            assert(self@.skip(0) =~= self@);
        }
        while i < self.entries.len()
            invariant
                i <= self.entries@.len(),
                self@.len() == self.entries@.len(),
                lookup(self@, key@) == lookup(self@.skip(i as int), key@),
            decreases self.entries@.len() - i,
        {
            let ghost rest = self@.skip(i as int);
            if crate::text::text_eq(self.entries[i].0.as_str(), key) {
                return Some(self.entries[i].1.as_str());
            }
            proof {
                assert(rest.drop_first() =~= self@.skip(i + 1));
            }
            i = i + 1;
        }
        None
    }

    /// Whether the label `key` is present.
    pub fn contains_key(&self, key: &str) -> (r: bool)
        ensures
            r == lookup(self@, key@) is Some,
    {
        self.get(key).is_some()
    }

    /// The number of labels.
    pub fn len(&self) -> (r: usize)
        ensures
            r == self@.len(),
    {
        self.entries.len()
    }

    /// Whether there are no labels.
    pub fn is_empty(&self) -> (r: bool)
        ensures
            r == (self@.len() == 0),
    {
        self.entries.len() == 0
    }

    /// The label names and values, in the order first received.
    pub fn entries(&self) -> (r: &[(String, String)])
        ensures
            r@.map_values(|p: (String, String)| (p.0@, p.1@)) == self@,
    {
        self.entries.as_slice()
    }
}

/// Decodes an object of strings into labels; a name that occurs twice keeps
/// its first value.
pub fn decode_labels(j: &Json, key: &str) -> (r: Result<Labels, DecodeError>)
    ensures
        match r {
            Ok(l) => labels_fault(*j, key@) is None && l@ == first_members(members(*j)) && unique_keys(
                l@,
            ),
            Err(e) => labels_fault(*j, key@) == Some(e@),
        },
{
    match j {
        Json::Object(m) => {
            let mut out = Labels::new();
            let mut i: usize = 0;
            while i < m.len()
                invariant
                    *j == Json::Object(*m),
                    i <= m@.len(),
                    out@ == first_members(m@.take(i as int)),
                    unique_keys(out@),
                    forall|k: int| 0 <= k < i ==> (#[trigger] m@[k]).1 is Str,
                decreases m@.len() - i,
            {
                proof {
                    assert(m@.take(i + 1).drop_last() =~= m@.take(i as int));
                }
                match &m[i].1 {
                    Json::Str(v) => {
                        if !out.contains_key(m[i].0.as_str()) {
                            let ghost before = out@;
                            out.entries.push((m[i].0.clone(), v.clone()));
                            proof {
                                lemma_lookup_none(before, m@[i as int].0@);
                                assert(out@ =~= before.push((m@[i as int].0@, v@)));
                            }
                        }
                    },
                    _ => {
                        proof {
                            assert(!(m@[i as int].1 is Str));
                            assert(!all_strings(m@));
                        }
                        return Err(DecodeError::InvalidType(key.to_string()));
                    },
                }
                i = i + 1;
            }
            proof {
                assert(m@.take(m@.len() as int) =~= m@);
            }
            Ok(out)
        },
        _ => Err(DecodeError::InvalidType(key.to_string())),
    }
}

} // verus!
