//! The inbound carrier: request headers with case-insensitive names.
//!
//! Names are folded to ASCII lower case when they are stored and when they are
//! looked up. Of several headers with one name the first is kept, which is the
//! one that a lookup answers with. A value that is not text is remembered as
//! present but has no text.

use crate::assoc::{
    add_absent, has_key, keys_distinct, lemma_add_absent, lemma_lookup_at, lookup, position,
};
use crate::text::{
    is_lowercase, lemma_lowercase_idempotent, lowercase, parse_u64, parse_u64_spec,
    to_ascii_lowercase,
};
use vstd::prelude::*;

verus! {

/// The mathematical form of a header list: folded names with their values, in
/// order; `None` stands for a value that is not text.
pub type HeaderSeq = Seq<(Seq<char>, Option<Seq<char>>)>;

/// Every name is in lower case.
pub open spec fn names_lowercase(s: HeaderSeq) -> bool {
    forall|i: int| 0 <= i < s.len() ==> is_lowercase((#[trigger] s[i]).0)
}

/// The text of the header with the name, whatever the case of the name asked
/// for; `None` where there is no such header or its value is not text.
pub open spec fn header_text(s: HeaderSeq, name: Seq<char>) -> Option<Seq<char>> {
    match lookup(s, lowercase(name)) {
        Some(Some(v)) => Some(v),
        _ => None,
    }
}

/// The header names in order.
pub open spec fn header_names(s: HeaderSeq) -> Seq<Seq<char>> {
    Seq::new(s.len(), |i: int| s[i].0)
}

/// The headers that have a text value, in order.
pub open spec fn text_entries(s: HeaderSeq) -> Seq<(Seq<char>, Seq<char>)>
    decreases s.len(),
{
    if s.len() == 0 {
        Seq::empty()
    } else {
        let rest = text_entries(s.drop_last());
        match s.last().1 {
            Some(v) => rest.push((s.last().0, v)),
            None => rest,
        }
    }
}

/// The body length that the headers announce: the number in the
/// `content-length` header, 0 where the header is absent, not text or not a
/// number.
pub open spec fn content_length_of(s: HeaderSeq) -> u64 {
    match lookup(s, "content-length"@) {
        Some(Some(v)) => match parse_u64_spec(v) {
            Some(n) => n,
            None => 0,
        },
        _ => 0,
    }
}

/// Every name among the text headers is a name of the list.
pub proof fn lemma_text_entries_names(s: HeaderSeq, k: int)
    requires
        0 <= k < text_entries(s).len(),
    ensures
        has_key(s, text_entries(s)[k].0),
    decreases s.len(),
{
    if s.len() > 0 {
        let rest = text_entries(s.drop_last());
        let last = (s.len() - 1) as int;
        if k < rest.len() {
            lemma_text_entries_names(s.drop_last(), k);
            let p = position(s.drop_last(), rest[k].0);
            assert(s[p] == s.drop_last()[p]);
        } else {
            assert(s[last].0 == text_entries(s)[k].0);
        }
    }
}

/// The text headers of a list with distinct names have distinct names.
pub proof fn lemma_text_entries_distinct(s: HeaderSeq)
    requires
        keys_distinct(s),
    ensures
        keys_distinct(text_entries(s)),
    decreases s.len(),
{
    if s.len() > 0 {
        let init = s.drop_last();
        let rest = text_entries(init);
        let last = (s.len() - 1) as int;
        assert forall|i: int, j: int| 0 <= i < j < init.len() implies (#[trigger] init[i]).0 != (
        #[trigger] init[j]).0 by {
            assert(init[i] == s[i] && init[j] == s[j]);
        }
        lemma_text_entries_distinct(init);
        let t = text_entries(s);
        assert forall|i: int, j: int| 0 <= i < j < t.len() implies (#[trigger] t[i]).0 != (
        #[trigger] t[j]).0 by {
            if j < rest.len() {
                assert(t[i] == rest[i] && t[j] == rest[j]);
            } else {
                assert(t[i] == rest[i]);
                lemma_text_entries_names(init, i);
                let p = position(init, rest[i].0);
                assert(init[p] == s[p]);
                assert(s[p].0 != s[last].0);
            }
        }
    }
}

/// Request headers.
#[derive(Debug, PartialEq, Eq)]
pub struct Headers {
    entries: Vec<(String, Option<String>)>,
}

impl View for Headers {
    type V = HeaderSeq;

    closed spec fn view(&self) -> HeaderSeq {
        self.entries.deep_view()
    }
}

impl Headers {
    /// Names are distinct and in lower case.
    #[verifier::type_invariant]
    pub open spec fn inv(self) -> bool {
        keys_distinct(self@) && names_lowercase(self@)
    }

    /// No headers.
    pub fn new() -> (r: Headers)
        ensures
            r@ == HeaderSeq::empty(),
    {
        let entries: Vec<(String, Option<String>)> = Vec::new();
        assert(entries.deep_view() =~= HeaderSeq::empty());
        Headers { entries }
    }

    /// The number of headers kept.
    pub fn len(&self) -> (n: usize)
        ensures
            n == self@.len(),
    {
        self.entries.len()
    }

    /// The place of the header with exactly this name.
    fn find(&self, folded: &String) -> (r: Option<usize>)
        ensures
            r is Some <==> has_key(self@, folded@),
            r is Some ==> r->0 == position(self@, folded@) && r->0 < self@.len(),
    {
        proof {
            use_type_invariant(self);
        }
        let mut i: usize = 0;
        while i < self.entries.len()
            invariant
                i <= self.entries@.len(),
                self@ == self.entries.deep_view(),
                keys_distinct(self@),
                forall|j: int| 0 <= j < i ==> (#[trigger] self@[j]).0 != folded@,
            decreases self.entries@.len() - i,
        {
            if self.entries[i].0 == *folded {
                proof {
                    assert(self@[i as int].0 == folded@);
                    lemma_lookup_at(self@, i as int);
                }
                return Some(i);
            }
            i = i + 1;
        }
        None
    }

    /// Offers a header under an already folded name.
    fn offer(&mut self, folded: String, value: Option<String>)
        requires
            is_lowercase(folded@),
        ensures
            final(self)@ == add_absent(old(self)@, folded@, value.deep_view()),
    {
        proof {
            use_type_invariant(&*self);
            lemma_add_absent(self@, folded@, value.deep_view());
        }
        if self.find(&folded).is_none() {
            let ghost before = self@;
            let ghost pair = (folded@, value.deep_view());
            let mut entries: Vec<(String, Option<String>)> = Vec::new();
            std::mem::swap(&mut entries, &mut self.entries);
            entries.push((folded, value));
            assert(entries.deep_view() =~= before.push(pair));
            self.entries = entries;
        }
    }

    /// Adds a header with a text value. The name is folded to lower case; where
    /// a header of that name is already there, it stays and this one is
    /// dropped.
    pub fn insert(&mut self, name: &str, value: &str)
        ensures
            final(self)@ == add_absent(old(self)@, lowercase(name@), Some(value@)),
    {
        proof {
            lemma_lowercase_idempotent(name@);
        }
        self.offer(to_ascii_lowercase(name), Some(String::from_str(value)));
    }

    /// Adds a header whose value is not text. The name is treated as in
    /// [`Headers::insert`].
    pub fn insert_opaque(&mut self, name: &str)
        ensures
            final(self)@ == add_absent(old(self)@, lowercase(name@), None),
    {
        proof {
            lemma_lowercase_idempotent(name@);
        }
        self.offer(to_ascii_lowercase(name), None);
    }

    /// Whether a header of that name is there, whatever the case of the name.
    pub fn contains(&self, name: &str) -> (r: bool)
        ensures
            r == has_key(self@, lowercase(name@)),
    {
        self.find(&to_ascii_lowercase(name)).is_some()
    }

    /// The text of the header of that name, whatever the case of the name.
    pub fn get(&self, name: &str) -> (r: Option<&str>)
        ensures
            r is Some <==> header_text(self@, name@) is Some,
            r is Some ==> Some(r->0@) == header_text(self@, name@),
    {
        self.get_folded(&to_ascii_lowercase(name))
    }

    /// The text of the header with exactly this name.
    fn get_folded(&self, folded: &String) -> (r: Option<&str>)
        ensures
            r is Some <==> lookup(self@, folded@) matches Some(Some(_)),
            r is Some ==> lookup(self@, folded@) == Some(Some(r->0@)),
    {
        match self.find(folded) {
            Some(i) => {
                assert(self@[i as int] == self.entries@[i as int].deep_view());
                match &self.entries[i].1 {
                    Some(v) => Some(v.as_str()),
                    None => None,
                }
            },
            None => None,
        }
    }

    /// What is stored under a name that is given in lower case: `None` where
    /// there is no such header, else its text, or `None` for a value that is
    /// not text.
    pub fn value_under(&self, folded: &str) -> (r: Option<Option<String>>)
        ensures
            r.deep_view() == lookup(self@, folded@),
    {
        match self.find(&String::from_str(folded)) {
            Some(i) => {
                assert(self@[i as int] == self.entries@[i as int].deep_view());
                Some(self.entries[i].1.clone())
            },
            None => None,
        }
    }

    /// The header names, in order.
    pub fn keys(&self) -> (r: Vec<String>)
        ensures
            r.deep_view() == header_names(self@),
    {
        let mut names: Vec<String> = Vec::new();
        let mut i: usize = 0;
        while i < self.entries.len()
            invariant
                i <= self.entries@.len(),
                self@ == self.entries.deep_view(),
                names@.len() == i,
                forall|j: int| 0 <= j < i ==> (#[trigger] names@[j])@ == self@[j].0,
            decreases self.entries@.len() - i,
        {
            names.push(self.entries[i].0.clone());
            i = i + 1;
        }
        assert(names.deep_view() =~= header_names(self@));
        names
    }

    /// The body length that the headers announce, 0 where they announce none.
    pub fn content_length(&self) -> (r: u64)
        ensures
            r == content_length_of(self@),
    {
        let name = String::from_str("content-length");
        match self.get_folded(&name) {
            Some(v) => match parse_u64(v) {
                Some(n) => n,
                None => 0,
            },
            None => 0,
        }
    }

    /// The headers that have a text value, in order, as name and value.
    pub fn text_pairs(&self) -> (r: Vec<(String, String)>)
        ensures
            r.deep_view() == text_entries(self@),
            keys_distinct(r.deep_view()),
    {
        proof {
            use_type_invariant(self);
            lemma_text_entries_distinct(self@);
        }
        let mut pairs: Vec<(String, String)> = Vec::new();
        let mut i: usize = 0;
        assert(self@.take(0) =~= HeaderSeq::empty());
        while i < self.entries.len()
            invariant
                i <= self.entries@.len(),
                self@ == self.entries.deep_view(),
                pairs.deep_view() == text_entries(self@.take(i as int)),
            decreases self.entries@.len() - i,
        {
            let ghost before = pairs.deep_view();
            proof {
                assert(self@.take(i + 1).drop_last() =~= self@.take(i as int));
                assert(self@.take(i + 1).last() == self@[i as int]);
                assert(self@[i as int] == self.entries@[i as int].deep_view());
            }
            match &self.entries[i].1 {
                Some(v) => {
                    pairs.push((self.entries[i].0.clone(), v.clone()));
                    assert(pairs.deep_view() =~= before.push((self@[i as int].0, v@)));
                },
                None => {
                    assert(pairs.deep_view() =~= before);
                },
            }
            i = i + 1;
        }
        assert(self@.take(i as int) =~= self@);
        pairs
    }
}

} // verus!
