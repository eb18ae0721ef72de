//! Ordered multimap of query parameters.
use vstd::prelude::*;
use crate::text::{decimal, decimal_spec, form_encode, form_encoded_of, signed_decimal, signed_decimal_spec};

verus! {

/// One query entry as text.
pub type EntryView = (Seq<char>, Seq<char>);

/// `key=value`, both sides form-urlencoded.
pub open spec fn entry_text(e: EntryView) -> Seq<char> {
    form_encoded_of(e.0) + seq!['='] + form_encoded_of(e.1)
}

/// Entries in order, each as `key=value`, joined by '&'.
pub open spec fn query_spec(s: Seq<EntryView>) -> Seq<char>
    decreases s.len(),
{
    if s.len() == 0 {
        Seq::empty()
    } else if s.len() == 1 {
        entry_text(s[0])
    } else {
        query_spec(s.drop_last()) + seq!['&'] + entry_text(s.last())
    }
}

/// The entries of an optional parameter set: none when absent.
pub open spec fn optional_view(p: Option<&Params>) -> Seq<EntryView> {
    match p {
        Some(q) => q@,
        None => Seq::empty(),
    }
}

/// Query parameters: an ordered sequence of key/value pairs in which keys may repeat.
pub struct Params {
    entries: Vec<(String, String)>,
}

impl View for Params {
    type V = Seq<EntryView>;

    closed spec fn view(&self) -> Seq<EntryView> {
        self.entries@.map_values(|e: (String, String)| (e.0@, e.1@))
    }
}

impl Params {
    /// No entries.
    pub fn new() -> (r: Params)
        ensures
            r@ == Seq::<EntryView>::empty(),
    {
        let r = Params { entries: Vec::new() };
        assert(r@ =~= Seq::<EntryView>::empty());
        r
    }

    /// Number of entries.
    pub fn len(&self) -> (r: usize)
        ensures
            r == self@.len(),
    {
        self.entries.len()
    }

    /// True when there are no entries.
    pub fn is_empty(&self) -> (r: bool)
        ensures
            r == (self@.len() == 0),
    {
        self.entries.len() == 0
    }

    /// Key of the entry at `i`.
    pub fn key(&self, i: usize) -> (r: &str)
        requires
            i < self@.len(),
        ensures
            r@ == self@[i as int].0,
    {
        self.entries[i].0.as_str()
    }

    /// Value of the entry at `i`.
    pub fn value(&self, i: usize) -> (r: &str)
        requires
            i < self@.len(),
        ensures
            r@ == self@[i as int].1,
    {
        self.entries[i].1.as_str()
    }

    fn push_entry(&mut self, key: String, value: String)
        ensures
            final(self)@ == old(self)@.push((key@, value@)),
    {
        let ghost k = key@;
        let ghost v = value@;
        self.entries.push((key, value));
        assert(final(self)@ =~= old(self)@.push((k, v)));
    }

    /// Appends `key=value`.
    pub fn add_str(&mut self, key: &str, value: &str)
        ensures
            final(self)@ == old(self)@.push((key@, value@)),
    {
        self.push_entry(String::from_str(key), String::from_str(value));
    }

    /// Appends `key` with the base-10 numeral of an unsigned `value`.
    pub fn add_uint(&mut self, key: &str, value: usize)
        ensures
            final(self)@ == old(self)@.push((key@, decimal_spec(value as nat))),
    {
        self.push_entry(String::from_str(key), decimal(value as u64));
    }

    /// Appends `key` with the base-10 numeral of a signed `value`.
    pub fn add_int(&mut self, key: &str, value: i64)
        ensures
            final(self)@ == old(self)@.push((key@, signed_decimal_spec(value as int))),
    {
        self.push_entry(String::from_str(key), signed_decimal(value));
    }

    /// Appends all entries of `other`, in order.
    pub fn extend_from(&mut self, other: &Params)
        ensures
            final(self)@ == old(self)@ + other@,
    {
        let mut i: usize = 0;
        while i < other.entries.len()
            invariant
                i <= other@.len(),
                self@ == old(self)@ + other@.subrange(0, i as int),
            decreases other@.len() - i,
        {
            let k = other.entries[i].0.clone();
            let v = other.entries[i].1.clone();
            self.push_entry(k, v);
            assert(other@.subrange(0, i as int + 1) =~= other@.subrange(0, i as int).push(
                other@[i as int],
            ));
            i += 1;
        }
        assert(other@.subrange(0, other@.len() as int) =~= other@);
    }

    /// Mandatory entries first, then the optional ones when supplied; nothing is dropped,
    /// replaced or reordered.
    pub fn merge(mandatory: &Params, optional: Option<&Params>) -> (r: Params)
        ensures
            r@ == mandatory@ + optional_view(optional),
    {
        let mut r = Params::new();
        r.extend_from(mandatory);
        match optional {
            Some(o) => {
                r.extend_from(o);
            },
            None => {
                assert(r@ =~= mandatory@ + Seq::<EntryView>::empty());
            },
        }
        r
    }

    /// The wire form: `key=value` pairs, form-urlencoded, joined by '&'.
    pub fn to_query(&self) -> (r: String)
        ensures
            r@ == query_spec(self@),
    {
        let mut r = String::new();
        let mut i: usize = 0;
        while i < self.entries.len()
            invariant
                i <= self@.len(),
                r@ == query_spec(self@.subrange(0, i as int)),
            decreases self@.len() - i,
        {
            let ghost before = self@.subrange(0, i as int);
            let ghost after = self@.subrange(0, i as int + 1);
            assert(after.drop_last() =~= before);
            proof {
                reveal_strlit("&");
                reveal_strlit("=");
            }
            let ghost r0 = r@;
            if i > 0 {
                r.append("&");
            }
            let ghost r1 = r@;
            assert(self@[i as int] == (self.entries@[i as int].0@, self.entries@[i as int].1@));
            let k = form_encode(self.entries[i].0.as_str());
            let v = form_encode(self.entries[i].1.as_str());
            r.append(k.as_str());
            r.append("=");
            r.append(v.as_str());
            assert(after.last() == self@[i as int]);
            assert(r@ =~= r1 + entry_text(self@[i as int]));
            if i == 0 {
                assert(before.len() == 0);
                assert(r1 =~= Seq::<char>::empty());
                assert(r@ =~= entry_text(after.last()));
            } else {
                assert(r1 =~= r0 + seq!['&']);
                assert(r@ =~= query_spec(before) + seq!['&'] + entry_text(after.last()));
            }
            i += 1;
        }
        assert(self@.subrange(0, self@.len() as int) =~= self@);
        r
    }
}

/// The query string of mandatory entries followed by the optional ones.
pub fn merged_query(mandatory: &Params, optional: Option<&Params>) -> (r: String)
    ensures
        r@ == query_spec(mandatory@ + optional_view(optional)),
{
    Params::merge(mandatory, optional).to_query()
}

/// Query strings concatenate: the wire form of two non-empty entry lists placed one after the
/// other is the first one's wire form, '&', then the second one's.
pub proof fn lemma_query_concat(a: Seq<EntryView>, b: Seq<EntryView>)
    requires
        a.len() > 0,
        b.len() > 0,
    ensures
        query_spec(a + b) == query_spec(a) + seq!['&'] + query_spec(b),
    decreases b.len(),
{
    if b.len() == 1 {
        assert((a + b).drop_last() =~= a);
        assert(query_spec(b) == entry_text(b[0]));
    } else {
        lemma_query_concat(a, b.drop_last());
        assert((a + b).drop_last() =~= a + b.drop_last());
        assert(query_spec(a + b) =~= query_spec(a) + seq!['&'] + query_spec(b));
    }
}

/// Merging is additive and keeps order: the merged query is the mandatory query, then the
/// optional one, with no entry dropped, replaced or moved; an absent or empty optional set adds
/// nothing.
pub proof fn lemma_merge_additive(mandatory: Params, optional: Option<&Params>)
    ensures
        optional_view(optional).len() == 0 ==> query_spec(mandatory@ + optional_view(optional))
            == query_spec(mandatory@),
        mandatory@.len() == 0 ==> query_spec(mandatory@ + optional_view(optional)) == query_spec(
            optional_view(optional),
        ),
        mandatory@.len() > 0 && optional_view(optional).len() > 0 ==> query_spec(
            mandatory@ + optional_view(optional),
        ) == query_spec(mandatory@) + seq!['&'] + query_spec(optional_view(optional)),
{
    let o = optional_view(optional);
    if o.len() == 0 {
        assert(mandatory@ + o =~= mandatory@);
    }
    if mandatory@.len() == 0 {
        assert(mandatory@ + o =~= o);
    }
    if mandatory@.len() > 0 && o.len() > 0 {
        lemma_query_concat(mandatory@, o);
    }
}

} // verus!
