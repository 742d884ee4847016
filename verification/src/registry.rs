use vstd::prelude::*;
use vstd::string::*;
use crate::text::str_eq;

verus! {

/// The mapping a sequence of `(tag, address)` pairs denotes: pairs are taken
/// in order, a later pair for the same tag overriding an earlier one.
pub open spec fn entries_map(es: Seq<(String, String)>) -> Map<Seq<char>, Seq<char>>
    decreases es.len(),
{
    if es.len() == 0 {
        Map::empty()
    } else {
        entries_map(es.drop_last()).insert(es.last().0@, es.last().1@)
    }
}

/// The mapping from language tag to the base address of that language's
/// formatting endpoint. Tags are matched exactly as configured, so every
/// alias to be supported (say both a short and a long tag for one address)
/// must be registered itself. Several tags may map to one address.
pub struct EndpointRegistry {
    entries: Vec<(String, String)>,
}

impl View for EndpointRegistry {
    type V = Map<Seq<char>, Seq<char>>;

    closed spec fn view(&self) -> Map<Seq<char>, Seq<char>> {
        entries_map(self.entries@)
    }
}

impl EndpointRegistry {
    /// An empty registry: no tag resolves.
    pub fn new() -> (r: Self)
        ensures
            r@ == Map::<Seq<char>, Seq<char>>::empty(),
    {
        EndpointRegistry { entries: Vec::new() }
    }

    /// Adds one tag, overriding any address the tag had before.
    pub fn register(&mut self, tag: String, address: String)
        ensures
            final(self)@ == old(self)@.insert(tag@, address@),
    {
        let ghost pre = self.entries@;
        self.entries.push((tag, address));
        assert(self.entries@.drop_last() =~= pre);
    }

    /// Replaces the whole mapping with the given pairs, taken in order.
    pub fn configure(&mut self, entries: Vec<(String, String)>)
        ensures
            final(self)@ == entries_map(entries@),
    {
        self.entries = entries;
    }

    /// The address registered for `tag`, or `None` when the tag is not in
    /// the mapping.
    pub fn resolve(&self, tag: &str) -> (r: Option<String>)
        ensures
            match r {
                Some(a) => self@.contains_key(tag@) && a@ == self@[tag@],
                None => !self@.contains_key(tag@),
            },
    {
        let n = self.entries.len();
        assert(self.entries@.take(n as int) =~= self.entries@);
        let mut j = n;
        while j > 0
            invariant
                n == self.entries@.len(),
                j <= n,
                self@.contains_key(tag@) == entries_map(self.entries@.take(j as int)).contains_key(
                    tag@,
                ),
                self@.contains_key(tag@) ==> self@[tag@] == entries_map(
                    self.entries@.take(j as int),
                )[tag@],
            decreases j,
        {
            let ghost cur = self.entries@.take(j as int);
            assert(cur.drop_last() =~= self.entries@.take(j - 1));
            assert(cur.last() == self.entries@[j - 1]);
            let entry = &self.entries[j - 1];
            if str_eq(entry.0.as_str(), tag) {
                assert(entries_map(cur)[tag@] == entry.1@);
                return Some(entry.1.clone());
            }
            j = j - 1;
        }
        assert(self.entries@.take(0) =~= Seq::<(String, String)>::empty());
        assert(!entries_map(self.entries@.take(0)).contains_key(tag@));
        None
    }
}

} // verus!
