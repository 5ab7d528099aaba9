//! The endpoint map of a session: operation name to method and URL template.

use vstd::prelude::*;

verus! {

/// One named operation of the service.
pub struct Endpoint {
    pub name: String,
    pub method: String,
    pub template: String,
}

/// The map that a list of entries stands for: each entry binds its name, and a
/// later entry replaces an earlier one of the same name.
pub open spec fn bindings(entries: Seq<Endpoint>) -> Map<Seq<char>, (Seq<char>, Seq<char>)>
    decreases entries.len(),
{
    if entries.len() == 0 {
        Map::empty()
    } else {
        let last = entries.last();
        bindings(entries.drop_last()).insert(last.name@, (last.method@, last.template@))
    }
}

/// A name is bound exactly when some entry carries it, and then to what the
/// last such entry holds.
pub proof fn lemma_bindings(entries: Seq<Endpoint>, name: Seq<char>)
    ensures
        bindings(entries).contains_key(name) <==> exists|k: int|
            0 <= k < entries.len() && (#[trigger] entries[k]).name@ == name,
        forall|k: int|
            #![trigger entries[k]]
            0 <= k < entries.len() && entries[k].name@ == name && (forall|j: int|
                k < j < entries.len() ==> (#[trigger] entries[j]).name@ != name) ==> bindings(
                entries,
            )[name] == (entries[k].method@, entries[k].template@),
    decreases entries.len(),
{
    if entries.len() > 0 {
        let front = entries.drop_last();
        lemma_bindings(front, name);
        assert(forall|k: int| 0 <= k < front.len() ==> front[k] == entries[k]);
        if entries.last().name@ != name {
            assert forall|k: int|
                #![trigger entries[k]]
                0 <= k < entries.len() && entries[k].name@ == name && (forall|j: int|
                    k < j < entries.len() ==> (#[trigger] entries[j]).name@ != name) implies bindings(
                entries,
            )[name] == (entries[k].method@, entries[k].template@) by {
                assert(front[k].name@ == name);
            }
        }
    }
}

/// Operation names with the method and URL template that each resolves to.
pub struct EndpointMap {
    entries: Vec<Endpoint>,
}

impl View for EndpointMap {
    type V = Map<Seq<char>, (Seq<char>, Seq<char>)>;

    closed spec fn view(&self) -> Self::V {
        bindings(self.entries@)
    }
}

impl EndpointMap {
    /// A map without entries.
    pub fn new() -> (map: EndpointMap)
        ensures
            map@ == Map::<Seq<char>, (Seq<char>, Seq<char>)>::empty(),
    {
        EndpointMap { entries: Vec::new() }
    }

    /// Binds `name` to a method and a URL template, in place of what it was
    /// bound to before.
    pub fn insert(&mut self, name: String, method: String, template: String)
        ensures
            final(self)@ == old(self)@.insert(name@, (method@, template@)),
    {
        let entry = Endpoint { name, method, template };
        self.entries.push(entry);
        assert(self.entries@.drop_last() =~= old(self).entries@);
    }

    /// The method and the URL template that `name` is bound to.
    pub fn get(&self, name: &str) -> (found: Option<(&String, &String)>)
        ensures
            match found {
                Some((method, template)) => self@.contains_key(name@) && self@[name@] == (
                    method@,
                    template@,
                ),
                None => !self@.contains_key(name@),
            },
    {
        let wanted = name.to_owned();
        let mut i: usize = self.entries.len();
        while i > 0
            invariant
                i <= self.entries.len(),
                wanted@ == name@,
                forall|j: int| i <= j < self.entries.len() ==> (#[trigger] self.entries@[j]).name@
                    != name@,
            decreases i,
        {
            i -= 1;
            if self.entries[i].name == wanted {
                proof {
                    lemma_bindings(self.entries@, name@);
                }
                return Some((&self.entries[i].method, &self.entries[i].template));
            }
        }
        proof {
            lemma_bindings(self.entries@, name@);
        }
        None
    }
}

} // verus!
