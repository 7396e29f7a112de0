use vstd::prelude::*;

verus! {

/// Whether two strings hold the same characters.
pub fn str_eq(a: &str, b: &str) -> (r: bool)
    ensures
        r == (a@ == b@),
{
    let n = a.unicode_len();
    let m = b.unicode_len();
    if n != m {
        return false;
    }
    let mut i: usize = 0;
    while i < n
        invariant
            n == a@.len(),
            m == b@.len(),
            n == m,
            0 <= i <= n,
            forall|k: int| 0 <= k < i ==> a@[k] == b@[k],
        decreases n - i,
    {
        if a.get_char(i) != b.get_char(i) {
            return false;
        }
        i = i + 1;
    }
    assert(a@ =~= b@);
    true
}

/// The zones served and their authorities, kept in the order zones were
/// first inserted.
pub struct Catalog<H> {
    names: Vec<String>,
    authorities: Vec<Vec<H>>,
}

impl<H> Catalog<H> {
    /// Zone names, in insertion order.
    pub closed spec fn names(&self) -> Seq<Seq<char>> {
        self.names@.map_values(|s: String| s@)
    }

    /// The authorities of each zone, in the order of `names`.
    pub closed spec fn handles(&self) -> Seq<Seq<H>> {
        self.authorities@.map_values(|v: Vec<H>| v@)
    }

    /// One list of authorities per name, and no name twice.
    pub open spec fn wf(&self) -> bool {
        &&& self.names().len() == self.handles().len()
        &&& forall|i: int, j: int|
            0 <= i < j < self.names().len() ==> self.names()[i] != self.names()[j]
    }

    /// An empty catalog.
    pub fn new() -> (r: Catalog<H>)
        ensures
            r.wf(),
            r.names().len() == 0,
    {
        let r = Catalog { names: Vec::new(), authorities: Vec::new() };
        proof {
            assert(r.names() =~= Seq::<Seq<char>>::empty());
            assert(r.handles() =~= Seq::<Seq<H>>::empty());
        }
        r
    }

    /// Number of zones.
    pub fn len(&self) -> (r: usize)
        requires
            self.wf(),
        ensures
            r == self.names().len(),
    {
        self.names.len()
    }

    /// Position of the zone named `name`, if it is present.
    pub fn find(&self, name: &str) -> (r: Option<usize>)
        requires
            self.wf(),
        ensures
            match r {
                Some(i) => i < self.names().len() && self.names()[i as int] == name@,
                None => !self.names().contains(name@),
            },
    {
        let mut i: usize = 0;
        while i < self.names.len()
            invariant
                self.wf(),
                0 <= i <= self.names().len(),
                forall|k: int| 0 <= k < i ==> self.names()[k] != name@,
            decreases self.names().len() - i,
        {
            if str_eq(self.names[i].as_str(), name) {
                return Some(i);
            }
            i = i + 1;
        }
        None
    }

    /// Authorities of the zone at position `i`.
    pub fn authorities_at(&self, i: usize) -> (r: &Vec<H>)
        requires
            self.wf(),
            i < self.names().len(),
        ensures
            r@ == self.handles()[i as int],
    {
        &self.authorities[i]
    }

    /// Sets the authorities of the zone named `name`: replaces those of a zone
    /// already present, in its place; else adds the zone at the end.
    pub fn upsert(&mut self, name: String, handles: Vec<H>)
        requires
            old(self).wf(),
        ensures
            final(self).wf(),
            old(self).names().contains(name@) ==> exists|i: int|
                0 <= i < old(self).names().len() && old(self).names()[i] == name@
                    && final(self).names() == old(self).names() && final(self).handles()
                    == old(self).handles().update(i, handles@),
            !old(self).names().contains(name@) ==> final(self).names() == old(self).names().push(
                name@,
            ) && final(self).handles() == old(self).handles().push(handles@),
    {
        match self.find(name.as_str()) {
            Some(i) => {
                let ghost hs = handles@;
                self.authorities.set(i, handles);
                proof {
                    assert(self.handles() =~= old(self).handles().update(i as int, hs));
                }
            },
            None => {
                let ghost nm = name@;
                let ghost hs = handles@;
                self.names.push(name);
                self.authorities.push(handles);
                proof {
                    assert(self.names() =~= old(self).names().push(nm));
                    assert(self.handles() =~= old(self).handles().push(hs));
                }
            },
        }
    }
}

} // verus!
