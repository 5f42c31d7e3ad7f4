//! The drivers that are available, by tag.

use crate::text::str_eq;
use vstd::prelude::*;
use vstd::string::*;

verus! {

/// The registry of drivers. It is filled at startup and read afterwards.
///
/// `D` is whatever stands for a driver: the registry keeps one per tag.
pub struct DriverRegistry<D> {
    drivers: Vec<(String, D)>,
}

impl<D> DriverRegistry<D> {
    /// The tags of the registered drivers, in the order of registration.
    pub closed spec fn ids(&self) -> Seq<Seq<char>> {
        Seq::new(self.drivers@.len(), |i: int| self.drivers@[i].0@)
    }

    /// The registered drivers, in the order of registration.
    pub closed spec fn entries(&self) -> Seq<D> {
        Seq::new(self.drivers@.len(), |i: int| self.drivers@[i].1)
    }

    /// No tag is registered twice.
    pub open spec fn wf(&self) -> bool {
        self.ids().no_duplicates() && self.ids().len() == self.entries().len()
    }

    #[verifier::type_invariant]
    pub(crate) open spec fn inv(&self) -> bool {
        self.wf()
    }

    /// The driver registered under a tag.
    pub open spec fn lookup(&self, id: Seq<char>) -> Option<D> {
        if self.ids().contains(id) {
            Some(self.entries()[self.ids().index_of(id)])
        } else {
            None
        }
    }

    /// A registry without drivers.
    pub fn new() -> (r: Self)
        ensures
            r.wf(),
            r.ids().len() == 0,
    {
        DriverRegistry { drivers: Vec::new() }
    }

    fn find(&self, id: &str) -> (r: Option<usize>)
        requires
            self.wf(),
        ensures
            match r {
                Some(i) => i < self.ids().len() && self.ids()[i as int] == id@
                    && self.ids().index_of(id@) == i,
                None => !self.ids().contains(id@),
            },
    {
        let mut i: usize = 0;
        while i < self.drivers.len()
            invariant
                i <= self.drivers.len(),
                self.wf(),
                forall|k: int| 0 <= k < i ==> self.ids()[k] != id@,
            decreases self.drivers.len() - i,
        {
            if str_eq(self.drivers[i].0.as_str(), id) {
                proof {
                    assert(self.ids()[i as int] == id@);
                }
                return Some(i);
            }
            i += 1;
        }
        None
    }

    /// Registers a driver under its tag. A driver registered before under
    /// the same tag is replaced.
    pub fn register(&mut self, id: &str, driver: D)
        ensures
            old(self).wf(),
            final(self).wf(),
            final(self).lookup(id@) == Some(driver),
            forall|other: Seq<char>|
                other != id@ ==> #[trigger] final(self).lookup(other) == old(self).lookup(other),
            final(self).ids() == (if old(self).ids().contains(id@) {
                old(self).ids()
            } else {
                old(self).ids().push(id@)
            }),
    {
        proof {
            use_type_invariant(&*self);
        }
        let ghost before_ids = self.ids();
        let ghost before_entries = self.entries();
        let found = self.find(id);
        // The entries are taken out, changed and put back.
        let mut held = DriverRegistry::new();
        std::mem::swap(self, &mut held);
        let mut drivers = held.drivers;
        match found {
            Some(i) => {
                drivers.set(i, (String::from_str(id), driver));
                proof {
                    let next = DriverRegistry { drivers };
                    assert(next.ids() =~= before_ids);
                    assert(next.entries() =~= before_entries.update(i as int, driver));
                    assert forall|other: Seq<char>| other != id@ implies #[trigger] next.lookup(
                        other,
                    ) == old(self).lookup(other) by {
                        if before_ids.contains(other) {
                            let j = before_ids.index_of(other);
                            assert(before_ids[j] == other);
                            assert(j != i);
                        }
                    }
                }
                let next = DriverRegistry { drivers };
                *self = next;
            },
            None => {
                drivers.push((String::from_str(id), driver));
                proof {
                    let next = DriverRegistry { drivers };
                    assert(next.ids() =~= before_ids.push(id@));
                    assert(next.entries() =~= before_entries.push(driver));
                    let n = before_ids.len() as int;
                    assert(next.ids()[n] == id@);
                    assert(next.ids().contains(id@));
                    assert(next.ids().index_of(id@) == n) by {
                        let j = next.ids().index_of(id@);
                        assert(next.ids()[j] == id@);
                        if j < n {
                            assert(before_ids[j] == id@);
                            assert(before_ids.contains(id@));
                        }
                    }
                    assert forall|other: Seq<char>| other != id@ implies #[trigger] next.lookup(
                        other,
                    ) == old(self).lookup(other) by {
                        if before_ids.contains(other) {
                            let j = before_ids.index_of(other);
                            assert(before_ids[j] == other);
                            assert(next.ids()[j] == other);
                            assert(next.ids().contains(other));
                            let k = next.ids().index_of(other);
                            assert(next.ids()[k] == other);
                            assert(k == j);
                        } else {
                            if next.ids().contains(other) {
                                let k = next.ids().index_of(other);
                                assert(next.ids()[k] == other);
                                assert(k < n);
                                assert(before_ids[k] == other);
                            }
                        }
                    }
                }
                let next = DriverRegistry { drivers };
                *self = next;
            },
        }
    }

    /// The registry of the three engines that are served, each under
    /// its tag.
    pub fn with_engines(postgres: D, mysql: D, mongodb: D) -> (r: Self)
        ensures
            r.wf(),
            r.ids() == seq!["postgres"@, "mysql"@, "mongodb"@],
            r.entries() == seq![postgres, mysql, mongodb],
    {
        let mut drivers: Vec<(String, D)> = Vec::new();
        drivers.push((String::from_str("postgres"), postgres));
        drivers.push((String::from_str("mysql"), mysql));
        drivers.push((String::from_str("mongodb"), mongodb));
        proof {
            reveal_strlit("postgres");
            reveal_strlit("mysql");
            reveal_strlit("mongodb");
            assert("postgres"@.len() == 8 && "mysql"@.len() == 5 && "mongodb"@.len() == 7);
        }
        DriverRegistry { drivers }
    }

    /// The driver registered under a tag.
    pub fn get(&self, driver_id: &str) -> (r: Option<&D>)
        ensures
            self.wf(),
            match r {
                Some(d) => self.lookup(driver_id@) == Some(*d),
                None => self.lookup(driver_id@) is None,
            },
    {
        proof {
            use_type_invariant(&*self);
        }
        match self.find(driver_id) {
            Some(i) => Some(&self.drivers[i].1),
            None => None,
        }
    }

    /// The tags of the registered drivers.
    pub fn list(&self) -> (out: Vec<&str>)
        ensures
            out@.len() == self.ids().len(),
            forall|i: int| 0 <= i < out@.len() ==> (#[trigger] out@[i])@ == self.ids()[i],
    {
        let mut out: Vec<&str> = Vec::new();
        let mut i: usize = 0;
        while i < self.drivers.len()
            invariant
                i <= self.drivers.len(),
                out@.len() == i,
                forall|k: int| 0 <= k < i ==> (#[trigger] out@[k])@ == self.ids()[k],
            decreases self.drivers.len() - i,
        {
            out.push(self.drivers[i].0.as_str());
            i += 1;
        }
        out
    }

    /// The number of registered drivers.
    pub fn len(&self) -> (n: usize)
        ensures
            n == self.ids().len(),
    {
        self.drivers.len()
    }

    /// Whether no driver is registered.
    pub fn is_empty(&self) -> (b: bool)
        ensures
            b == (self.ids().len() == 0),
    {
        self.drivers.len() == 0
    }
}

impl<D> Default for DriverRegistry<D> {
    fn default() -> (r: Self)
        ensures
            r.wf(),
            r.ids().len() == 0,
    {
        DriverRegistry::new()
    }
}

} // verus!
