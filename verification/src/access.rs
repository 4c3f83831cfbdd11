//! Access declarations: which component slots and resources a system reads or
//! writes. The registry keeps one read-only and one read-write declaration and
//! extends them as slots are registered; the host scheduler compares snapshots
//! of them for conflicts.

use vstd::prelude::*;

verus! {

/// A set of declared accesses: component reads, component writes and resource
/// reads, each a set of ids. Ids are only ever added, never removed.
pub struct AccessSet {
    component_reads: Vec<u64>,
    component_writes: Vec<u64>,
    resource_reads: Vec<u64>,
}

impl AccessSet {
    /// The declared component reads.
    pub closed spec fn reads(self) -> Set<u64> {
        self.component_reads@.to_set()
    }

    /// The declared component writes.
    pub closed spec fn writes(self) -> Set<u64> {
        self.component_writes@.to_set()
    }

    /// The declared resource reads.
    pub closed spec fn resources(self) -> Set<u64> {
        self.resource_reads@.to_set()
    }

    /// An access declaration with nothing declared.
    pub fn empty() -> (a: AccessSet)
        ensures
            a.reads() == Set::<u64>::empty(),
            a.writes() == Set::<u64>::empty(),
            a.resources() == Set::<u64>::empty(),
    {
        let a = AccessSet {
            component_reads: Vec::new(),
            component_writes: Vec::new(),
            resource_reads: Vec::new(),
        };
        proof {
            assert(a.reads() =~= Set::<u64>::empty());
            assert(a.writes() =~= Set::<u64>::empty());
            assert(a.resources() =~= Set::<u64>::empty());
        }
        a
    }

    /// Declares a read of the component slot `id`.
    pub fn add_component_read(&mut self, id: u64)
        ensures
            final(self).reads() == old(self).reads().insert(id),
            final(self).writes() == old(self).writes(),
            final(self).resources() == old(self).resources(),
    {
        self.component_reads.push(id);
        proof {
            lemma_push_to_set(old(self).component_reads@, id);
        }
    }

    /// Declares a write of the component slot `id`.
    pub fn add_component_write(&mut self, id: u64)
        ensures
            final(self).writes() == old(self).writes().insert(id),
            final(self).reads() == old(self).reads(),
            final(self).resources() == old(self).resources(),
    {
        self.component_writes.push(id);
        proof {
            lemma_push_to_set(old(self).component_writes@, id);
        }
    }

    /// Declares a read of the resource `id`.
    pub fn add_resource_read(&mut self, id: u64)
        ensures
            final(self).resources() == old(self).resources().insert(id),
            final(self).reads() == old(self).reads(),
            final(self).writes() == old(self).writes(),
    {
        self.resource_reads.push(id);
        proof {
            lemma_push_to_set(old(self).resource_reads@, id);
        }
    }

    /// Whether a read of the component slot `id` is declared.
    pub fn has_component_read(&self, id: u64) -> (r: bool)
        ensures
            r == self.reads().contains(id),
    {
        contains_id(&self.component_reads, id)
    }

    /// Whether a write of the component slot `id` is declared.
    pub fn has_component_write(&self, id: u64) -> (r: bool)
        ensures
            r == self.writes().contains(id),
    {
        contains_id(&self.component_writes, id)
    }

    /// Whether a read of the resource `id` is declared.
    pub fn has_resource_read(&self, id: u64) -> (r: bool)
        ensures
            r == self.resources().contains(id),
    {
        contains_id(&self.resource_reads, id)
    }

    /// An independent copy of the declaration, for the scheduler to keep.
    pub fn snapshot(&self) -> (a: AccessSet)
        ensures
            a.reads() == self.reads(),
            a.writes() == self.writes(),
            a.resources() == self.resources(),
    {
        AccessSet {
            component_reads: copy_ids(&self.component_reads),
            component_writes: copy_ids(&self.component_writes),
            resource_reads: copy_ids(&self.resource_reads),
        }
    }
}

/// A pushed element extends the set of a sequence by exactly that element.
proof fn lemma_push_to_set(s: Seq<u64>, x: u64)
    ensures
        s.push(x).to_set() =~= s.to_set().insert(x),
{
    assert forall|y: u64| s.push(x).to_set().contains(y) implies s.to_set().contains(y) || y == x by {
        let i = choose|i: int| 0 <= i < s.push(x).len() && s.push(x)[i] == y;
        if i < s.len() {
            assert(s[i] == y);
        }
    }
    assert forall|y: u64| s.to_set().contains(y) implies s.push(x).to_set().contains(y) by {
        let i = choose|i: int| 0 <= i < s.len() && s[i] == y;
        assert(s.push(x)[i] == y);
    }
    assert(s.push(x).to_set().contains(x)) by {
        assert(s.push(x)[s.len() as int] == x);
    }
}

/// Whether `ids` holds `id`.
fn contains_id(ids: &Vec<u64>, id: u64) -> (r: bool)
    ensures
        r == ids@.to_set().contains(id),
{
    let mut i: usize = 0;
    while i < ids.len()
        invariant
            0 <= i <= ids@.len(),
            forall|j: int| 0 <= j < i ==> ids@[j] != id,
        decreases ids@.len() - i,
    {
        if ids[i] == id {
            proof {
                assert(ids@.to_set().contains(id)) by {
                    assert(ids@[i as int] == id);
                }
            }
            return true;
        }
        i += 1;
    }
    proof {
        assert(!ids@.to_set().contains(id)) by {
            if ids@.to_set().contains(id) {
                let j = choose|j: int| 0 <= j < ids@.len() && ids@[j] == id;
            }
        }
    }
    false
}

/// An element-wise copy of a vector of ids.
fn copy_ids(ids: &Vec<u64>) -> (r: Vec<u64>)
    ensures
        r@ == ids@,
{
    let mut r: Vec<u64> = Vec::new();
    let mut i: usize = 0;
    while i < ids.len()
        invariant
            0 <= i <= ids@.len(),
            r@ == ids@.take(i as int),
        decreases ids@.len() - i,
    {
        r.push(ids[i]);
        proof {
            assert(r@ =~= ids@.take(i as int + 1));
        }
        i += 1;
    }
    proof {
        assert(r@ =~= ids@);
    }
    r
}

} // verus!
