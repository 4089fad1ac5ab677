//! The hard-link tracker: which destination first received the content of
//! each (device, inode) identity seen during a run.
use vstd::prelude::*;

verus! {

/// A filesystem identity: device id and inode number.
pub type Identity = (u64, u64);

struct Entry {
    device: u64,
    inode: u64,
    destination: String,
}

pub struct HardLinkTracker {
    entries: Vec<Entry>,
}

spec fn entry_key(e: Entry) -> Identity {
    (e.device, e.inode)
}

impl View for HardLinkTracker {
    type V = Map<Identity, Seq<char>>;

    closed spec fn view(&self) -> Map<Identity, Seq<char>> {
        Map::new(
            |k: Identity| exists|i: int| 0 <= i < self.entries@.len() && entry_key(#[trigger] self.entries@[i]) == k,
            |k: Identity|
                self.entries@[choose|i: int| 0 <= i < self.entries@.len() && entry_key(#[trigger] self.entries@[i]) == k].destination@,
        )
    }
}

impl HardLinkTracker {
    /// No identity is recorded twice.
    pub closed spec fn wf(&self) -> bool {
        forall|i: int, j: int|
            0 <= i < self.entries@.len() && 0 <= j < self.entries@.len() && i != j ==> entry_key(
                #[trigger] self.entries@[i],
            ) != entry_key(#[trigger] self.entries@[j])
    }

    pub fn new() -> (r: HardLinkTracker)
        ensures
            r.wf(),
            r@ == Map::<Identity, Seq<char>>::empty(),
    {
        let r = HardLinkTracker { entries: Vec::new() };
        assert(r@ =~= Map::<Identity, Seq<char>>::empty());
        r
    }

    /// Looks the identity up and, when it is new, records `destination` as the
    /// copy for it. Returns the destination recorded earlier, if any: the
    /// caller then links to it instead of copying. Each call is one step of
    /// `replay`.
    pub fn track(&mut self, device: u64, inode: u64, destination: &String) -> (r: Option<String>)
        requires
            old(self).wf(),
        ensures
            final(self).wf(),
            old(self)@.contains_key((device, inode)) ==> r is Some && r->0@ == old(self)@[(
                device,
                inode,
            )] && final(self)@ == old(self)@,
            !old(self)@.contains_key((device, inode)) ==> r is None && final(self)@ == old(self)@.insert(
                (device, inode),
                destination@,
            ),
            forall|calls: Seq<(Identity, Seq<char>)>|
                old(self)@ == replay(calls) ==> #[trigger] replay(
                    calls.push(((device, inode), destination@)),
                ) == final(self)@,
    {
        proof {
            lemma_replay_step(device, inode, destination@);
        }
        let ghost k: Identity = (device, inode);
        let n = self.entries.len();
        let mut i: usize = 0;
        while i < n
            invariant
                i <= n,
                n == self.entries@.len(),
                *self == *old(self),
                self.wf(),
                k == (device, inode),
                forall|j: int| 0 <= j < i ==> entry_key(#[trigger] self.entries@[j]) != k,
            decreases n - i,
        {
            if self.entries[i].device == device && self.entries[i].inode == inode {
                let found = self.entries[i].destination.clone();
                proof {
                    let e = self.entries@[i as int];
                    assert(e.device == device && e.inode == inode);
                    assert(entry_key(e) == k);
                    assert(self@.contains_key(k));
                    let c = choose|c: int| 0 <= c < self.entries@.len() && entry_key(#[trigger] self.entries@[c]) == k;
                    assert(c == i);
                    lemma_replay_step(device, inode, destination@);
                }
                return Some(found);
            }
            i = i + 1;
        }
        let ghost before = *self;
        assert(!before@.contains_key(k));
        self.entries.push(Entry { device, inode, destination: destination.clone() });
        proof {
            let es = self.entries@;
            assert(es.len() == before.entries@.len() + 1);
            assert forall|a: int, b: int| 0 <= a < es.len() && 0 <= b < es.len() && a != b implies entry_key(
                #[trigger] es[a],
            ) != entry_key(#[trigger] es[b]) by {
                if a < n && b < n {
                    assert(es[a] == before.entries@[a]);
                    assert(es[b] == before.entries@[b]);
                }
            }
            assert forall|q: Identity| #[trigger] self@.contains_key(q) == before@.insert(
                k,
                destination@,
            ).contains_key(q) by {
                if q != k && self@.contains_key(q) {
                    let w = choose|w: int| 0 <= w < es.len() && entry_key(#[trigger] es[w]) == q;
                    assert(before.entries@[w] == es[w]);
                }
                if q != k && before@.contains_key(q) {
                    let w = choose|w: int|
                        0 <= w < before.entries@.len() && entry_key(#[trigger] before.entries@[w]) == q;
                    assert(es[w] == before.entries@[w]);
                }
                if q == k {
                    assert(entry_key(es[n as int]) == k);
                }
            }
            assert forall|q: Identity| #[trigger] self@.contains_key(q) implies self@[q] == before@.insert(
                k,
                destination@,
            )[q] by {
                let w = choose|w: int| 0 <= w < es.len() && entry_key(#[trigger] es[w]) == q;
                if q == k {
                    assert(entry_key(es[n as int]) == k);
                    assert(w == n);
                } else {
                    assert(before.entries@[w] == es[w]);
                    let v = choose|v: int|
                        0 <= v < before.entries@.len() && entry_key(#[trigger] before.entries@[v]) == q;
                    assert(es[v] == before.entries@[v]);
                    assert(v == w);
                }
            }
            assert(self@ =~= before@.insert(k, destination@));
        }
        None
    }
}

/// The tracker's contents after a sequence of lookups, each given as the
/// identity seen and the destination it would be copied to.
pub open spec fn replay(calls: Seq<(Identity, Seq<char>)>) -> Map<Identity, Seq<char>>
    decreases calls.len(),
{
    if calls.len() == 0 {
        Map::empty()
    } else {
        let m = replay(calls.drop_last());
        let (k, d) = calls.last();
        if m.contains_key(k) {
            m
        } else {
            m.insert(k, d)
        }
    }
}

proof fn lemma_replay_step(device: u64, inode: u64, d: Seq<char>)
    ensures
        forall|calls: Seq<(Identity, Seq<char>)>|
            #[trigger] replay(calls.push(((device, inode), d))) == (if replay(calls).contains_key(
                (device, inode),
            ) {
                replay(calls)
            } else {
                replay(calls).insert((device, inode), d)
            }),
{
    assert forall|calls: Seq<(Identity, Seq<char>)>|
        #[trigger] replay(calls.push(((device, inode), d))) == (if replay(calls).contains_key(
            (device, inode),
        ) {
            replay(calls)
        } else {
            replay(calls).insert((device, inode), d)
        }) by {
        assert(calls.push(((device, inode), d)).drop_last() =~= calls);
    }
}

/// At most one content copy per identity: after any sequence of lookups, an
/// identity is tracked exactly when some lookup saw it, and it maps to the
/// destination of the first lookup that saw it. So a lookup hands back no
/// earlier destination (and its file is copied) only for the first file of
/// each identity, and every later file of that identity is linked to that
/// first copy.
pub proof fn lemma_one_copy_per_identity(calls: Seq<(Identity, Seq<char>)>, k: Identity)
    ensures
        replay(calls).contains_key(k) <==> exists|j: int| 0 <= j < calls.len() && (#[trigger] calls[j]).0 == k,
        forall|j: int|
            0 <= j < calls.len() && (#[trigger] calls[j]).0 == k && (forall|l: int| 0 <= l < j ==> (#[trigger] calls[l]).0 != k)
                ==> replay(calls)[k] == calls[j].1,
    decreases calls.len(),
{
    if calls.len() > 0 {
        let prev = calls.drop_last();
        lemma_one_copy_per_identity(prev, k);
        let n = calls.len() - 1;
        if exists|j: int| 0 <= j < prev.len() && (#[trigger] prev[j]).0 == k {
            let j = choose|j: int| 0 <= j < prev.len() && (#[trigger] prev[j]).0 == k;
            assert(calls[j] == prev[j]);
        }
        if exists|j: int| 0 <= j < calls.len() && (#[trigger] calls[j]).0 == k {
            let j = choose|j: int| 0 <= j < calls.len() && (#[trigger] calls[j]).0 == k;
            if j < n {
                assert(prev[j] == calls[j]);
            }
        }
        assert forall|j: int|
            0 <= j < calls.len() && (#[trigger] calls[j]).0 == k && (forall|l: int| 0 <= l < j ==> (#[trigger] calls[l]).0 != k)
                implies replay(calls)[k] == calls[j].1 by {
            if j < n {
                assert(prev[j] == calls[j]);
                assert forall|l: int| 0 <= l < j implies (#[trigger] prev[l]).0 != k by {
                    assert(prev[l] == calls[l]);
                }
            } else {
                assert forall|l: int| 0 <= l < prev.len() implies (#[trigger] prev[l]).0 != k by {
                    assert(prev[l] == calls[l]);
                }
            }
        }
    }
}

} // verus!
