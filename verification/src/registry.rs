//! The ordered collection of pages and its single active entry.
//!
//! Entries keep insertion order; exactly one entry is active at any time
//! after the first insertion (the first entry becomes active by itself, a
//! later one by an explicit selection). Activating an identity that was
//! never issued changes nothing — it is a refused request, never a crash.

use crate::app::{Message, MessageV};
use crate::page::{page_step, Page, PageV};
use vstd::prelude::*;

verus! {

/// One registered page with its metadata.
pub struct PageEntry {
    /// The identity the entry was issued at insertion.
    pub id: u64,
    /// The label shown in the navigation bar and the window title.
    pub label: String,
    /// The icon name shown beside the label.
    pub icon: String,
    /// The page itself.
    pub page: Page,
}

/// Mathematical model of a `PageEntry`.
#[verifier::ext_equal]
pub ghost struct EntryV {
    pub id: u64,
    pub label: Seq<char>,
    pub icon: Seq<char>,
    pub page: PageV,
}

impl View for PageEntry {
    type V = EntryV;

    open spec fn view(&self) -> EntryV {
        EntryV { id: self.id, label: self.label@, icon: self.icon@, page: self.page@ }
    }
}

/// Mathematical model of a `PageRegistry`.
#[verifier::ext_equal]
pub ghost struct RegistryV {
    /// The entries in insertion order.
    pub entries: Seq<EntryV>,
    /// Which entry is active, as an index into `entries`.
    pub active: int,
}

impl RegistryV {
    /// Whether some entry carries the given identity.
    pub open spec fn has_id(self, id: u64) -> bool {
        exists|i: int| 0 <= i < self.entries.len() && (#[trigger] self.entries[i].id) == id
    }

    /// An index of the entry carrying the given identity.
    pub open spec fn index_of(self, id: u64) -> int
        recommends
            self.has_id(id),
    {
        choose|i: int| 0 <= i < self.entries.len() && (#[trigger] self.entries[i].id) == id
    }

    /// The active entry's index is in bounds once anything is registered,
    /// every page is well formed, and identities are unique.
    pub open spec fn wf(self) -> bool {
        &&& self.entries.len() > 0 ==> 0 <= self.active < self.entries.len()
        &&& forall|i: int| 0 <= i < self.entries.len() ==> (#[trigger] self.entries[i].page).wf()
        &&& forall|i: int, j: int|
            0 <= i < self.entries.len() && 0 <= j < self.entries.len() && i != j
                ==> (#[trigger] self.entries[i].id) != (#[trigger] self.entries[j].id)
    }
}

/// One activate-by-identity request: a registered identity becomes the
/// active entry, an unknown one changes nothing.
pub open spec fn activate_model(registry: RegistryV, id: u64) -> RegistryV {
    if registry.has_id(id) {
        RegistryV { active: registry.index_of(id), ..registry }
    } else {
        registry
    }
}

/// One broadcast: every entry's page takes the message once, in place;
/// metadata and the active selection do not move.
pub open spec fn broadcast_model(registry: RegistryV, msg: MessageV) -> RegistryV {
    RegistryV {
        entries: registry.entries.map(
            |i: int, entry: EntryV| EntryV { page: page_step(entry.page, msg), ..entry },
        ),
        ..registry
    }
}

/// An ordered collection of heterogeneous pages with one active entry.
pub struct PageRegistry {
    entries: Vec<PageEntry>,
    active: usize,
    next_id: u64,
}

impl View for PageRegistry {
    type V = RegistryV;

    closed spec fn view(&self) -> RegistryV {
        RegistryV {
            entries: Seq::new(self.entries@.len(), |i: int| self.entries@[i]@),
            active: self.active as int,
        }
    }
}

impl PageRegistry {
    /// How many identities have been issued; each insertion issues one.
    pub closed spec fn issued(&self) -> nat {
        self.next_id as nat
    }

    /// All issued identities lie below `next_id`, so a fresh one is unique.
    pub closed spec fn inv(&self) -> bool {
        &&& self@.wf()
        &&& forall|i: int|
            0 <= i < self@.entries.len() ==> (#[trigger] self@.entries[i].id) < self.next_id
    }

    /// An empty registry.
    pub fn new() -> (registry: PageRegistry)
        ensures
            registry.inv(),
            registry@.entries.len() == 0,
            registry.issued() == 0,
    {
        PageRegistry { entries: Vec::new(), active: 0, next_id: 0 }
    }

    /// How many pages are registered.
    pub fn len(&self) -> (n: usize)
        ensures
            n == self@.entries.len(),
    {
        self.entries.len()
    }

    /// Registers a page with its metadata and returns its fresh identity.
    /// The first entry becomes active; a later insertion leaves the active
    /// selection alone.
    pub fn insert(&mut self, label: String, icon: String, page: Page) -> (id: u64)
        requires
            old(self).inv(),
            old(self).issued() < u64::MAX,
            page@.wf(),
        ensures
            final(self).inv(),
            final(self).issued() == old(self).issued() + 1,
            !old(self)@.has_id(id),
            final(self)@.entries == old(self)@.entries.push(
                EntryV { id, label: label@, icon: icon@, page: page@ },
            ),
            final(self)@.active == if old(self)@.entries.len() == 0 {
                0
            } else {
                old(self)@.active
            },
    {
        let id = self.next_id;
        self.next_id = self.next_id + 1;
        if self.entries.len() == 0 {
            self.active = 0;
        }
        self.entries.push(PageEntry { id, label, icon, page });
        proof {
            assert(self@.entries =~= old(self)@.entries.push(
                EntryV { id, label: label@, icon: icon@, page: page@ },
            ));
        }
        id
    }

    /// Activates the entry with the given identity. An identity that was
    /// never issued is refused: the selection stays where it was.
    pub fn activate(&mut self, id: u64) -> (found: bool)
        requires
            old(self).inv(),
        ensures
            final(self).inv(),
            final(self).issued() == old(self).issued(),
            found == old(self)@.has_id(id),
            final(self)@ == activate_model(old(self)@, id),
            found ==> final(self)@.entries[final(self)@.active].id == id,
    {
        let mut i: usize = 0;
        let n = self.entries.len();
        while i < n
            invariant
                old(self).inv(),
                n == self@.entries.len(),
                i <= n,
                *self == *old(self),
                forall|j: int| 0 <= j < i ==> (#[trigger] self@.entries[j].id) != id,
            decreases n - i,
        {
            if self.entries[i].id == id {
                proof {
                    let ghost prior = old(self)@;
                    assert(prior.entries[i as int].id == id);
                    assert(prior.has_id(id));
                }
                self.active = i;
                proof {
                    let ghost prior = old(self)@;
                    let k = prior.index_of(id);
                    assert(prior.entries[k].id == id);
                    if k != i as int {
                        assert(prior.entries[k].id != prior.entries[i as int].id);
                    }
                    assert(self@ =~= activate_model(prior, id));
                }
                return true;
            }
            i = i + 1;
        }
        proof {
            assert(!old(self)@.has_id(id));
        }
        false
    }

    /// Hands one broadcast message to every page, in insertion order.
    pub fn broadcast(&mut self, msg: &Message)
        requires
            old(self).inv(),
        ensures
            final(self).inv(),
            final(self).issued() == old(self).issued(),
            final(self)@ == broadcast_model(old(self)@, msg@),
    {
        let ghost prior = self@;
        let n = self.entries.len();
        let mut i: usize = 0;
        while i < n
            invariant
                prior == old(self)@,
                prior.wf(),
                n == self@.entries.len(),
                n == prior.entries.len(),
                i <= n,
                self.active == old(self).active,
                self.next_id == old(self).next_id,
                forall|j: int| 0 <= j < i ==> #[trigger] self@.entries[j]
                    == (EntryV { page: page_step(prior.entries[j].page, msg@), ..prior.entries[j] })
                    && self@.entries[j].page.wf(),
                forall|j: int| i <= j < n ==> #[trigger] self@.entries[j] == prior.entries[j],
            decreases n - i,
        {
            let ghost head = self@;
            let ghost before = self.entries@;
            proof {
                assert forall|j: int| 0 <= j < n implies #[trigger] before[j]@
                    == head.entries[j] by {
                    assert(head.entries[j] == before[j]@);
                }
                assert(head.entries[i as int].page.wf());
            }
            let mut entry = self.entries.remove(i);
            proof {
                assert(entry == before[i as int]);
                assert(entry@ == prior.entries[i as int]);
            }
            entry.page.update(msg);
            let ghost stepped = entry;
            self.entries.insert(i, entry);
            proof {
                assert(self.entries@ =~= before.update(i as int, stepped));
                assert forall|j: int| 0 <= j < n implies #[trigger] self@.entries[j]
                    == if j == i as int { stepped@ } else { head.entries[j] } by {
                    assert(self@.entries[j] == self.entries@[j]@);
                    if j != i as int {
                        assert(self.entries@[j] == before[j]);
                    }
                }
            }
            i = i + 1;
        }
        proof {
            assert(self@ =~= broadcast_model(prior, msg@));
        }
    }

    /// The active entry, for rendering; nothing before the first insertion.
    pub fn active_entry(&self) -> (entry: Option<&PageEntry>)
        requires
            self.inv(),
        ensures
            self@.entries.len() == 0 <==> entry is None,
            entry matches Some(e) ==> e@ == self@.entries[self@.active],
    {
        if self.entries.len() == 0 {
            None
        } else {
            Some(&self.entries[self.active])
        }
    }

    /// The entry at a position, in insertion order.
    pub fn entry_at(&self, i: usize) -> (entry: &PageEntry)
        requires
            i < self@.entries.len(),
        ensures
            entry@ == self@.entries[i as int],
    {
        &self.entries[i]
    }
}

/// The active selection after a whole sequence of activate-by-identity
/// requests, applied in order.
pub open spec fn activate_all(registry: RegistryV, ids: Seq<u64>) -> RegistryV
    decreases ids.len(),
{
    if ids.len() == 0 {
        registry
    } else {
        activate_model(activate_all(registry, ids.drop_last()), ids.last())
    }
}

/// The last requested identity that is actually registered, if any.
pub open spec fn last_registered(registry: RegistryV, ids: Seq<u64>) -> Option<u64>
    decreases ids.len(),
{
    if ids.len() == 0 {
        None
    } else if registry.has_id(ids.last()) {
        Some(ids.last())
    } else {
        last_registered(registry, ids.drop_last())
    }
}

/// Single-active-page law. After any sequence of activate-by-identity
/// requests — valid or not — the entries are untouched, exactly one entry is
/// active (the selection is a single in-bounds index), and it is the entry
/// of the last validly requested identity, or the initial selection if no
/// request was valid.
pub proof fn lemma_single_active(registry: RegistryV, ids: Seq<u64>)
    requires
        registry.wf(),
        registry.entries.len() > 0,
    ensures
        activate_all(registry, ids).entries == registry.entries,
        activate_all(registry, ids).wf(),
        0 <= activate_all(registry, ids).active < registry.entries.len(),
        match last_registered(registry, ids) {
            Some(id) => registry.entries[activate_all(registry, ids).active].id == id,
            None => activate_all(registry, ids).active == registry.active,
        },
    decreases ids.len(),
{
    if ids.len() > 0 {
        lemma_single_active(registry, ids.drop_last());
        let before = activate_all(registry, ids.drop_last());
        let id = ids.last();
        if registry.has_id(id) {
            assert(before.has_id(id));
            let k = before.index_of(id);
            assert(0 <= k < before.entries.len() && before.entries[k].id == id);
        } else {
            assert(!before.has_id(id));
        }
    }
}

} // verus!
