use vstd::prelude::*;
use crate::keys::{Pubkey, key_eq};
use crate::accounts::AccountData;

verus! {

/// One stored account: an address and the record kept there.
#[derive(Clone, Copy, Debug)]
pub struct AccountEntry {
    pub address: Pubkey,
    pub data: AccountData,
}

/// The account store the ledger runtime keeps for one deployment of the
/// program: a finite map from derived addresses to records, together with
/// the program identity that every address derivation is relative to.
///
/// The runtime's own duties around this store (atomic execution of each
/// operation, signature checks on external callers) are assumed: every
/// operation of the protocol either returns `Ok` having made all its writes,
/// or returns an error having made none.
pub struct Ledger {
    program_id: Pubkey,
    accounts: Vec<AccountEntry>,
}

/// The map an entry sequence denotes; later entries would win, though a
/// well-formed ledger never holds an address twice.
pub open spec fn entries_map(s: Seq<AccountEntry>) -> Map<Seq<u8>, AccountData>
    decreases s.len(),
{
    if s.len() == 0 {
        Map::empty()
    } else {
        entries_map(s.drop_last()).insert(s.last().address@, s.last().data)
    }
}

/// No address occurs twice.
pub open spec fn unique_addresses(s: Seq<AccountEntry>) -> bool {
    forall|i: int, j: int| 0 <= i < j < s.len() ==> s[i].address@ != s[j].address@
}

/// An address is in the denoted map exactly when some entry holds it.
proof fn lemma_entries_map_domain(s: Seq<AccountEntry>, a: Seq<u8>)
    ensures
        entries_map(s).contains_key(a) <==> exists|i: int| 0 <= i < s.len() && s[i].address@ == a,
    decreases s.len(),
{
    if s.len() > 0 {
        lemma_entries_map_domain(s.drop_last(), a);
        if s.last().address@ == a {
            assert(s[s.len() - 1].address@ == a);
        } else {
            if entries_map(s).contains_key(a) {
                let i = choose|i: int| 0 <= i < s.drop_last().len() && s.drop_last()[i].address@ == a;
                assert(s[i].address@ == a);
            }
            if exists|i: int| 0 <= i < s.len() && s[i].address@ == a {
                let i = choose|i: int| 0 <= i < s.len() && s[i].address@ == a;
                assert(i < s.len() - 1);
                assert(s.drop_last()[i].address@ == a);
            }
        }
    }
}

/// With unique addresses, the denoted map sends each entry's address to
/// that entry's data.
proof fn lemma_entries_map_index(s: Seq<AccountEntry>, i: int)
    requires
        unique_addresses(s),
        0 <= i < s.len(),
    ensures
        entries_map(s).contains_key(s[i].address@),
        entries_map(s)[s[i].address@] == s[i].data,
    decreases s.len(),
{
    if i < s.len() - 1 {
        lemma_entries_map_index(s.drop_last(), i);
        assert(s.drop_last()[i] == s[i]);
        assert(s.last().address@ != s[i].address@);
    }
}

/// Appending a fresh entry denotes an insert.
proof fn lemma_entries_map_push(s: Seq<AccountEntry>, e: AccountEntry)
    ensures
        entries_map(s.push(e)) == entries_map(s).insert(e.address@, e.data),
{
    assert(s.push(e).drop_last() =~= s);
    assert(s.push(e).last() == e);
}

/// Replacing the entry that holds an address denotes an insert at that
/// address.
proof fn lemma_entries_map_update(s: Seq<AccountEntry>, i: int, e: AccountEntry)
    requires
        unique_addresses(s),
        0 <= i < s.len(),
        e.address@ == s[i].address@,
    ensures
        unique_addresses(s.update(i, e)),
        entries_map(s.update(i, e)) == entries_map(s).insert(e.address@, e.data),
    decreases s.len(),
{
    let t = s.update(i, e);
    assert forall|p: int, q: int| 0 <= p < q < t.len() implies t[p].address@ != t[q].address@ by {
        assert(s[p].address@ != s[q].address@);
    }
    if i == s.len() - 1 {
        assert(t.drop_last() =~= s.drop_last());
        assert(t.last() == e);
        assert(entries_map(s.drop_last()).insert(s.last().address@, s.last().data).insert(
            e.address@,
            e.data,
        ) =~= entries_map(s.drop_last()).insert(e.address@, e.data));
    } else {
        assert(t.drop_last() =~= s.drop_last().update(i, e));
        lemma_entries_map_update(s.drop_last(), i, e);
        assert(t.last() == s.last());
        assert(s.last().address@ != e.address@);
        assert(entries_map(s.drop_last()).insert(e.address@, e.data).insert(
            s.last().address@,
            s.last().data,
        ) =~= entries_map(s.drop_last()).insert(s.last().address@, s.last().data).insert(
            e.address@,
            e.data,
        ));
    }
}

impl View for Ledger {
    type V = Map<Seq<u8>, AccountData>;

    closed spec fn view(&self) -> Map<Seq<u8>, AccountData> {
        entries_map(self.accounts@)
    }
}

impl Ledger {
    /// The identity of the deployed program, the last seed of every
    /// derivation.
    pub closed spec fn program(&self) -> Seq<u8> {
        self.program_id@
    }

    /// Reads the deployed program's identity.
    pub fn program_id(&self) -> (r: Pubkey)
        ensures
            r@ == self.program(),
    {
        self.program_id
    }

    /// Every address is stored at most once.
    pub closed spec fn wf(&self) -> bool {
        unique_addresses(self.accounts@)
    }

    /// An empty store for one deployment.
    pub fn new(program_id: Pubkey) -> (l: Ledger)
        ensures
            l.wf(),
            l@ == Map::<Seq<u8>, AccountData>::empty(),
            l.program() == program_id@,
    {
        Ledger { program_id, accounts: Vec::new() }
    }

    /// Reads the record at an address.
    pub fn get(&self, a: &Pubkey) -> (r: Option<AccountData>)
        requires
            self.wf(),
        ensures
            r == (if self@.contains_key(a@) {
                Some(self@[a@])
            } else {
                None::<AccountData>
            }),
    {
        let n = self.accounts.len();
        let mut i: usize = 0;
        while i < n
            invariant
                0 <= i <= n,
                n == self.accounts.len(),
                self.wf(),
                forall|j: int| 0 <= j < i ==> self.accounts@[j].address@ != a@,
            decreases n - i,
        {
            let hit = key_eq(&self.accounts[i].address, a);
            if hit {
                proof {
                    lemma_entries_map_index(self.accounts@, i as int);
                }
                return Some(self.accounts[i].data);
            }
            i = i + 1;
        }
        proof {
            lemma_entries_map_domain(self.accounts@, a@);
        }
        None
    }

    /// Creates a record at an address; one-shot, refused when the address is
    /// already occupied.
    pub fn insert_new(&mut self, a: Pubkey, d: AccountData) -> (r: bool)
        requires
            old(self).wf(),
        ensures
            final(self).wf(),
            final(self).program() == old(self).program(),
            r == !old(self)@.contains_key(a@),
            r ==> final(self)@ == old(self)@.insert(a@, d),
            !r ==> *final(self) == *old(self),
    {
        let existing = self.get(&a);
        if existing.is_some() {
            return false;
        }
        proof {
            lemma_entries_map_domain(self.accounts@, a@);
            lemma_entries_map_push(self.accounts@, AccountEntry { address: a, data: d });
        }
        let ghost s0 = self.accounts@;
        self.accounts.push(AccountEntry { address: a, data: d });
        proof {
            assert forall|p: int, q: int|
                0 <= p < q < self.accounts@.len() implies self.accounts@[p].address@
                != self.accounts@[q].address@ by {
                if q < s0.len() {
                    assert(s0[p].address@ != s0[q].address@);
                } else {
                    assert(self.accounts@[q].address@ == a@);
                    assert(s0[p].address@ != a@);
                }
            }
        }
        true
    }

    /// Overwrites the record at an occupied address.
    pub fn set(&mut self, a: &Pubkey, d: AccountData) -> (r: bool)
        requires
            old(self).wf(),
        ensures
            final(self).wf(),
            final(self).program() == old(self).program(),
            r == old(self)@.contains_key(a@),
            r ==> final(self)@ == old(self)@.insert(a@, d),
            !r ==> *final(self) == *old(self),
    {
        let n = self.accounts.len();
        let mut i: usize = 0;
        while i < n
            invariant
                0 <= i <= n,
                n == self.accounts.len(),
                self.wf(),
                *self == *old(self),
                forall|j: int| 0 <= j < i ==> self.accounts@[j].address@ != a@,
            decreases n - i,
        {
            let hit = key_eq(&self.accounts[i].address, a);
            if hit {
                let e = AccountEntry { address: self.accounts[i].address, data: d };
                proof {
                    lemma_entries_map_index(self.accounts@, i as int);
                    lemma_entries_map_update(self.accounts@, i as int, e);
                }
                let ghost s0 = self.accounts@;
                self.accounts.remove(i);
                self.accounts.insert(i, e);
                proof {
                    assert(self.accounts@ =~= s0.update(i as int, e));
                }
                return true;
            }
            i = i + 1;
        }
        proof {
            lemma_entries_map_domain(self.accounts@, a@);
        }
        false
    }
}

} // verus!
