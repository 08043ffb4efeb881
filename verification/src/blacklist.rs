//! The blacklist: a set of accounts, kept in a vector that holds each of them
//! once.

use vstd::prelude::*;
use crate::address::Address;

verus! {

/// The accounts that may not move tokens.
///
/// An account is either blocked or it is not; an account that was never
/// named is not. The list keeps each blocked account once.
pub struct Blacklist {
    accounts: Vec<Address>,
}

impl Blacklist {
    #[verifier::type_invariant]
    spec fn each_once(self) -> bool {
        self.accounts@.no_duplicates()
    }

    /// The set of blocked accounts.
    pub closed spec fn view(&self) -> Set<Address> {
        self.accounts@.to_set()
    }

    /// A list that blocks nobody.
    pub fn new() -> (list: Blacklist)
        ensures
            list@ == Set::<Address>::empty(),
    {
        Blacklist { accounts: Vec::new() }
    }

    /// Where `account` stands in the list, if it is blocked.
    fn position(&self, account: Address) -> (at: Option<usize>)
        ensures
            at matches Some(i) ==> i < self.accounts@.len() && self.accounts@[i as int] == account,
            at is None ==> !self@.contains(account),
    {
        let mut i: usize = 0;
        while i < self.accounts.len()
            invariant
                i <= self.accounts@.len(),
                forall|j: int| 0 <= j < i ==> self.accounts@[j] != account,
            decreases self.accounts@.len() - i,
        {
            if self.accounts[i] == account {
                return Some(i);
            }
            i += 1;
        }
        None
    }

    /// Whether `account` is blocked.
    pub fn contains(&self, account: Address) -> (blocked: bool)
        ensures
            blocked == self@.contains(account),
    {
        self.position(account).is_some()
    }

    /// Blocks `account`. Says whether the account was free before.
    pub fn insert(&mut self, account: Address) -> (added: bool)
        ensures
            final(self)@ == old(self)@.insert(account),
            added == !old(self)@.contains(account),
    {
        proof {
            use_type_invariant(&*self);
        }
        match self.position(account) {
            Some(_) => {
                false
            },
            None => {
                proof {
                    lemma_push_blocks(self.accounts@, account);
                }
                let mut accounts: Vec<Address> = Vec::new();
                std::mem::swap(&mut self.accounts, &mut accounts);
                accounts.push(account);
                self.accounts = accounts;
                true
            },
        }
    }

    /// Frees `account`. Says whether the account was blocked before.
    pub fn remove(&mut self, account: Address) -> (removed: bool)
        ensures
            final(self)@ == old(self)@.remove(account),
            removed == old(self)@.contains(account),
    {
        proof {
            use_type_invariant(&*self);
        }
        match self.position(account) {
            Some(i) => {
                proof {
                    lemma_remove_frees(self.accounts@, i as int);
                }
                let mut accounts: Vec<Address> = Vec::new();
                std::mem::swap(&mut self.accounts, &mut accounts);
                accounts.remove(i);
                self.accounts = accounts;
                true
            },
            None => {
                false
            },
        }
    }
}

/// A list without repetitions stays one when an account that is not in it is
/// put at its end, and then holds that account besides the others.
proof fn lemma_push_blocks(list: Seq<Address>, account: Address)
    requires
        list.no_duplicates(),
        !list.contains(account),
    ensures
        list.push(account).no_duplicates(),
        list.push(account).to_set() == list.to_set().insert(account),
{
    let longer = list.push(account);
    assert forall|a: Address| longer.contains(a) <==> list.contains(a) || a == account by {
        if longer.contains(a) {
            let i = choose|i: int| 0 <= i < longer.len() && longer[i] == a;
            if i < list.len() {
                assert(list[i] == a);
            }
        }
        if list.contains(a) {
            let i = choose|i: int| 0 <= i < list.len() && list[i] == a;
            assert(longer[i] == a);
        }
        if a == account {
            assert(longer[list.len() as int] == a);
        }
    }
    assert(longer.to_set() =~= list.to_set().insert(account));
}

/// A list without repetitions stays one when the account at `at` is taken
/// out, and then holds the others and not that account.
proof fn lemma_remove_frees(list: Seq<Address>, at: int)
    requires
        list.no_duplicates(),
        0 <= at < list.len(),
    ensures
        list.remove(at).no_duplicates(),
        list.remove(at).to_set() == list.to_set().remove(list[at]),
{
    let shorter = list.remove(at);
    assert forall|a: Address| shorter.contains(a) <==> list.contains(a) && a != list[at] by {
        if shorter.contains(a) {
            let k = choose|k: int| 0 <= k < shorter.len() && shorter[k] == a;
            if k < at {
                assert(list[k] == a);
            } else {
                assert(list[k + 1] == a);
            }
        }
        if list.contains(a) && a != list[at] {
            let k = choose|k: int| 0 <= k < list.len() && list[k] == a;
            if k < at {
                assert(shorter[k] == a);
            } else {
                assert(shorter[k - 1] == a);
            }
        }
    }
    assert(shorter.to_set() =~= list.to_set().remove(list[at]));
}

} // verus!
