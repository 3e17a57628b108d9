//! The account state that transactions run against, and how their effects are applied.
use vstd::prelude::*;
use crate::assoc::{AssocMap, has_key, entries_map};
use crate::ethcore::{AccountState, MemAccount, empty_account_state};
use crate::primitives::{H160, H256, U256};

verus! {

/// The accounts of one block's state, by address.
pub type Accounts = AssocMap<H160, MemAccount>;

/// The accounts as mathematical values.
pub open spec fn accounts_view(m: Map<H160, MemAccount>) -> Map<H160, AccountState> {
    m.map_values(|a: MemAccount| a@)
}

/// A log emitted by a transaction.
pub struct Log {
    pub address: H160,
    pub topics: Vec<H256>,
    pub data: Vec<u8>,
}

/// Balance and nonce of an account.
#[derive(Clone, Copy, Debug, PartialEq, Eq)]
pub struct Basic {
    pub balance: U256,
    pub nonce: U256,
}

/// A change to the state, as the executor reports it.
pub enum Apply {
    /// Set balance and nonce, maybe code, and write storage.
    Modify {
        address: H160,
        basic: Basic,
        code: Option<Vec<u8>>,
        storage: Vec<(H256, H256)>,
        reset_storage: bool,
    },
    /// Remove the account.
    Delete { address: H160 },
}

/// The storage without its zero-valued slots.
pub open spec fn without_zero_values(s: Map<H256, H256>) -> Map<H256, H256> {
    Map::new(|k: H256| s.contains_key(k) && !s[k].spec_is_zero(), |k: H256| s[k])
}

/// The storage after writing `updates` in order: a zero value clears its slot.
pub open spec fn storage_after_updates(s: Map<H256, H256>, updates: Seq<(H256, H256)>) -> Map<
    H256,
    H256,
>
    decreases updates.len(),
{
    if updates.len() == 0 {
        s
    } else {
        let prev = storage_after_updates(s, updates.drop_last());
        let u = updates.last();
        if u.1.spec_is_zero() {
            prev.remove(u.0)
        } else {
            prev.insert(u.0, u.1)
        }
    }
}

/// An account is empty when its balance and nonce are zero and it has no code.
pub open spec fn is_empty_account(a: AccountState) -> bool {
    a.balance == U256::spec_zero() && a.nonce == U256::spec_zero() && a.code.len() == 0
}

/// The account after a modification: balance and nonce replaced, code replaced when given,
/// storage cleared when asked, its zero slots dropped, then the writes applied.
pub open spec fn modified_account(
    before: AccountState,
    basic: Basic,
    code: Option<Seq<u8>>,
    updates: Seq<(H256, H256)>,
    reset_storage: bool,
) -> AccountState {
    let kept = if reset_storage {
        Map::<H256, H256>::empty()
    } else {
        before.storage
    };
    AccountState {
        nonce: basic.nonce,
        balance: basic.balance,
        storage: storage_after_updates(without_zero_values(kept), updates),
        code: match code {
            Some(c) => c,
            None => before.code,
        },
    }
}

/// The account at `address`, or an empty one.
pub open spec fn account_or_empty(m: Map<H160, AccountState>, address: H160) -> AccountState {
    if m.contains_key(address) {
        m[address]
    } else {
        empty_account_state()
    }
}

/// The accounts after one change.
pub open spec fn apply_one(m: Map<H160, AccountState>, a: Apply, delete_empty: bool) -> Map<
    H160,
    AccountState,
> {
    match a {
        Apply::Modify { address, basic, code, storage, reset_storage } => {
            let acc = modified_account(
                account_or_empty(m, address),
                basic,
                match code {
                    Some(c) => Some(c@),
                    None => None,
                },
                storage@,
                reset_storage,
            );
            if is_empty_account(acc) && delete_empty {
                m.remove(address)
            } else {
                m.insert(address, acc)
            }
        },
        Apply::Delete { address } => m.remove(address),
    }
}

/// The accounts after a sequence of changes, in order.
pub open spec fn apply_all(m: Map<H160, AccountState>, values: Seq<Apply>, delete_empty: bool) -> Map<
    H160,
    AccountState,
>
    decreases values.len(),
{
    if values.len() == 0 {
        m
    } else {
        apply_one(apply_all(m, values.drop_last(), delete_empty), values.last(), delete_empty)
    }
}

/// No account's storage holds a zero value.
pub open spec fn no_zero_storage(m: Map<H160, AccountState>) -> bool {
    forall|a: H160, k: H256|
        #![trigger m[a].storage[k]]
        m.contains_key(a) && m[a].storage.contains_key(k) ==> !m[a].storage[k].spec_is_zero()
}

/// Drops the storage slots that hold zero.
fn drop_zero_slots(storage: &AssocMap<H256, H256>) -> (r: AssocMap<H256, H256>)
    ensures
        r@ == without_zero_values(storage@),
{
    proof {
        use_type_invariant(storage);
        storage.lemma_entries();
    }
    let ghost e = storage.entries();
    let mut r: AssocMap<H256, H256> = AssocMap::new();
    let mut i: usize = 0;
    while i < storage.len()
        invariant
            i <= e.len(),
            e == storage.entries(),
            storage@ == entries_map(e),
            crate::assoc::keys_unique(e),
            forall|j: int| 0 <= j < e.len() ==> #[trigger] storage@.contains_key(e[j].0) && storage@[e[j].0] == e[j].1,
            forall|j: int|
                0 <= j < i && !e[j].1.spec_is_zero() ==> #[trigger] r@.contains_key(e[j].0) && r@[e[j].0]
                    == e[j].1,
            forall|k: H256|
                #[trigger] r@.contains_key(k) ==> exists|j: int|
                    0 <= j < i && #[trigger] e[j].0 == k && !e[j].1.spec_is_zero(),
        decreases e.len() - i,
    {
        let (k, v) = *storage.entry_at(i);
        proof {
            assert(e[i as int] == (k, v));
        }
        if !v.is_zero() {
            r.insert(k, v);
            proof {
                assert forall|j: int|
                    0 <= j < i + 1 && !e[j].1.spec_is_zero() implies #[trigger] r@.contains_key(e[j].0)
                    && r@[e[j].0] == e[j].1 by {
                    if j < i {
                        assert(e[j].0 != k);
                    }
                }
                assert forall|key: H256| #[trigger] r@.contains_key(key) implies exists|j: int|
                    0 <= j < i + 1 && #[trigger] e[j].0 == key && !e[j].1.spec_is_zero() by {
                    if key == k {
                        assert(e[i as int].0 == key);
                    }
                }
            }
        } else {
            proof {
                assert forall|j: int|
                    0 <= j < i + 1 && !e[j].1.spec_is_zero() implies #[trigger] r@.contains_key(e[j].0)
                    && r@[e[j].0] == e[j].1 by {
                    assert(j != i);
                }
            }
        }
        proof {
            assert(forall|j: int|
                0 <= j < i + 1 && !e[j].1.spec_is_zero() ==> #[trigger] r@.contains_key(e[j].0) && r@[e[j].0]
                    == e[j].1);
        }
        i = i + 1;
    }
    proof {
        assert forall|k: H256| #[trigger] r@.contains_key(k) <==> without_zero_values(storage@).contains_key(k) by {
            if storage@.contains_key(k) && !storage@[k].spec_is_zero() {
                assert(has_key(e, k));
                let j = choose|j: int| 0 <= j < e.len() && #[trigger] e[j].0 == k;
                assert(storage@[e[j].0] == e[j].1);
            }
        }
        assert(r@ =~= without_zero_values(storage@));
    }
    r
}

/// Writes `updates` into `storage` in order; a zero value clears its slot.
fn write_storage(storage: &mut AssocMap<H256, H256>, updates: Vec<(H256, H256)>)
    ensures
        final(storage)@ == storage_after_updates(old(storage)@, updates@),
{
    let ghost base = storage@;
    let mut i: usize = 0;
    while i < updates.len()
        invariant
            i <= updates@.len(),
            storage@ == storage_after_updates(base, updates@.take(i as int)),
        decreases updates@.len() - i,
    {
        let (index, value) = updates[i];
        if value.is_zero() {
            storage.remove(&index);
        } else {
            storage.insert(index, value);
        }
        proof {
            assert(updates@.take(i + 1).drop_last() =~= updates@.take(i as int));
        }
        i = i + 1;
    }
    proof {
        assert(updates@.take(i as int) =~= updates@);
    }
}

/// Applies the executor's changes to the accounts, then appends its logs to `logs_out`.
/// An account that a change leaves empty is removed when `delete_empty` holds.
pub fn apply(
    accounts: &mut Accounts,
    logs_out: &mut Vec<Log>,
    values: Vec<Apply>,
    logs: Vec<Log>,
    delete_empty: bool,
)
    ensures
        accounts_view(final(accounts)@) == apply_all(accounts_view(old(accounts)@), values@, delete_empty),
        final(logs_out)@ == old(logs_out)@ + logs@,
{
    let ghost start = accounts_view(accounts@);
    let ghost all = values@;
    let mut values = values;
    let total = values.len();
    proof {
        assert(all.take(0) =~= Seq::<Apply>::empty());
        assert(all.skip(0) =~= all);
    }
    let mut done: usize = 0;
    while values.len() > 0
        invariant
            done + values@.len() == all.len(),
            all.len() == total,
            values@ == all.skip(done as int),
            accounts_view(accounts@) == apply_all(start, all.take(done as int), delete_empty),
        decreases values@.len(),
    {
        let a = values.remove(0);
        proof {
            assert(a == all[done as int]);
            assert(all.take(done + 1).drop_last() =~= all.take(done as int));
            assert(values@ =~= all.skip(done + 1));
        }
        apply_change(accounts, a, delete_empty);
        done = done + 1;
    }
    proof {
        assert(all.take(done as int) =~= all);
    }
    let mut logs = logs;
    logs_out.append(&mut logs);
}

/// Applies one change.
fn apply_change(accounts: &mut Accounts, a: Apply, delete_empty: bool)
    ensures
        accounts_view(final(accounts)@) == apply_one(accounts_view(old(accounts)@), a, delete_empty),
{
    let ghost before = accounts_view(accounts@);
    let ghost change = a;
    match a {
        Apply::Modify { address, basic, code, storage, reset_storage } => {
            let mut account = match accounts.remove(&address) {
                Some(acc) => acc,
                None => MemAccount::default(),
            };
            proof {
                assert(account@ == account_or_empty(before, address));
            }
            account.balance = basic.balance;
            account.nonce = basic.nonce;
            match code {
                Some(c) => {
                    account.code = c;
                },
                None => {},
            }
            if reset_storage {
                account.storage = AssocMap::new();
            }
            account.storage = drop_zero_slots(&account.storage);
            write_storage(&mut account.storage, storage);
            let is_empty = account.balance.is_zero() && account.nonce.is_zero()
                && account.code.len() == 0;
            if !(is_empty && delete_empty) {
                accounts.insert(address, account);
                proof {
                    assert(accounts_view(accounts@) =~= apply_one(before, change, delete_empty));
                }
            } else {
                proof {
                    assert(accounts_view(accounts@) =~= apply_one(before, change, delete_empty));
                }
            }
        },
        Apply::Delete { address } => {
            accounts.remove(&address);
            proof {
                assert(accounts_view(accounts@) =~= apply_one(before, change, delete_empty));
            }
        },
    }
}

} // verus!

verus! {

/// How an execution ended, as the executor reports it.
#[derive(Clone, Copy, Debug, PartialEq, Eq)]
pub enum ExitReason {
    /// Ran to completion.
    Succeed,
    /// Stopped on an error.
    Error,
    /// Reverted.
    Revert,
    /// Stopped on a fatal error.
    Fatal,
}

/// Whether an account exists at `address`.
pub fn account_exists(accounts: &Accounts, address: &H160) -> (r: bool)
    ensures
        r == accounts@.contains_key(*address),
{
    accounts.contains_key(address)
}

/// The balance and nonce at `address`; zero for a missing account.
pub fn basic(accounts: &Accounts, address: &H160) -> (r: Basic)
    ensures
        r.balance == account_or_empty(accounts_view(accounts@), *address).balance,
        r.nonce == account_or_empty(accounts_view(accounts@), *address).nonce,
{
    match accounts.get(address) {
        Some(a) => Basic { balance: a.balance, nonce: a.nonce },
        None => Basic { balance: U256::zero(), nonce: U256::zero() },
    }
}

/// The code at `address`; empty for a missing account.
pub fn code(accounts: &Accounts, address: &H160) -> (r: Vec<u8>)
    ensures
        r@ == account_or_empty(accounts_view(accounts@), *address).code,
{
    match accounts.get(address) {
        Some(a) => a.code.clone(),
        None => Vec::new(),
    }
}

/// The storage slot `index` at `address`, if the account and the slot exist.
pub open spec fn stored(m: Map<H160, AccountState>, address: H160, index: H256) -> Option<H256> {
    if m.contains_key(address) && m[address].storage.contains_key(index) {
        Some(m[address].storage[index])
    } else {
        None
    }
}

/// The storage slot `index` at `address`; zero when the account or the slot is missing.
pub fn storage(accounts: &Accounts, address: &H160, index: &H256) -> (r: H256)
    ensures
        match stored(accounts_view(accounts@), *address, *index) {
            Some(v) => r == v,
            None => r.spec_is_zero(),
        },
{
    match original_storage(accounts, address, index) {
        Some(v) => v,
        None => H256::zero(),
    }
}

/// The storage slot `index` at `address`, if the account and the slot exist.
pub fn original_storage(accounts: &Accounts, address: &H160, index: &H256) -> (r: Option<H256>)
    ensures
        r == stored(accounts_view(accounts@), *address, *index),
{
    match accounts.get(address) {
        Some(a) => match a.storage.get(index) {
            Some(v) => Some(*v),
            None => None,
        },
        None => None,
    }
}

/// A copy of the accounts.
pub fn copy_accounts(accounts: &Accounts) -> (r: Accounts)
    ensures
        accounts_view(r@) == accounts_view(accounts@),
{
    proof {
        use_type_invariant(accounts);
        accounts.lemma_entries();
    }
    let ghost e = accounts.entries();
    let mut r: Accounts = AssocMap::new();
    let mut i: usize = 0;
    while i < accounts.len()
        invariant
            i <= e.len(),
            e == accounts.entries(),
            crate::assoc::keys_unique(e),
            forall|j: int| 0 <= j < e.len() ==> #[trigger] accounts@.contains_key(e[j].0) && accounts@[e[j].0] == e[j].1,
            forall|k: H160| #[trigger] accounts@.contains_key(k) <==> has_key(e, k),
            forall|j: int| 0 <= j < i ==> #[trigger] r@.contains_key(e[j].0) && r@[e[j].0]@ == e[j].1@,
            forall|k: H160| #[trigger] r@.contains_key(k) ==> exists|j: int| 0 <= j < i && #[trigger] e[j].0 == k,
        decreases e.len() - i,
    {
        let entry = accounts.entry_at(i);
        let k = entry.0;
        let v = entry.1.duplicate();
        proof {
            assert(e[i as int].0 == k);
        }
        r.insert(k, v);
        proof {
            assert forall|j: int| 0 <= j < i + 1 implies #[trigger] r@.contains_key(e[j].0) && r@[e[j].0]@ == e[j].1@ by {
                if j < i {
                    assert(e[j].0 != k);
                }
            }
            assert forall|key: H160| #[trigger] r@.contains_key(key) implies exists|j: int| 0 <= j < i + 1 && #[trigger] e[j].0 == key by {
                if key == k {
                    assert(e[i as int].0 == key);
                }
            }
        }
        i = i + 1;
    }
    proof {
        assert forall|k: H160| #[trigger] accounts_view(r@).contains_key(k) <==> accounts_view(accounts@).contains_key(k) by {
            if accounts@.contains_key(k) {
                let j = choose|j: int| 0 <= j < e.len() && #[trigger] e[j].0 == k;
                assert(r@.contains_key(e[j].0));
            }
        }
        assert forall|k: H160| #[trigger] accounts_view(r@).contains_key(k) implies accounts_view(r@)[k] == accounts_view(accounts@)[k] by {
            let j = choose|j: int| 0 <= j < i && #[trigger] e[j].0 == k;
            assert(r@[e[j].0]@ == e[j].1@);
        }
        assert(accounts_view(r@) =~= accounts_view(accounts@));
    }
    r
}

} // verus!

verus! {

/// Writing updates into storage without zero values leaves none.
proof fn lemma_updates_keep_nonzero(s: Map<H256, H256>, updates: Seq<(H256, H256)>)
    requires
        forall|k: H256| #[trigger] s.contains_key(k) ==> !s[k].spec_is_zero(),
    ensures
        forall|k: H256|
            #[trigger] storage_after_updates(s, updates).contains_key(k) ==> !storage_after_updates(
                s,
                updates,
            )[k].spec_is_zero(),
    decreases updates.len(),
{
    if updates.len() == 0 {
        assert(storage_after_updates(s, updates) == s);
    } else {
        lemma_updates_keep_nonzero(s, updates.drop_last());
        let prev = storage_after_updates(s, updates.drop_last());
        let r = storage_after_updates(s, updates);
        assert forall|k: H256| #[trigger] r.contains_key(k) implies !r[k].spec_is_zero() by {
            if k != updates.last().0 {
                assert(prev.contains_key(k));
            }
        }
    }
}

/// Applying changes never leaves a zero value in any account's storage, if there was none
/// before: a cleared slot is removed, and a modified account drops its zero slots.
pub proof fn law_apply_keeps_storage_nonzero(m: Map<H160, AccountState>, values: Seq<Apply>, delete_empty: bool)
    requires
        no_zero_storage(m),
    ensures
        no_zero_storage(apply_all(m, values, delete_empty)),
    decreases values.len(),
{
    if values.len() > 0 {
        law_apply_keeps_storage_nonzero(m, values.drop_last(), delete_empty);
        let prev = apply_all(m, values.drop_last(), delete_empty);
        match values.last() {
            Apply::Modify { address, basic, code, storage, reset_storage } => {
                let before = account_or_empty(prev, address);
                let kept = if reset_storage {
                    Map::<H256, H256>::empty()
                } else {
                    before.storage
                };
                lemma_updates_keep_nonzero(without_zero_values(kept), storage@);
            },
            Apply::Delete { address } => {},
        }
    }
}

/// When empty accounts are deleted, applying changes leaves no empty account, if there was
/// none before.
pub proof fn law_delete_empty_leaves_no_empty_account(m: Map<H160, AccountState>, values: Seq<Apply>)
    requires
        forall|a: H160| #[trigger] m.contains_key(a) ==> !is_empty_account(m[a]),
    ensures
        forall|a: H160|
            #[trigger] apply_all(m, values, true).contains_key(a) ==> !is_empty_account(
                apply_all(m, values, true)[a],
            ),
    decreases values.len(),
{
    if values.len() == 0 {
        assert(apply_all(m, values, true) == m);
    } else {
        law_delete_empty_leaves_no_empty_account(m, values.drop_last());
        let prev = apply_all(m, values.drop_last(), true);
        let r = apply_all(m, values, true);
        assert(r == apply_one(prev, values.last(), true));
        assert forall|a: H160| #[trigger] r.contains_key(a) implies !is_empty_account(r[a]) by {
            match values.last() {
                Apply::Modify { address, basic, code, storage, reset_storage } => {
                    if a != address {
                        assert(prev.contains_key(a));
                    }
                },
                Apply::Delete { address } => {
                    assert(prev.contains_key(a));
                },
            }
        }
    }
}

/// A deleted account is gone, whatever came before.
pub proof fn law_deleted_account_is_gone(m: Map<H160, AccountState>, values: Seq<Apply>, address: H160, delete_empty: bool)
    ensures
        !apply_all(m, values.push(Apply::Delete { address }), delete_empty).contains_key(address),
{
    assert(values.push(Apply::Delete { address }).drop_last() =~= values);
}

} // verus!
