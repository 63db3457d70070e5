use vstd::prelude::*;
use crate::codec::Key;
use crate::processor::{
    checker_error, contribute_error, contribute_plan, initialize_error, initialize_plan,
    pledge_slot_is_empty, refund_error, refund_plan, settle_plan, AccountView, Effect,
};
use crate::address::is_token_program_key;
use crate::error::ProcessError;
use crate::state::{contributor_from_bytes, fundraiser_from_bytes};

verus! {

/// The books of one campaign: the total its record shows, the balance its
/// vault holds, and the live pledges as (pledge record address, amount).
pub struct Ledger {
    pub raised: int,
    pub vault: int,
    pub pledges: Seq<(Seq<u8>, int)>,
}

/// Sum of the pledged amounts.
pub open spec fn pledge_sum(s: Seq<(Seq<u8>, int)>) -> int
    decreases s.len(),
{
    if s.len() == 0 {
        0
    } else {
        pledge_sum(s.drop_last()) + s.last().1
    }
}

/// No pledge record appears twice.
pub open spec fn distinct_keys(s: Seq<(Seq<u8>, int)>) -> bool {
    forall|i: int, j: int| 0 <= i < s.len() && 0 <= j < s.len() && i != j ==> s[i].0 != s[j].0
}

/// Whether a pledge is recorded under `k`.
pub open spec fn has_pledge(s: Seq<(Seq<u8>, int)>, k: Seq<u8>) -> bool {
    exists|i: int| 0 <= i < s.len() && s[i].0 == k
}

/// Where the pledge under `k` stands.
pub open spec fn pledge_index(s: Seq<(Seq<u8>, int)>, k: Seq<u8>) -> int {
    choose|i: int| 0 <= i < s.len() && s[i].0 == k
}

/// The amount pledged under `k`, zero where there is none.
pub open spec fn pledge_of(s: Seq<(Seq<u8>, int)>, k: Seq<u8>) -> int {
    if has_pledge(s, k) {
        s[pledge_index(s, k)].1
    } else {
        0
    }
}

/// The pledges with the one under `k` set to `v`, added if absent.
pub open spec fn set_pledge(s: Seq<(Seq<u8>, int)>, k: Seq<u8>, v: int) -> Seq<(Seq<u8>, int)> {
    if has_pledge(s, k) {
        s.update(pledge_index(s, k), (k, v))
    } else {
        s.push((k, v))
    }
}

/// The pledges without the one under `k`.
pub open spec fn remove_pledge(s: Seq<(Seq<u8>, int)>, k: Seq<u8>) -> Seq<(Seq<u8>, int)> {
    if has_pledge(s, k) {
        s.remove(pledge_index(s, k))
    } else {
        s
    }
}

/// The campaign's total equals the sum of its live pledges and the balance
/// its vault holds.
pub open spec fn balanced(l: Ledger) -> bool {
    &&& distinct_keys(l.pledges)
    &&& l.raised == pledge_sum(l.pledges)
    &&& l.vault == l.raised
}

/// The books after one step of a plan, for the campaign record at
/// `fundraiser` with its vault at `vault`.
pub open spec fn apply_effect(l: Ledger, e: Effect, fundraiser: Seq<u8>, vault: Seq<u8>) -> Ledger {
    match e {
        Effect::TokenTransfer { source, destination, amount, .. } => {
            let incoming = if destination@ == vault {
                amount as int
            } else {
                0
            };
            let outgoing = if source@ == vault {
                amount as int
            } else {
                0
            };
            Ledger { vault: l.vault + incoming - outgoing, ..l }
        },
        Effect::WriteFundraiser { account, record } => {
            if account@ == fundraiser {
                Ledger { raised: record.current_amount as int, ..l }
            } else {
                l
            }
        },
        Effect::WriteContributor { account, record } => Ledger {
            pledges: set_pledge(l.pledges, account@, record.amount as int),
            ..l
        },
        Effect::CloseRecord { account, .. } => Ledger {
            pledges: remove_pledge(l.pledges, account@),
            ..l
        },
        _ => l,
    }
}

/// The books after a whole plan.
pub open spec fn apply_plan(l: Ledger, plan: Seq<Effect>, fundraiser: Seq<u8>, vault: Seq<u8>) -> Ledger
    decreases plan.len(),
{
    if plan.len() == 0 {
        l
    } else {
        apply_effect(apply_plan(l, plan.drop_last(), fundraiser, vault), plan.last(), fundraiser, vault)
    }
}

proof fn lemma_sum_update(s: Seq<(Seq<u8>, int)>, i: int, x: (Seq<u8>, int))
    requires
        0 <= i < s.len(),
    ensures
        pledge_sum(s.update(i, x)) == pledge_sum(s) - s[i].1 + x.1,
    decreases s.len(),
{
    let t = s.update(i, x);
    if i == s.len() - 1 {
        assert(t.drop_last() =~= s.drop_last());
    } else {
        assert(t.drop_last() =~= s.drop_last().update(i, x));
        lemma_sum_update(s.drop_last(), i, x);
    }
}

proof fn lemma_sum_remove(s: Seq<(Seq<u8>, int)>, i: int)
    requires
        0 <= i < s.len(),
    ensures
        pledge_sum(s.remove(i)) == pledge_sum(s) - s[i].1,
    decreases s.len(),
{
    let t = s.remove(i);
    if i == s.len() - 1 {
        assert(t =~= s.drop_last());
    } else {
        assert(t.drop_last() =~= s.drop_last().remove(i));
        lemma_sum_remove(s.drop_last(), i);
    }
}

/// Setting the pledge under `k` to `v` moves the sum by the difference and
/// keeps the addresses distinct.
proof fn lemma_set_pledge(s: Seq<(Seq<u8>, int)>, k: Seq<u8>, v: int)
    requires
        distinct_keys(s),
    ensures
        distinct_keys(set_pledge(s, k, v)),
        pledge_sum(set_pledge(s, k, v)) == pledge_sum(s) - pledge_of(s, k) + v,
        has_pledge(set_pledge(s, k, v), k),
        pledge_of(set_pledge(s, k, v), k) == v,
{
    let t = set_pledge(s, k, v);
    if has_pledge(s, k) {
        let i = pledge_index(s, k);
        lemma_sum_update(s, i, (k, v));
        assert(t[i].0 == k);
        let j = pledge_index(t, k);
        assert(j == i);
    } else {
        assert(t.drop_last() =~= s);
        assert(t[s.len() as int].0 == k);
        let j = pledge_index(t, k);
        assert(j == s.len());
    }
}

/// Removing the pledge under `k` lowers the sum by its amount and leaves
/// no pledge under `k`.
proof fn lemma_remove_pledge(s: Seq<(Seq<u8>, int)>, k: Seq<u8>)
    requires
        distinct_keys(s),
    ensures
        distinct_keys(remove_pledge(s, k)),
        pledge_sum(remove_pledge(s, k)) == pledge_sum(s) - pledge_of(s, k),
        !has_pledge(remove_pledge(s, k), k),
{
    if has_pledge(s, k) {
        let i = pledge_index(s, k);
        let t = s.remove(i);
        lemma_sum_remove(s, i);
        assert forall|j: int| 0 <= j < t.len() implies t[j].0 != k by {
            if j < i {
                assert(t[j] == s[j]);
            } else {
                assert(t[j] == s[j + 1]);
            }
        }
        assert forall|a: int, b: int| 0 <= a < t.len() && 0 <= b < t.len() && a != b implies t[a].0
            != t[b].0 by {
            let sa = if a < i { a } else { a + 1 };
            let sb = if b < i { b } else { b + 1 };
            assert(t[a] == s[sa]);
            assert(t[b] == s[sb]);
        }
    }
}

/// The books agree with the accounts a Contribute call is given: the
/// campaign's total is its record's, and the pledge slot's amount is the
/// ledger's entry, absent for a slot never used.
pub open spec fn books_match_contribute(l: Ledger, a: Seq<AccountView>) -> bool {
    &&& l.raised == fundraiser_from_bytes(a[3].data@).current_amount
    &&& if pledge_slot_is_empty(a[1]) {
        !has_pledge(l.pledges, a[1].key@)
    } else {
        has_pledge(l.pledges, a[1].key@) && pledge_of(l.pledges, a[1].key@)
            == contributor_from_bytes(a[1].data@).amount
    }
}

/// A successful contribution keeps the campaign's total, the sum of its live
/// pledges and its vault balance equal, and raises each of them, and the
/// contributor's own pledge, by exactly the amount contributed.
pub proof fn lemma_contribute_keeps_books_balanced(
    a: Seq<AccountView>,
    data: Seq<u8>,
    pid: Key,
    now: i64,
    plan: Seq<Effect>,
    l: Ledger,
)
    requires
        contribute_error(a, data, pid, now) is None,
        contribute_plan(a, data, pid, plan),
        a[2].key@ != a[4].key@,
        balanced(l),
        books_match_contribute(l, a),
    ensures
        ({
            let amount = crate::codec::u64_from_le(data, 0) as int;
            let after = apply_plan(l, plan, a[3].key@, a[4].key@);
            &&& balanced(after)
            &&& after.raised == l.raised + amount
            &&& pledge_of(after.pledges, a[1].key@) == pledge_of(l.pledges, a[1].key@) + amount
        }),
{
    let amount = crate::codec::u64_from_le(data, 0) as int;
    let f = a[3].key@;
    let v = a[4].key@;
    let k = a[1].key@;
    let l1 = apply_plan(l, plan.subrange(0, 1), f, v);
    let l2 = apply_plan(l, plan.subrange(0, 2), f, v);
    assert(plan.subrange(0, 1).drop_last() =~= plan.subrange(0, 0));
    assert(plan.subrange(0, 2).drop_last() =~= plan.subrange(0, 1));
    assert(apply_plan(l, plan.subrange(0, 0), f, v) == l);
    assert(l1 == apply_effect(l, plan[0], f, v));
    assert(l2 == apply_effect(l1, plan[1], f, v));
    assert(l1.vault == l.vault + amount);
    assert(l2.raised == l.raised + amount);
    assert(l2.pledges == l.pledges);
    if pledge_slot_is_empty(a[1]) {
        let l3 = apply_plan(l, plan.subrange(0, 3), f, v);
        assert(plan.subrange(0, 3).drop_last() =~= plan.subrange(0, 2));
        assert(plan.drop_last() =~= plan.subrange(0, 3));
        assert(l3 == apply_effect(l2, plan[2], f, v));
        assert(l3 == l2);
        lemma_set_pledge(l.pledges, k, amount);
    } else {
        assert(plan.drop_last() =~= plan.subrange(0, 2));
        lemma_set_pledge(l.pledges, k, pledge_of(l.pledges, k) + amount);
    }
}

/// The books agree with the accounts a Refund call is given: the campaign's
/// total is its record's, and the ledger holds the pledge record's amount.
pub open spec fn books_match_refund(l: Ledger, a: Seq<AccountView>) -> bool {
    &&& l.raised == fundraiser_from_bytes(a[3].data@).current_amount
    &&& has_pledge(l.pledges, a[1].key@)
    &&& pledge_of(l.pledges, a[1].key@) == contributor_from_bytes(a[1].data@).amount
}

/// A successful refund keeps the books balanced, takes exactly the
/// contributor's recorded amount out of the total and the vault, and leaves
/// no pledge of theirs to refund again.
pub proof fn lemma_refund_keeps_books_balanced(
    a: Seq<AccountView>,
    pid: Key,
    now: i64,
    plan: Seq<Effect>,
    l: Ledger,
)
    requires
        refund_error(a, pid, now) is None,
        refund_plan(a, plan),
        a[2].key@ != a[4].key@,
        balanced(l),
        books_match_refund(l, a),
    ensures
        ({
            let amount = contributor_from_bytes(a[1].data@).amount as int;
            let after = apply_plan(l, plan, a[3].key@, a[4].key@);
            &&& balanced(after)
            &&& after.raised == l.raised - amount
            &&& after.vault == l.vault - amount
            &&& !has_pledge(after.pledges, a[1].key@)
        }),
{
    let f = a[3].key@;
    let v = a[4].key@;
    let k = a[1].key@;
    let amount = contributor_from_bytes(a[1].data@).amount as int;
    let l1 = apply_plan(l, plan.subrange(0, 1), f, v);
    let l2 = apply_plan(l, plan.subrange(0, 2), f, v);
    assert(plan.subrange(0, 1).drop_last() =~= plan.subrange(0, 0));
    assert(plan.subrange(0, 2).drop_last() =~= plan.subrange(0, 1));
    assert(plan.drop_last() =~= plan.subrange(0, 2));
    assert(apply_plan(l, plan.subrange(0, 0), f, v) == l);
    assert(l1 == apply_effect(l, plan[0], f, v));
    assert(l2 == apply_effect(l1, plan[1], f, v));
    assert(l1.vault == l.vault - amount);
    assert(l2.raised == l.raised - amount);
    lemma_remove_pledge(l.pledges, k);
}


/// A campaign starts with balanced books: after a successful Initialize its
/// total is zero, its fresh vault is empty and it has no pledges.
pub proof fn lemma_initialize_opens_balanced_books(
    a: Seq<AccountView>,
    data: Seq<u8>,
    pid: Key,
    plan: Seq<Effect>,
    l: Ledger,
)
    requires
        initialize_error(a, data, pid) is None,
        initialize_plan(a, data, pid, plan),
        l.vault == 0,
        l.pledges.len() == 0,
    ensures
        ({
            let after = apply_plan(l, plan, a[2].key@, a[3].key@);
            &&& balanced(after)
            &&& after.raised == 0
        }),
{
    let f = a[2].key@;
    let v = a[3].key@;
    assert(plan.subrange(0, 1).drop_last() =~= plan.subrange(0, 0));
    assert(plan.subrange(0, 2).drop_last() =~= plan.subrange(0, 1));
    assert(plan.subrange(0, 3).drop_last() =~= plan.subrange(0, 2));
    assert(plan.drop_last() =~= plan.subrange(0, 3));
    assert(apply_plan(l, plan.subrange(0, 0), f, v) == l);
    let l1 = apply_plan(l, plan.subrange(0, 1), f, v);
    let l2 = apply_plan(l, plan.subrange(0, 2), f, v);
    let l3 = apply_plan(l, plan.subrange(0, 3), f, v);
    assert(l1 == apply_effect(l, plan[0], f, v));
    assert(l2 == apply_effect(l1, plan[1], f, v));
    assert(l3 == apply_effect(l2, plan[2], f, v));
    assert(l2.raised == 0);
    assert(pledge_sum(l.pledges) == 0);
}

/// Settling a campaign pays out everything its vault holds: afterwards the
/// vault is empty and the pledges are untouched, whatever the maker's
/// accounts.
pub proof fn lemma_settle_empties_vault(
    maker: Key,
    maker_ata: Key,
    fundraiser: Key,
    vault: Key,
    bump: u8,
    balance: u64,
    l: Ledger,
)
    requires
        l.vault == balance,
        maker_ata@ != vault@,
    ensures
        ({
            let after = apply_plan(
                l,
                settle_plan(maker, maker_ata, fundraiser, vault, bump, balance),
                fundraiser@,
                vault@,
            );
            &&& after.vault == 0
            &&& after.raised == l.raised
        }),
{
    let plan = settle_plan(maker, maker_ata, fundraiser, vault, bump, balance);
    let f = fundraiser@;
    let v = vault@;
    assert(plan.subrange(0, 1).drop_last() =~= plan.subrange(0, 0));
    assert(plan.subrange(0, 2).drop_last() =~= plan.subrange(0, 1));
    assert(plan.drop_last() =~= plan.subrange(0, 2));
    assert(apply_plan(l, plan.subrange(0, 0), f, v) == l);
    let l1 = apply_plan(l, plan.subrange(0, 1), f, v);
    let l2 = apply_plan(l, plan.subrange(0, 2), f, v);
    assert(l1 == apply_effect(l, plan[0], f, v));
    assert(l2 == apply_effect(l1, plan[1], f, v));
    assert(l1.vault == 0);
}


/// A pledge record that a refund has closed holds no data, so refunding it
/// again is refused as uninitialized.
pub proof fn lemma_closed_pledge_cannot_be_refunded(a: Seq<AccountView>, pid: Key, now: i64)
    requires
        a.len() == 6,
        is_token_program_key(a[5].key@),
        a[1].data@.len() == 0,
    ensures
        refund_error(a, pid, now) == Some(ProcessError::UninitializedAccount),
{
}

/// A campaign that Finalize has closed holds no record, so it can never be
/// finalized again.
pub proof fn lemma_closed_campaign_cannot_settle(a: Seq<AccountView>, pid: Key)
    requires
        a.len() == 5,
        a[2].data@.len() == 0,
    ensures
        checker_error(a, pid) is Some,
{
}

} // verus!
