//! The collateral list of a credit account: the shape every deposit and withdrawal
//! keeps, and how the recorded amount of each market moves.
use vstd::prelude::*;
use crate::constants::MAX_COLLATERAL_ASSETS;
use crate::pubkey::Pubkey;
use crate::state::CollateralBalance;
use crate::risk::{
    has_match, first_match, is_first_match, lemma_first_match, spec_upsert_collateral,
    spec_reduce_collateral,
};

verus! {

/// A collateral list as the program keeps it: at most eight entries, each with a positive
/// amount, and no market recorded twice.
pub open spec fn collaterals_well_formed(cs: Seq<CollateralBalance>) -> bool {
    &&& cs.len() <= MAX_COLLATERAL_ASSETS
    &&& forall|i: int| 0 <= i < cs.len() ==> #[trigger] cs[i].amount > 0
    &&& forall|i: int, j: int|
        0 <= i < j < cs.len() ==> #[trigger] cs[i].market@ != #[trigger] cs[j].market@
}

/// The amount of market `key` recorded in a collateral list (zero when absent).
pub open spec fn recorded_collateral(cs: Seq<CollateralBalance>, key: Seq<u8>) -> nat {
    if has_match(cs, key) {
        cs[first_match(cs, key)].amount as nat
    } else {
        0
    }
}

/// In a list without repeated markets, the entry of a market is its first match.
proof fn lemma_unique_match(cs: Seq<CollateralBalance>, key: Seq<u8>, i: int)
    requires
        forall|a: int, b: int|
            0 <= a < b < cs.len() ==> #[trigger] cs[a].market@ != #[trigger] cs[b].market@,
        0 <= i < cs.len(),
        cs[i].market@ == key,
    ensures
        has_match(cs, key),
        is_first_match(cs, key, i),
        first_match(cs, key) == i,
        recorded_collateral(cs, key) == cs[i].amount,
{
    assert forall|j: int| 0 <= j < i implies cs[j].market@ != key by {
        assert(cs[j].market@ != cs[i].market@);
    }
    assert(is_first_match(cs, key, i));
    lemma_first_match(cs, key, i);
}

/// In a list without repeated markets, a recorded market's first match is its entry.
proof fn lemma_match_in_distinct(cs: Seq<CollateralBalance>, key: Seq<u8>)
    requires
        forall|a: int, b: int|
            0 <= a < b < cs.len() ==> #[trigger] cs[a].market@ != #[trigger] cs[b].market@,
        has_match(cs, key),
    ensures
        is_first_match(cs, key, first_match(cs, key)),
{
    let k = choose|k: int| 0 <= k < cs.len() && cs[k].market@ == key;
    lemma_unique_match(cs, key, k);
}

/// Depositing a positive amount keeps the collateral list well formed.
pub proof fn law_deposit_keeps_list_well_formed(cs: Seq<CollateralBalance>, market: Pubkey, amount: u64)
    requires
        collaterals_well_formed(cs),
        amount > 0,
        spec_upsert_collateral(cs, market, amount) is Ok,
    ensures
        collaterals_well_formed(spec_upsert_collateral(cs, market, amount)->Ok_0),
{
    let new = spec_upsert_collateral(cs, market, amount)->Ok_0;
    if has_match(cs, market@) {
        lemma_match_in_distinct(cs, market@);
        let i = first_match(cs, market@);
        assert forall|a: int, b: int| 0 <= a < b < new.len() implies #[trigger] new[a].market@
            != #[trigger] new[b].market@ by {
            assert(new[a].market@ == cs[a].market@);
            assert(new[b].market@ == cs[b].market@);
        }
    } else {
        let entry = CollateralBalance { market, amount };
        assert(new == cs.push(entry));
        assert forall|a: int, b: int| 0 <= a < b < new.len() implies #[trigger] new[a].market@
            != #[trigger] new[b].market@ by {
            assert(new[a] == cs[a]);
            if b == cs.len() {
                assert(new[b] == entry);
                if cs[a].market@ == market@ {
                    assert(has_match(cs, market@));
                }
            } else {
                assert(new[b] == cs[b]);
            }
        }
    }
}

/// Withdrawing keeps the collateral list well formed: an entry that reaches zero is
/// dropped.
pub proof fn law_withdrawal_keeps_list_well_formed(cs: Seq<CollateralBalance>, market: Pubkey, amount: u64)
    requires
        collaterals_well_formed(cs),
        spec_reduce_collateral(cs, market, amount) is Ok,
    ensures
        collaterals_well_formed(spec_reduce_collateral(cs, market, amount)->Ok_0),
{
    let new = spec_reduce_collateral(cs, market, amount)->Ok_0;
    lemma_match_in_distinct(cs, market@);
    let i = first_match(cs, market@);
    if cs[i].amount == amount {
        assert forall|k: int| 0 <= k < new.len() implies #[trigger] new[k].amount > 0 by {
            if k < i {
                assert(new[k] == cs[k]);
            } else {
                assert(new[k] == cs[k + 1]);
            }
        }
        assert forall|a: int, b: int| 0 <= a < b < new.len() implies #[trigger] new[a].market@
            != #[trigger] new[b].market@ by {
            let a0 = if a < i { a } else { a + 1 };
            let b0 = if b < i { b } else { b + 1 };
            assert(new[a] == cs[a0]);
            assert(new[b] == cs[b0]);
            assert(cs[a0].market@ != cs[b0].market@);
        }
    } else {
        assert forall|a: int, b: int| 0 <= a < b < new.len() implies #[trigger] new[a].market@
            != #[trigger] new[b].market@ by {
            assert(new[a].market@ == cs[a].market@);
            assert(new[b].market@ == cs[b].market@);
        }
    }
}

/// A deposit adds exactly its amount to the market's recorded collateral.
pub proof fn law_deposit_records_amount(cs: Seq<CollateralBalance>, market: Pubkey, amount: u64)
    requires
        collaterals_well_formed(cs),
        spec_upsert_collateral(cs, market, amount) is Ok,
    ensures
        recorded_collateral(spec_upsert_collateral(cs, market, amount)->Ok_0, market@)
            == recorded_collateral(cs, market@) + amount,
{
    let new = spec_upsert_collateral(cs, market, amount)->Ok_0;
    if has_match(cs, market@) {
        lemma_match_in_distinct(cs, market@);
        let i = first_match(cs, market@);
        lemma_unique_match(cs, market@, i);
        assert forall|a: int, b: int| 0 <= a < b < new.len() implies #[trigger] new[a].market@
            != #[trigger] new[b].market@ by {
            assert(new[a].market@ == cs[a].market@);
            assert(new[b].market@ == cs[b].market@);
        }
        lemma_unique_match(new, market@, i);
    } else {
        let n = cs.len() as int;
        assert forall|j: int| 0 <= j < n implies new[j].market@ != market@ by {
            assert(new[j] == cs[j]);
        }
        assert(is_first_match(new, market@, n));
        lemma_first_match(new, market@, n);
    }
}

/// A withdrawal never takes more than the market's recorded collateral and removes
/// exactly its amount from it.
pub proof fn law_withdrawal_bounded_by_record(cs: Seq<CollateralBalance>, market: Pubkey, amount: u64)
    requires
        collaterals_well_formed(cs),
        spec_reduce_collateral(cs, market, amount) is Ok,
    ensures
        amount <= recorded_collateral(cs, market@),
        recorded_collateral(spec_reduce_collateral(cs, market, amount)->Ok_0, market@)
            == recorded_collateral(cs, market@) - amount,
{
    let new = spec_reduce_collateral(cs, market, amount)->Ok_0;
    lemma_match_in_distinct(cs, market@);
    let i = first_match(cs, market@);
    lemma_unique_match(cs, market@, i);
    law_withdrawal_keeps_list_well_formed(cs, market, amount);
    if cs[i].amount == amount {
        if has_match(new, market@) {
            let k = choose|k: int| 0 <= k < new.len() && new[k].market@ == market@;
            let k0 = if k < i { k } else { k + 1 };
            assert(new[k] == cs[k0]);
            assert(k0 != i);
            if k0 < i {
                assert(cs[k0].market@ != cs[i].market@);
            } else {
                assert(cs[i].market@ != cs[k0].market@);
            }
        }
    } else {
        lemma_unique_match(new, market@, i);
    }
}

/// Depositing a positive amount and withdrawing the same amount of the same market gives
/// back the collateral list it started from.
pub proof fn law_deposit_then_withdrawal_restores(cs: Seq<CollateralBalance>, market: Pubkey, amount: u64)
    requires
        collaterals_well_formed(cs),
        amount > 0,
        spec_upsert_collateral(cs, market, amount) is Ok,
    ensures
        spec_reduce_collateral(spec_upsert_collateral(cs, market, amount)->Ok_0, market, amount)
            == Ok::<Seq<CollateralBalance>, crate::errors::MiladyError>(cs),
{
    let new = spec_upsert_collateral(cs, market, amount)->Ok_0;
    law_deposit_keeps_list_well_formed(cs, market, amount);
    if has_match(cs, market@) {
        lemma_match_in_distinct(cs, market@);
        let i = first_match(cs, market@);
        lemma_unique_match(new, market@, i);
        let back = spec_reduce_collateral(new, market, amount)->Ok_0;
        assert(back =~= cs);
    } else {
        let n = cs.len() as int;
        assert forall|j: int| 0 <= j < n implies new[j].market@ != market@ by {
            assert(new[j] == cs[j]);
        }
        assert(is_first_match(new, market@, n));
        lemma_first_match(new, market@, n);
        assert(new.remove(n) =~= cs);
    }
}

} // verus!
