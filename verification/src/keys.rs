//! Packing of composite ledger keys into single integers, and the views that
//! unpack a packed table back into a table keyed by the pair.

use vstd::prelude::*;

verus! {

/// The key under which a `(pool, account)` pair is filed: the pool in the high
/// 64 bits, the account in the low 64 bits.
pub open spec fn member_key(pool_id: u32, account: u64) -> u128 {
    (pool_id as int * 0x1_0000_0000_0000_0000 + account as int) as u128
}

/// The key under which a `(pool, sequence number)` pair is filed: the pool in
/// the high 32 bits, the sequence number in the low 32 bits.
pub open spec fn slot_key(pool_id: u32, index: u32) -> u64 {
    (pool_id as int * 0x1_0000_0000 + index as int) as u64
}

/// Packs a `(pool, account)` pair.
pub fn pack_member(pool_id: u32, account: u64) -> (k: u128)
    ensures
        k == member_key(pool_id, account),
{
    (pool_id as u128) * 0x1_0000_0000_0000_0000u128 + (account as u128)
}

/// Packs a `(pool, sequence number)` pair.
pub fn pack_slot(pool_id: u32, index: u32) -> (k: u64)
    ensures
        k == slot_key(pool_id, index),
{
    (pool_id as u64) * 0x1_0000_0000u64 + (index as u64)
}

/// Distinct pairs are filed under distinct member keys.
pub proof fn lemma_member_key_injective(p1: u32, a1: u64, p2: u32, a2: u64)
    ensures
        member_key(p1, a1) == member_key(p2, a2) ==> p1 == p2 && a1 == a2,
{
    let x1 = p1 as int;
    let x2 = p2 as int;
    let y1 = a1 as int;
    let y2 = a2 as int;
    assert(x1 * 0x1_0000_0000_0000_0000 + y1 == x2 * 0x1_0000_0000_0000_0000 + y2 ==> x1 == x2 && y1
        == y2) by (nonlinear_arith)
        requires
            0 <= y1 < 0x1_0000_0000_0000_0000,
            0 <= y2 < 0x1_0000_0000_0000_0000,
            0 <= x1 < 0x1_0000_0000,
            0 <= x2 < 0x1_0000_0000,
    ;
}

/// Distinct pairs are filed under distinct slot keys.
pub proof fn lemma_slot_key_injective(p1: u32, i1: u32, p2: u32, i2: u32)
    ensures
        slot_key(p1, i1) == slot_key(p2, i2) ==> p1 == p2 && i1 == i2,
{
    let x1 = p1 as int;
    let x2 = p2 as int;
    let y1 = i1 as int;
    let y2 = i2 as int;
    assert(x1 * 0x1_0000_0000 + y1 == x2 * 0x1_0000_0000 + y2 ==> x1 == x2 && y1 == y2)
        by (nonlinear_arith)
        requires
            0 <= y1 < 0x1_0000_0000,
            0 <= y2 < 0x1_0000_0000,
            0 <= x1 < 0x1_0000_0000,
            0 <= x2 < 0x1_0000_0000,
    ;
}

/// A table filed by member key, read as a table keyed by `(pool, account)`,
/// with each stored value read through `f`.
pub open spec fn by_member<V, W>(m: Map<u128, V>, f: spec_fn(V) -> W) -> Map<(u32, u64), W> {
    Map::new(
        |k: (u32, u64)| m.contains_key(member_key(k.0, k.1)),
        |k: (u32, u64)| f(m[member_key(k.0, k.1)]),
    )
}

/// A table filed by slot key, read as a table keyed by `(pool, sequence number)`,
/// with each stored value read through `f`.
pub open spec fn by_slot<V, W>(m: Map<u64, V>, f: spec_fn(V) -> W) -> Map<(u32, u32), W> {
    Map::new(
        |k: (u32, u32)| m.contains_key(slot_key(k.0, k.1)),
        |k: (u32, u32)| f(m[slot_key(k.0, k.1)]),
    )
}

/// A set of member keys, read as a set of `(pool, account)` pairs.
pub open spec fn members(s: Set<u128>) -> Set<(u32, u64)> {
    Set::new(|k: (u32, u64)| s.contains(member_key(k.0, k.1)))
}

/// A table keyed by `u32`, with each stored value read through `f`.
pub open spec fn read_values<V, W>(m: Map<u32, V>, f: spec_fn(V) -> W) -> Map<u32, W> {
    Map::new(|k: u32| m.contains_key(k), |k: u32| f(m[k]))
}

pub proof fn lemma_by_member_insert<V, W>(
    m: Map<u128, V>,
    f: spec_fn(V) -> W,
    pool_id: u32,
    account: u64,
    v: V,
)
    ensures
        by_member(m.insert(member_key(pool_id, account), v), f) == by_member(m, f).insert(
            (pool_id, account),
            f(v),
        ),
{
    let lhs = by_member(m.insert(member_key(pool_id, account), v), f);
    let rhs = by_member(m, f).insert((pool_id, account), f(v));
    assert forall|k: (u32, u64)| #[trigger] lhs.contains_key(k) == rhs.contains_key(k) by {
        lemma_member_key_injective(k.0, k.1, pool_id, account);
    }
    assert forall|k: (u32, u64)| lhs.contains_key(k) implies #[trigger] lhs[k] == rhs[k] by {
        lemma_member_key_injective(k.0, k.1, pool_id, account);
    }
    assert(lhs =~= rhs);
}

pub proof fn lemma_by_slot_insert<V, W>(
    m: Map<u64, V>,
    f: spec_fn(V) -> W,
    pool_id: u32,
    index: u32,
    v: V,
)
    ensures
        by_slot(m.insert(slot_key(pool_id, index), v), f) == by_slot(m, f).insert(
            (pool_id, index),
            f(v),
        ),
{
    let lhs = by_slot(m.insert(slot_key(pool_id, index), v), f);
    let rhs = by_slot(m, f).insert((pool_id, index), f(v));
    assert forall|k: (u32, u32)| #[trigger] lhs.contains_key(k) == rhs.contains_key(k) by {
        lemma_slot_key_injective(k.0, k.1, pool_id, index);
    }
    assert forall|k: (u32, u32)| lhs.contains_key(k) implies #[trigger] lhs[k] == rhs[k] by {
        lemma_slot_key_injective(k.0, k.1, pool_id, index);
    }
    assert(lhs =~= rhs);
}

pub proof fn lemma_members_insert(s: Set<u128>, pool_id: u32, account: u64)
    ensures
        members(s.insert(member_key(pool_id, account))) == members(s).insert((pool_id, account)),
{
    let lhs = members(s.insert(member_key(pool_id, account)));
    let rhs = members(s).insert((pool_id, account));
    assert forall|k: (u32, u64)| #[trigger] lhs.contains(k) == rhs.contains(k) by {
        lemma_member_key_injective(k.0, k.1, pool_id, account);
    }
    assert(lhs =~= rhs);
}

pub proof fn lemma_read_values_insert<V, W>(m: Map<u32, V>, f: spec_fn(V) -> W, k: u32, v: V)
    ensures
        read_values(m.insert(k, v), f) == read_values(m, f).insert(k, f(v)),
{
    assert(read_values(m.insert(k, v), f) =~= read_values(m, f).insert(k, f(v)));
}

} // verus!
