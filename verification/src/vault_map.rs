use crate::keys::Pubkey;
use crate::records::UserLock;
use vstd::prelude::*;

verus! {

/// The key a vault record is stored under: its (owner, mint) pair.
pub open spec fn vault_key(l: UserLock) -> (Pubkey, Pubkey) {
    (l.user, l.mint)
}

/// Each (owner, mint) pair owns at most one vault record.
pub open spec fn unique_keys(s: Seq<UserLock>) -> bool {
    forall|i: int, j: int|
        0 <= i < j < s.len() ==> vault_key(#[trigger] s[i]) != vault_key(#[trigger] s[j])
}

/// The vault records read as a map from (owner, mint) to the record.
pub open spec fn vaults_map(s: Seq<UserLock>) -> Map<(Pubkey, Pubkey), UserLock>
    decreases s.len(),
{
    if s.len() == 0 {
        Map::empty()
    } else {
        vaults_map(s.drop_last()).insert(vault_key(s.last()), s.last())
    }
}

/// Every record is in the map under its key; with unique keys it is the
/// record the map holds there.
pub proof fn lemma_vaults_map_index(s: Seq<UserLock>, i: int)
    requires
        unique_keys(s),
        0 <= i < s.len(),
    ensures
        vaults_map(s).contains_key(vault_key(s[i])),
        vaults_map(s)[vault_key(s[i])] == s[i],
    decreases s.len(),
{
    if i < s.len() - 1 {
        assert(s.drop_last()[i] == s[i]);
        lemma_vaults_map_index(s.drop_last(), i);
        assert(vault_key(s[i]) != vault_key(s[s.len() - 1]));
    }
}

/// A key no record carries is absent from the map.
pub proof fn lemma_vaults_map_absent(s: Seq<UserLock>, key: (Pubkey, Pubkey))
    requires
        forall|i: int| 0 <= i < s.len() ==> vault_key(#[trigger] s[i]) != key,
    ensures
        !vaults_map(s).contains_key(key),
    decreases s.len(),
{
    if s.len() > 0 {
        assert(forall|i: int|
            0 <= i < s.drop_last().len() ==> vault_key(#[trigger] s.drop_last()[i]) != key);
        lemma_vaults_map_absent(s.drop_last(), key);
    }
}

/// Replacing the record at one index by a record with the same key is, at
/// the map level, one insert at that key.
pub proof fn lemma_vaults_map_update(s: Seq<UserLock>, i: int, v: UserLock)
    requires
        unique_keys(s),
        0 <= i < s.len(),
        vault_key(v) == vault_key(s[i]),
    ensures
        unique_keys(s.update(i, v)),
        vaults_map(s.update(i, v)) == vaults_map(s).insert(vault_key(v), v),
    decreases s.len(),
{
    let t = s.update(i, v);
    assert(forall|a: int| 0 <= a < s.len() && a != i ==> #[trigger] t[a] == s[a]);
    assert(forall|a: int|
        0 <= a < s.len() ==> vault_key(#[trigger] t[a]) == vault_key(s[a]));
    if i == s.len() - 1 {
        assert(t.drop_last() =~= s.drop_last());
        assert(vaults_map(t) == vaults_map(s.drop_last()).insert(vault_key(v), v));
        assert(vaults_map(s.drop_last()).insert(vault_key(s[i]), s[i]).insert(vault_key(v), v)
            =~= vaults_map(s.drop_last()).insert(vault_key(v), v));
    } else {
        assert(t.drop_last() =~= s.drop_last().update(i, v));
        assert(s.drop_last()[i] == s[i]);
        lemma_vaults_map_update(s.drop_last(), i, v);
        let last = s.last();
        assert(t.last() == last);
        assert(vault_key(last) != vault_key(v));
        assert(vaults_map(t) == vaults_map(s.drop_last()).insert(vault_key(v), v).insert(
            vault_key(last),
            last,
        ));
        assert(vaults_map(s.drop_last()).insert(vault_key(v), v).insert(vault_key(last), last)
            =~= vaults_map(s.drop_last()).insert(vault_key(last), last).insert(vault_key(v), v));
    }
}

/// Appending a record whose key is fresh is, at the map level, one insert at
/// that key.
pub proof fn lemma_vaults_map_push(s: Seq<UserLock>, v: UserLock)
    requires
        unique_keys(s),
        forall|i: int| 0 <= i < s.len() ==> vault_key(#[trigger] s[i]) != vault_key(v),
    ensures
        unique_keys(s.push(v)),
        vaults_map(s.push(v)) == vaults_map(s).insert(vault_key(v), v),
{
    let t = s.push(v);
    assert(forall|a: int| 0 <= a < s.len() ==> #[trigger] t[a] == s[a]);
    assert(t[s.len() as int] == v);
    assert(t.drop_last() =~= s);
    assert(t.last() == v);
    assert(vaults_map(t) == vaults_map(s).insert(vault_key(v), v));
}

} // verus!
