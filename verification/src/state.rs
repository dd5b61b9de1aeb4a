//! The bridge's persisted state, modelled in memory.
//!
//! Five regions back the settlement core: the role configuration, the
//! pause flag, the two support registries (coins and tokens live in
//! disjoint namespaces), and the two order ledgers (source side and
//! destination side, independent namespaces keyed by order id). The
//! registries and ledgers are association books: vectors of
//! key/value pairs with pairwise-distinct keys, viewed as maps.

use vstd::prelude::*;

verus! {

/// The five privileged identities, each a canonical account string.
#[derive(Clone, Debug, PartialEq, Eq)]
pub struct Config {
    pub governor: String,
    pub treasury: String,
    pub custodian: String,
    pub risk_control: String,
    pub relayer: String,
}

/// Status of an order originated on this chain.
#[derive(Clone, Copy, Debug, PartialEq, Eq, Structural)]
pub enum SrcOrderStatus {
    /// The lock committed; the order awaits settlement or refund.
    Completed,
    /// The order was refunded; terminal.
    Refunded,
}

/// The numeric code a status query reports for a source order.
pub open spec fn src_status_code(s: SrcOrderStatus) -> u128 {
    match s {
        SrcOrderStatus::Completed => 1,
        SrcOrderStatus::Refunded => 2,
    }
}

impl SrcOrderStatus {
    /// The status as its wire-level numeric code.
    pub fn code(&self) -> (r: u128)
        ensures
            r == src_status_code(*self),
    {
        match self {
            SrcOrderStatus::Completed => 1,
            SrcOrderStatus::Refunded => 2,
        }
    }
}

/// The map an association list denotes: later entries would shadow
/// earlier ones, but books keep their keys pairwise distinct.
pub closed spec fn assoc_map<K, V>(entries: Seq<(K, V)>) -> Map<K, V>
    decreases entries.len(),
{
    if entries.len() == 0 {
        Map::empty()
    } else {
        assoc_map(entries.drop_last()).insert(entries.last().0, entries.last().1)
    }
}

/// No two entries share a key.
pub open spec fn distinct_keys<K, V>(entries: Seq<(K, V)>) -> bool {
    forall|i: int, j: int|
        0 <= i < j < entries.len() ==> (#[trigger] entries[i]).0 != (#[trigger] entries[j]).0
}

/// A key is in the denoted map exactly when some entry carries it.
pub proof fn lemma_assoc_map_dom<K, V>(entries: Seq<(K, V)>, k: K)
    ensures
        assoc_map(entries).contains_key(k) <==> exists|i: int|
            0 <= i < entries.len() && (#[trigger] entries[i]).0 == k,
    decreases entries.len(),
{
    if entries.len() == 0 {
    } else {
        lemma_assoc_map_dom(entries.drop_last(), k);
        let n = entries.len() - 1;
        if assoc_map(entries).contains_key(k) {
            if entries.last().0 == k {
                assert(entries[n].0 == k);
            } else {
                let i = choose|i: int|
                    0 <= i < entries.drop_last().len() && (#[trigger] entries.drop_last()[i]).0
                        == k;
                assert(entries[i].0 == k);
            }
        }
        if exists|i: int| 0 <= i < entries.len() && (#[trigger] entries[i]).0 == k {
            let i = choose|i: int| 0 <= i < entries.len() && (#[trigger] entries[i]).0 == k;
            if i < n {
                assert(entries.drop_last()[i].0 == k);
            }
        }
    }
}

/// With distinct keys, the denoted map sends each entry's key to its value.
pub proof fn lemma_assoc_map_at<K, V>(entries: Seq<(K, V)>, i: int)
    requires
        distinct_keys(entries),
        0 <= i < entries.len(),
    ensures
        assoc_map(entries).contains_key(entries[i].0),
        assoc_map(entries)[entries[i].0] == entries[i].1,
    decreases entries.len(),
{
    let n = entries.len() - 1;
    if i == n {
    } else {
        let prefix = entries.drop_last();
        assert forall|a: int, b: int| 0 <= a < b < prefix.len() implies (#[trigger] prefix[a]).0
            != (#[trigger] prefix[b]).0 by {
            assert(entries[a].0 != entries[b].0);
        }
        lemma_assoc_map_at(prefix, i);
        assert(entries[i].0 != entries[n].0);
        assert(prefix[i] == entries[i]);
    }
}

/// Replacing the entry that holds a key updates the denoted map at
/// that key alone.
pub proof fn lemma_assoc_map_update<K, V>(entries: Seq<(K, V)>, i: int, p: (K, V))
    requires
        distinct_keys(entries),
        0 <= i < entries.len(),
        p.0 == entries[i].0,
    ensures
        assoc_map(entries.update(i, p)) == assoc_map(entries).insert(p.0, p.1),
    decreases entries.len(),
{
    let n = entries.len() - 1;
    let updated = entries.update(i, p);
    if i == n {
        assert(updated.drop_last() =~= entries.drop_last());
        assert(updated.last() == p);
        assert(assoc_map(entries.drop_last()).insert(p.0, p.1) =~= assoc_map(
            entries.drop_last(),
        ).insert(entries[n].0, entries[n].1).insert(p.0, p.1));
    } else {
        let prefix = entries.drop_last();
        assert forall|a: int, b: int| 0 <= a < b < prefix.len() implies (#[trigger] prefix[a]).0
            != (#[trigger] prefix[b]).0 by {
            assert(entries[a].0 != entries[b].0);
        }
        assert(prefix[i] == entries[i]);
        lemma_assoc_map_update(prefix, i, p);
        assert(updated.drop_last() =~= prefix.update(i, p));
        assert(updated.last() == entries.last());
        assert(entries[i].0 != entries[n].0);
        assert(assoc_map(prefix).insert(p.0, p.1).insert(entries[n].0, entries[n].1) =~= assoc_map(
            prefix,
        ).insert(entries[n].0, entries[n].1).insert(p.0, p.1));
    }
}

/// Appending an entry with a fresh key extends the denoted map.
pub proof fn lemma_assoc_map_push<K, V>(entries: Seq<(K, V)>, p: (K, V))
    ensures
        assoc_map(entries.push(p)) == assoc_map(entries).insert(p.0, p.1),
{
    assert(entries.push(p).drop_last() =~= entries);
    assert(entries.push(p).last() == p);
}

/// A status table keyed by 128-bit order ids: one side of the order
/// ledger.
#[derive(Clone, Debug)]
pub struct OrderBook<V> {
    entries: Vec<(u128, V)>,
}

impl<V> View for OrderBook<V> {
    type V = Map<u128, V>;

    closed spec fn view(&self) -> Map<u128, V> {
        assoc_map(self.entries@)
    }
}

impl<V: Copy> OrderBook<V> {
    /// The book's keys are pairwise distinct.
    pub closed spec fn wf(self) -> bool {
        distinct_keys(self.entries@)
    }

    /// An empty book.
    pub fn new() -> (r: Self)
        ensures
            r.wf(),
            r@ == Map::<u128, V>::empty(),
    {
        OrderBook { entries: Vec::new() }
    }

    /// The status recorded under an order id, if any.
    pub fn get(&self, key: u128) -> (r: Option<V>)
        requires
            self.wf(),
        ensures
            match r {
                Some(v) => self@.contains_key(key) && self@[key] == v,
                None => !self@.contains_key(key),
            },
    {
        let n = self.entries.len();
        let mut i: usize = 0;
        while i < n
            invariant
                n == self.entries@.len(),
                i <= n,
                self.wf(),
                forall|j: int| 0 <= j < i ==> (#[trigger] self.entries@[j]).0 != key,
            decreases n - i,
        {
            if self.entries[i].0 == key {
                proof {
                    lemma_assoc_map_at(self.entries@, i as int);
                }
                return Some(self.entries[i].1);
            }
            i += 1;
        }
        proof {
            lemma_assoc_map_dom(self.entries@, key);
        }
        None
    }

    /// Every entry of the book, keys distinct, denoting the book's
    /// map.
    pub fn items(&self) -> (r: Vec<(u128, V)>)
        requires
            self.wf(),
        ensures
            distinct_keys(r@),
            assoc_map(r@) == self@,
    {
        let n = self.entries.len();
        let mut r: Vec<(u128, V)> = Vec::new();
        let mut i: usize = 0;
        while i < n
            invariant
                n == self.entries@.len(),
                i <= n,
                self.wf(),
                r@ == self.entries@.subrange(0, i as int),
            decreases n - i,
        {
            let pair = self.entries[i];
            r.push(pair);
            proof {
                assert(r@ =~= self.entries@.subrange(0, i as int + 1));
            }
            i += 1;
        }
        proof {
            assert(r@ =~= self.entries@);
        }
        r
    }

    /// Record a status under an order id, overwriting any previous one.
    pub fn put(&mut self, key: u128, value: V)
        requires
            old(self).wf(),
        ensures
            final(self).wf(),
            final(self)@ == old(self)@.insert(key, value),
    {
        let ghost orig = self.entries@;
        let n = self.entries.len();
        let mut i: usize = 0;
        while i < n
            invariant
                self.entries@ == orig,
                orig == old(self).entries@,
                n == orig.len(),
                i <= n,
                distinct_keys(orig),
                forall|j: int| 0 <= j < i ==> (#[trigger] orig[j]).0 != key,
            decreases n - i,
        {
            if self.entries[i].0 == key {
                self.entries[i] = (key, value);
                proof {
                    lemma_assoc_map_update(orig, i as int, (key, value));
                    assert forall|a: int, b: int|
                        0 <= a < b < self.entries@.len() implies (#[trigger] self.entries@[a]).0
                        != (#[trigger] self.entries@[b]).0 by {
                        assert(orig[a].0 != orig[b].0);
                    }
                }
                return ;
            }
            i += 1;
        }
        self.entries.push((key, value));
        proof {
            lemma_assoc_map_push(orig, (key, value));
            assert forall|a: int, b: int|
                0 <= a < b < self.entries@.len() implies (#[trigger] self.entries@[a]).0
                != (#[trigger] self.entries@[b]).0 by {
            }
        }
    }
}

/// The pairs a support registry holds, as key views.
pub closed spec fn support_entries(entries: Seq<(String, u128)>) -> Seq<(Seq<char>, u128)> {
    entries.map_values(|p: (String, u128)| (p.0@, p.1))
}

/// A support registry: an allow-list from asset identifier to the
/// minimum transferable amount. Absence means the asset is not
/// eligible for lock operations.
#[derive(Clone, Debug)]
pub struct SupportBook {
    entries: Vec<(String, u128)>,
}

impl View for SupportBook {
    type V = Map<Seq<char>, u128>;

    closed spec fn view(&self) -> Map<Seq<char>, u128> {
        assoc_map(support_entries(self.entries@))
    }
}

impl SupportBook {
    /// The registry's keys are pairwise distinct.
    pub closed spec fn wf(self) -> bool {
        distinct_keys(support_entries(self.entries@))
    }

    /// An empty registry.
    pub fn new() -> (r: Self)
        ensures
            r.wf(),
            r@ == Map::<Seq<char>, u128>::empty(),
    {
        let r = SupportBook { entries: Vec::new() };
        proof {
            assert(support_entries(r.entries@) =~= Seq::<(Seq<char>, u128)>::empty());
        }
        r
    }

    /// The floor registered for an asset, if any.
    pub fn get(&self, asset: &String) -> (r: Option<u128>)
        requires
            self.wf(),
        ensures
            match r {
                Some(v) => self@.contains_key(asset@) && self@[asset@] == v,
                None => !self@.contains_key(asset@),
            },
    {
        let ghost keyed = support_entries(self.entries@);
        let n = self.entries.len();
        let mut i: usize = 0;
        while i < n
            invariant
                keyed == support_entries(self.entries@),
                keyed.len() == n,
                n == self.entries@.len(),
                i <= n,
                self.wf(),
                forall|j: int| 0 <= j < i ==> (#[trigger] keyed[j]).0 != asset@,
            decreases n - i,
        {
            if self.entries[i].0 == *asset {
                proof {
                    assert(keyed[i as int].0 == asset@);
                    lemma_assoc_map_at(keyed, i as int);
                }
                return Some(self.entries[i].1);
            }
            proof {
                assert(keyed[i as int].0 == self.entries@[i as int].0@);
            }
            i += 1;
        }
        proof {
            lemma_assoc_map_dom(keyed, asset@);
        }
        None
    }

    /// Every entry of the registry, keys distinct, denoting the
    /// registry's map.
    pub fn items(&self) -> (r: Vec<(String, u128)>)
        requires
            self.wf(),
        ensures
            distinct_keys(support_entries(r@)),
            assoc_map(support_entries(r@)) == self@,
    {
        let n = self.entries.len();
        let mut r: Vec<(String, u128)> = Vec::new();
        let mut i: usize = 0;
        while i < n
            invariant
                n == self.entries@.len(),
                i <= n,
                self.wf(),
                r@.len() == i,
                forall|j: int| 0 <= j < i ==> #[trigger] r@[j] == self.entries@[j],
            decreases n - i,
        {
            let pair = (self.entries[i].0.clone(), self.entries[i].1);
            r.push(pair);
            i += 1;
        }
        proof {
            assert(r@ =~= self.entries@);
            assert(support_entries(r@) =~= support_entries(self.entries@));
        }
        r
    }

    /// Register an asset's floor, overwriting any previous entry.
    pub fn put(&mut self, asset: &String, amount_min: u128)
        requires
            old(self).wf(),
        ensures
            final(self).wf(),
            final(self)@ == old(self)@.insert(asset@, amount_min),
    {
        let ghost orig = self.entries@;
        let ghost keyed = support_entries(orig);
        let n = self.entries.len();
        let mut i: usize = 0;
        while i < n
            invariant
                self.entries@ == orig,
                orig == old(self).entries@,
                keyed == support_entries(orig),
                keyed.len() == n,
                n == orig.len(),
                i <= n,
                distinct_keys(keyed),
                forall|j: int| 0 <= j < i ==> (#[trigger] keyed[j]).0 != asset@,
            decreases n - i,
        {
            if self.entries[i].0 == *asset {
                self.entries[i] = (asset.clone(), amount_min);
                proof {
                    assert(keyed[i as int].0 == asset@);
                    lemma_assoc_map_update(keyed, i as int, (asset@, amount_min));
                    assert(support_entries(self.entries@) =~= keyed.update(
                        i as int,
                        (asset@, amount_min),
                    ));
                    assert forall|a: int, b: int|
                        0 <= a < b < support_entries(self.entries@).len() implies (
                        #[trigger] support_entries(self.entries@)[a]).0 != (
                        #[trigger] support_entries(self.entries@)[b]).0 by {
                        assert(keyed[a].0 != keyed[b].0);
                    }
                }
                return ;
            }
            proof {
                assert(keyed[i as int].0 == self.entries@[i as int].0@);
            }
            i += 1;
        }
        self.entries.push((asset.clone(), amount_min));
        proof {
            lemma_assoc_map_push(keyed, (asset@, amount_min));
            assert(support_entries(self.entries@) =~= keyed.push((asset@, amount_min)));
            assert forall|a: int, b: int|
                0 <= a < b < support_entries(self.entries@).len() implies (
                #[trigger] support_entries(self.entries@)[a]).0 != (
                #[trigger] support_entries(self.entries@)[b]).0 by {
                let pushed = keyed.push((asset@, amount_min));
                if b < keyed.len() {
                    assert(keyed[a].0 != keyed[b].0);
                } else {
                    assert(pushed[b].0 == asset@);
                    assert(keyed[a].0 != asset@);
                }
            }
        }
    }
}

/// The whole persisted state of the bridge.
#[derive(Clone, Debug)]
pub struct BridgeState {
    config: Config,
    pause: u128,
    support_token: SupportBook,
    support_coin: SupportBook,
    src_orders: OrderBook<SrcOrderStatus>,
    dst_orders: OrderBook<u128>,
}

impl BridgeState {
    /// Every book keeps its keys distinct.
    pub closed spec fn wf(self) -> bool {
        &&& self.support_token.wf()
        &&& self.support_coin.wf()
        &&& self.src_orders.wf()
        &&& self.dst_orders.wf()
    }

    pub closed spec fn spec_config(self) -> Config {
        self.config
    }

    pub closed spec fn spec_pause(self) -> u128 {
        self.pause
    }

    pub closed spec fn token_registry(self) -> Map<Seq<char>, u128> {
        self.support_token@
    }

    pub closed spec fn coin_registry(self) -> Map<Seq<char>, u128> {
        self.support_coin@
    }

    pub closed spec fn src_ledger(self) -> Map<u128, SrcOrderStatus> {
        self.src_orders@
    }

    pub closed spec fn dst_ledger(self) -> Map<u128, u128> {
        self.dst_orders@
    }

    /// A fresh state: the given roles, intake not paused, empty
    /// registries and ledgers.
    pub fn init(config: Config) -> (r: BridgeState)
        ensures
            r.wf(),
            r.spec_config() == config,
            r.spec_pause() == 0,
            r.token_registry() == Map::<Seq<char>, u128>::empty(),
            r.coin_registry() == Map::<Seq<char>, u128>::empty(),
            r.src_ledger() == Map::<u128, SrcOrderStatus>::empty(),
            r.dst_ledger() == Map::<u128, u128>::empty(),
    {
        BridgeState {
            config,
            pause: 0,
            support_token: SupportBook::new(),
            support_coin: SupportBook::new(),
            src_orders: OrderBook::new(),
            dst_orders: OrderBook::new(),
        }
    }

    /// Every token-registry entry, for the host's persistence.
    pub fn support_token_items(&self) -> (r: Vec<(String, u128)>)
        requires
            self.wf(),
        ensures
            distinct_keys(support_entries(r@)),
            assoc_map(support_entries(r@)) == self.token_registry(),
    {
        self.support_token.items()
    }

    /// Every coin-registry entry, for the host's persistence.
    pub fn support_coin_items(&self) -> (r: Vec<(String, u128)>)
        requires
            self.wf(),
        ensures
            distinct_keys(support_entries(r@)),
            assoc_map(support_entries(r@)) == self.coin_registry(),
    {
        self.support_coin.items()
    }

    /// Every source-ledger entry, for the host's persistence.
    pub fn src_order_items(&self) -> (r: Vec<(u128, SrcOrderStatus)>)
        requires
            self.wf(),
        ensures
            distinct_keys(r@),
            assoc_map(r@) == self.src_ledger(),
    {
        self.src_orders.items()
    }

    /// Every destination-ledger entry, for the host's persistence.
    pub fn dst_order_items(&self) -> (r: Vec<(u128, u128)>)
        requires
            self.wf(),
        ensures
            distinct_keys(r@),
            assoc_map(r@) == self.dst_ledger(),
    {
        self.dst_orders.items()
    }
}

/// True when only the configuration differs between two states.
pub open spec fn same_but_config(pre: BridgeState, post: BridgeState) -> bool {
    &&& post.spec_pause() == pre.spec_pause()
    &&& post.token_registry() == pre.token_registry()
    &&& post.coin_registry() == pre.coin_registry()
    &&& post.src_ledger() == pre.src_ledger()
    &&& post.dst_ledger() == pre.dst_ledger()
}

/// True when only the pause flag differs between two states.
pub open spec fn same_but_pause(pre: BridgeState, post: BridgeState) -> bool {
    &&& post.spec_config() == pre.spec_config()
    &&& post.token_registry() == pre.token_registry()
    &&& post.coin_registry() == pre.coin_registry()
    &&& post.src_ledger() == pre.src_ledger()
    &&& post.dst_ledger() == pre.dst_ledger()
}

/// True when only the token registry differs between two states.
pub open spec fn same_but_token_registry(pre: BridgeState, post: BridgeState) -> bool {
    &&& post.spec_config() == pre.spec_config()
    &&& post.spec_pause() == pre.spec_pause()
    &&& post.coin_registry() == pre.coin_registry()
    &&& post.src_ledger() == pre.src_ledger()
    &&& post.dst_ledger() == pre.dst_ledger()
}

/// True when only the coin registry differs between two states.
pub open spec fn same_but_coin_registry(pre: BridgeState, post: BridgeState) -> bool {
    &&& post.spec_config() == pre.spec_config()
    &&& post.spec_pause() == pre.spec_pause()
    &&& post.token_registry() == pre.token_registry()
    &&& post.src_ledger() == pre.src_ledger()
    &&& post.dst_ledger() == pre.dst_ledger()
}

/// True when only the source ledger differs between two states.
pub open spec fn same_but_src_ledger(pre: BridgeState, post: BridgeState) -> bool {
    &&& post.spec_config() == pre.spec_config()
    &&& post.spec_pause() == pre.spec_pause()
    &&& post.token_registry() == pre.token_registry()
    &&& post.coin_registry() == pre.coin_registry()
    &&& post.dst_ledger() == pre.dst_ledger()
}

/// True when only the destination ledger differs between two states.
pub open spec fn same_but_dst_ledger(pre: BridgeState, post: BridgeState) -> bool {
    &&& post.spec_config() == pre.spec_config()
    &&& post.spec_pause() == pre.spec_pause()
    &&& post.token_registry() == pre.token_registry()
    &&& post.coin_registry() == pre.coin_registry()
    &&& post.src_ledger() == pre.src_ledger()
}

/// Overwrite the role configuration.
pub fn store_config(state: &mut BridgeState, config: Config)
    requires
        old(state).wf(),
    ensures
        final(state).wf(),
        final(state).spec_config() == config,
        same_but_config(*old(state), *final(state)),
{
    state.config = config;
}

/// The current role configuration.
pub fn read_config(state: &BridgeState) -> (r: &Config)
    ensures
        *r == state.spec_config(),
{
    &state.config
}

/// Overwrite the pause flag.
pub fn store_pause(state: &mut BridgeState, value: u128)
    requires
        old(state).wf(),
    ensures
        final(state).wf(),
        final(state).spec_pause() == value,
        same_but_pause(*old(state), *final(state)),
{
    state.pause = value;
}

/// The current pause flag.
pub fn read_pause(state: &BridgeState) -> (r: u128)
    ensures
        r == state.spec_pause(),
{
    state.pause
}

/// Register a token's floor, overwriting any previous entry.
pub fn store_support_token_config(state: &mut BridgeState, token: &String, amount_min: u128)
    requires
        old(state).wf(),
    ensures
        final(state).wf(),
        final(state).token_registry() == old(state).token_registry().insert(token@, amount_min),
        same_but_token_registry(*old(state), *final(state)),
{
    state.support_token.put(token, amount_min);
}

/// The floor registered for a token, if any.
pub fn read_support_token_config(state: &BridgeState, token: &String) -> (r: Option<u128>)
    requires
        state.wf(),
    ensures
        match r {
            Some(v) => state.token_registry().contains_key(token@)
                && state.token_registry()[token@] == v,
            None => !state.token_registry().contains_key(token@),
        },
{
    state.support_token.get(token)
}

/// Register a coin's floor, overwriting any previous entry.
pub fn store_support_coin_config(state: &mut BridgeState, coin: &String, amount_min: u128)
    requires
        old(state).wf(),
    ensures
        final(state).wf(),
        final(state).coin_registry() == old(state).coin_registry().insert(coin@, amount_min),
        same_but_coin_registry(*old(state), *final(state)),
{
    state.support_coin.put(coin, amount_min);
}

/// The floor registered for a coin, if any.
pub fn read_support_coin_config(state: &BridgeState, coin: &String) -> (r: Option<u128>)
    requires
        state.wf(),
    ensures
        match r {
            Some(v) => state.coin_registry().contains_key(coin@) && state.coin_registry()[coin@]
                == v,
            None => !state.coin_registry().contains_key(coin@),
        },
{
    state.support_coin.get(coin)
}

/// Record a source order's status, overwriting any previous one.
pub fn store_src_order_state(state: &mut BridgeState, order_id: u128, status: SrcOrderStatus)
    requires
        old(state).wf(),
    ensures
        final(state).wf(),
        final(state).src_ledger() == old(state).src_ledger().insert(order_id, status),
        same_but_src_ledger(*old(state), *final(state)),
{
    state.src_orders.put(order_id, status);
}

/// The status recorded for a source order, if any.
pub fn read_src_order_state(state: &BridgeState, order_id: u128) -> (r: Option<SrcOrderStatus>)
    requires
        state.wf(),
    ensures
        match r {
            Some(v) => state.src_ledger().contains_key(order_id) && state.src_ledger()[order_id]
                == v,
            None => !state.src_ledger().contains_key(order_id),
        },
{
    state.src_orders.get(order_id)
}

/// Record a destination order's settlement marker.
pub fn store_dst_order_state(state: &mut BridgeState, order_id: u128, marker: u128)
    requires
        old(state).wf(),
    ensures
        final(state).wf(),
        final(state).dst_ledger() == old(state).dst_ledger().insert(order_id, marker),
        same_but_dst_ledger(*old(state), *final(state)),
{
    state.dst_orders.put(order_id, marker);
}

/// The marker recorded for a destination order, if any.
pub fn read_dst_order_state(state: &BridgeState, order_id: u128) -> (r: Option<u128>)
    requires
        state.wf(),
    ensures
        match r {
            Some(v) => state.dst_ledger().contains_key(order_id) && state.dst_ledger()[order_id]
                == v,
            None => !state.dst_ledger().contains_key(order_id),
        },
{
    state.dst_orders.get(order_id)
}

} // verus!
