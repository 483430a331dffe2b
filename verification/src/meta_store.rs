//! The namespace metadata store: one configuration cell per namespace, with
//! multi-reader/single-writer semantics.
//!
//! Readers go through a [`MetaStoreHandle`] and never block: the external
//! form reads a broadcast cell's latest value, the internal form (reserved
//! for the bootstrap namespace) reads its own config directly. Writes to an
//! external namespace travel as a [`ChangeMsg`] through one bounded channel
//! shared by all namespaces; the single consumer of that channel applies
//! one full change at a time through [`MetaStore::apply_change`], which
//! durably publishes the new config into the namespace's broadcast cell —
//! only then do waiting writers observe their own write.

use vstd::prelude::*;
use crate::channels::{
    mpsc_channel, mpsc_sender_clone, mpsc_try_send, mpsc_try_recv, watch_sender_new,
    watch_send_replace, watch_subscribe, watch_receiver_snapshot, SendOutcome, RecvOutcome,
};
use crate::namespace::{NamespaceName, DatabaseConfig, internal_namespace};

verus! {

/// A change request: "make `config` the current configuration of
/// `namespace`". One such message per completed `store` call reaches the
/// store's consumer.
pub struct ChangeMsg {
    pub namespace: NamespaceName,
    pub config: DatabaseConfig,
}

/// Mathematical state of one namespace's broadcast cell: the current
/// config, and how many changes have ever been published to the cell. A
/// larger version is a strictly newer config.
#[verifier::ext_equal]
pub ghost struct CellView {
    pub config: DatabaseConfig,
    pub version: nat,
}

struct ConfigCell {
    name: NamespaceName,
    tx: tokio::sync::watch::Sender<DatabaseConfig>,
    current: DatabaseConfig,
    version: Ghost<nat>,
}

impl ConfigCell {
    spec fn cv(&self) -> CellView {
        CellView { config: self.current, version: self.version@ }
    }
}

spec fn cells_view(cells: Seq<ConfigCell>) -> Map<Seq<char>, CellView>
    decreases cells.len(),
{
    if cells.len() == 0 {
        Map::empty()
    } else {
        cells_view(cells.drop_last()).insert(cells.last().name@, cells.last().cv())
    }
}

spec fn unique_names(cells: Seq<ConfigCell>) -> bool {
    forall|i: int, j: int| 0 <= i < j < cells.len() ==> cells[i].name@ != cells[j].name@
}

proof fn lemma_unique_drop_last(cells: Seq<ConfigCell>)
    requires
        unique_names(cells),
        cells.len() > 0,
    ensures
        unique_names(cells.drop_last()),
{
    assert forall|a: int, b: int|
        0 <= a < b < cells.drop_last().len() implies cells.drop_last()[a].name@
        != cells.drop_last()[b].name@ by {
        assert(cells.drop_last()[a] == cells[a]);
        assert(cells.drop_last()[b] == cells[b]);
    }
}

proof fn lemma_cells_view_contains(cells: Seq<ConfigCell>, n: Seq<char>)
    ensures
        cells_view(cells).contains_key(n) <==> exists|i: int|
            0 <= i < cells.len() && cells[i].name@ == n,
    decreases cells.len(),
{
    if cells.len() > 0 {
        lemma_cells_view_contains(cells.drop_last(), n);
        if cells.last().name@ == n {
            assert(cells[cells.len() - 1].name@ == n);
        } else {
            if cells_view(cells).contains_key(n) {
                let i = choose|i: int|
                    0 <= i < cells.drop_last().len() && cells.drop_last()[i].name@ == n;
                assert(cells[i].name@ == n);
            }
            if exists|i: int| 0 <= i < cells.len() && cells[i].name@ == n {
                let i = choose|i: int| 0 <= i < cells.len() && cells[i].name@ == n;
                assert(i < cells.len() - 1);
                assert(cells.drop_last()[i].name@ == n);
            }
        }
    }
}

proof fn lemma_cells_view_at(cells: Seq<ConfigCell>, i: int)
    requires
        unique_names(cells),
        0 <= i < cells.len(),
    ensures
        cells_view(cells).contains_key(cells[i].name@),
        cells_view(cells)[cells[i].name@] == cells[i].cv(),
    decreases cells.len(),
{
    if i < cells.len() - 1 {
        lemma_unique_drop_last(cells);
        lemma_cells_view_at(cells.drop_last(), i);
        assert(cells.drop_last()[i] == cells[i]);
        assert(cells.last().name@ != cells[i].name@);
    }
}

proof fn lemma_cells_view_push(cells: Seq<ConfigCell>, c: ConfigCell)
    ensures
        cells_view(cells.push(c)) == cells_view(cells).insert(c.name@, c.cv()),
{
    assert(cells.push(c).drop_last() =~= cells);
    assert(cells.push(c).last() == c);
}

proof fn lemma_unique_push(cells: Seq<ConfigCell>, c: ConfigCell)
    requires
        unique_names(cells),
        forall|k: int| 0 <= k < cells.len() ==> cells[k].name@ != c.name@,
    ensures
        unique_names(cells.push(c)),
{
    assert forall|a: int, b: int|
        0 <= a < b < cells.push(c).len() implies cells.push(c)[a].name@
        != cells.push(c)[b].name@ by {
        if b < cells.len() {
            assert(cells.push(c)[a] == cells[a]);
            assert(cells.push(c)[b] == cells[b]);
        } else {
            assert(cells.push(c)[a] == cells[a]);
            assert(cells.push(c)[b] == c);
        }
    }
}

proof fn lemma_cells_view_update(cells: Seq<ConfigCell>, i: int, c: ConfigCell)
    requires
        unique_names(cells),
        0 <= i < cells.len(),
        c.name@ == cells[i].name@,
    ensures
        cells_view(cells.update(i, c)) == cells_view(cells).insert(c.name@, c.cv()),
        unique_names(cells.update(i, c)),
    decreases cells.len(),
{
    let upd = cells.update(i, c);
    assert forall|a: int, b: int|
        0 <= a < b < upd.len() implies upd[a].name@ != upd[b].name@ by {
        if a != i {
            assert(upd[a] == cells[a]);
        }
        if b != i {
            assert(upd[b] == cells[b]);
        }
    }
    if i == cells.len() - 1 {
        assert(upd.drop_last() =~= cells.drop_last());
        assert(upd.last() == c);
        assert(cells_view(cells).insert(c.name@, c.cv()) =~= cells_view(
            cells.drop_last(),
        ).insert(c.name@, c.cv()));
    } else {
        lemma_unique_drop_last(cells);
        assert(upd.drop_last() =~= cells.drop_last().update(i, c));
        assert(upd.last() == cells.last());
        assert(cells.drop_last()[i] == cells[i]);
        lemma_cells_view_update(cells.drop_last(), i, c);
        assert(cells.last().name@ != c.name@);
        assert(cells_view(cells).insert(c.name@, c.cv()) =~= cells_view(
            cells.drop_last().update(i, c),
        ).insert(cells.last().name@, cells.last().cv()));
    }
}

/// Version of `ns`'s cell in the store model; 0 before the cell exists.
pub open spec fn version_of(m: Map<Seq<char>, CellView>, ns: Seq<char>) -> nat {
    if m.contains_key(ns) {
        m[ns].version
    } else {
        0
    }
}

/// One full configuration change, applied atomically: `ns`'s cell now holds
/// `config`, one version newer; no other namespace moves.
pub open spec fn apply_spec(
    m: Map<Seq<char>, CellView>,
    ns: Seq<char>,
    config: DatabaseConfig,
) -> Map<Seq<char>, CellView> {
    m.insert(ns, CellView { config, version: version_of(m, ns) + 1 })
}

/// What `MetaStoreHandle::store` did with the new config: applied it on the
/// spot (internal form), or built the change request the caller must route
/// through the store's channel (external form).
pub enum StoreOutcome {
    Applied,
    Pending(ChangeMsg),
}

/// Why a change request could not be handed to the store's channel. The
/// channel is never closed while its store is alive, so `ChannelClosed`
/// signals a teardown race, not normal operation.
#[derive(Clone, Copy, Debug, PartialEq, Eq, Structural)]
pub enum StoreError {
    NotExternal,
    ChannelFull,
    ChannelClosed,
}

enum HandleState {
    Internal(DatabaseConfig),
    External {
        changes_tx: tokio::sync::mpsc::Sender<ChangeMsg>,
        config_rx: tokio::sync::watch::Receiver<DatabaseConfig>,
    },
}

/// Per-namespace capability for reading and updating that namespace's
/// configuration. Cheap to duplicate; reads never block and never go
/// through the change channel.
pub struct MetaStoreHandle {
    namespace: NamespaceName,
    state: HandleState,
}

impl MetaStoreHandle {
    pub closed spec fn namespace(&self) -> Seq<char> {
        self.namespace@
    }

    pub closed spec fn is_internal(&self) -> bool {
        self.state is Internal
    }

    /// The config an internal handle holds (meaningful only for the
    /// internal form; an external handle's current config lives in its
    /// namespace's broadcast cell).
    pub closed spec fn internal_config(&self) -> DatabaseConfig {
        match self.state {
            HandleState::Internal(c) => c,
            HandleState::External { .. } => DatabaseConfig::initial(),
        }
    }

    /// The handle of the reserved bootstrap namespace, with the initial
    /// config: synchronous, in-process, no cross-task coordination.
    pub fn internal() -> (r: Self)
        ensures
            r.is_internal(),
            r.namespace() == internal_namespace(),
            r.internal_config() == DatabaseConfig::initial(),
    {
        MetaStoreHandle {
            namespace: NamespaceName::internal(),
            state: HandleState::Internal(DatabaseConfig::default()),
        }
    }

    /// A synchronous handle for tests.
    pub fn new_test() -> (r: Self)
        ensures
            r.is_internal(),
            r.namespace() == internal_namespace(),
            r.internal_config() == DatabaseConfig::initial(),
    {
        Self::internal()
    }

    /// An internal handle starting from a config recovered elsewhere (for
    /// the loading path, which reads and decodes the config file before
    /// handing the value in).
    pub fn with_config(config: DatabaseConfig) -> (r: Self)
        ensures
            r.is_internal(),
            r.namespace() == internal_namespace(),
            r.internal_config() == config,
    {
        MetaStoreHandle {
            namespace: NamespaceName::internal(),
            state: HandleState::Internal(config),
        }
    }

    /// The namespace this handle is scoped to.
    pub fn name(&self) -> (r: &NamespaceName)
        ensures
            r@ == self.namespace(),
    {
        &self.namespace
    }

    /// A snapshot of the namespace's current config. Internal form: exactly
    /// the handle's own config. External form: the most recently published
    /// value of the namespace's broadcast cell, read without blocking and
    /// without coordinating with writers, never a torn or intermediate one.
    pub fn get(&self) -> (r: DatabaseConfig)
        ensures
            self.is_internal() ==> r == self.internal_config(),
    {
        match &self.state {
            HandleState::Internal(config) => *config,
            HandleState::External { config_rx, .. } => watch_receiver_snapshot(config_rx),
        }
    }

    /// Replace the namespace's config. Internal form: applied at once.
    /// External form: the handle itself does not change; the returned
    /// change request must reach the store's channel (see [`Self::send_change`]
    /// for the non-blocking path), and the caller observes its own write
    /// once the namespace's broadcast cell reports the change.
    pub fn store(&mut self, new_config: DatabaseConfig) -> (r: StoreOutcome)
        ensures
            final(self).namespace() == old(self).namespace(),
            final(self).is_internal() == old(self).is_internal(),
            old(self).is_internal() ==> r is Applied && final(self).internal_config()
                == new_config,
            !old(self).is_internal() ==> final(self).internal_config() == old(
                self,
            ).internal_config() && (r matches StoreOutcome::Pending(m) && m.namespace@ == old(
                self,
            ).namespace() && m.config == new_config),
    {
        match &mut self.state {
            HandleState::Internal(config) => {
                *config = new_config;
                StoreOutcome::Applied
            },
            HandleState::External { .. } => StoreOutcome::Pending(
                ChangeMsg { namespace: self.namespace.dup(), config: new_config },
            ),
        }
    }

    /// Offer a change request to the store's channel without waiting for
    /// capacity. The channel serializes writers: the store's consumer takes
    /// requests one at a time, in order.
    pub fn send_change(&self, msg: ChangeMsg) -> (r: Result<(), StoreError>)
        ensures
            self.is_internal() ==> r == Err::<(), StoreError>(StoreError::NotExternal),
    {
        match &self.state {
            HandleState::Internal(_) => Err(StoreError::NotExternal),
            HandleState::External { changes_tx, .. } => match mpsc_try_send(changes_tx, msg) {
                SendOutcome::Sent => Ok(()),
                SendOutcome::Full(_) => Err(StoreError::ChannelFull),
                SendOutcome::Closed(_) => Err(StoreError::ChannelClosed),
            },
        }
    }

    /// The sender into the store's change channel, for callers that wait
    /// for channel capacity instead of failing fast; `None` on an internal
    /// handle.
    pub fn change_sender(&self) -> (r: Option<&tokio::sync::mpsc::Sender<ChangeMsg>>)
        ensures
            r is Some <==> !self.is_internal(),
    {
        match &self.state {
            HandleState::Internal(_) => None,
            HandleState::External { changes_tx, .. } => Some(changes_tx),
        }
    }

    /// The receiver of the namespace's broadcast cell, for callers that
    /// wait until a stored change becomes visible; `None` on an internal
    /// handle.
    pub fn config_receiver(&self) -> (r: Option<&tokio::sync::watch::Receiver<DatabaseConfig>>)
        ensures
            r is Some <==> !self.is_internal(),
    {
        match &self.state {
            HandleState::Internal(_) => None,
            HandleState::External { config_rx, .. } => Some(config_rx),
        }
    }

    /// A duplicate of this handle. An external duplicate subscribes to the
    /// same broadcast cell and the same change channel, so both observe the
    /// same published configs; an internal duplicate starts from the same
    /// config and is shared further by the runtime that owns it.
    pub fn dup(&self) -> (r: Self)
        ensures
            r.namespace() == self.namespace(),
            r.is_internal() == self.is_internal(),
            r.internal_config() == self.internal_config(),
    {
        MetaStoreHandle {
            namespace: self.namespace.dup(),
            state: match &self.state {
                HandleState::Internal(config) => HandleState::Internal(*config),
                HandleState::External { changes_tx, config_rx } => HandleState::External {
                    changes_tx: mpsc_sender_clone(changes_tx),
                    config_rx: crate::channels::watch_receiver_clone(config_rx),
                },
            },
        }
    }
}

/// The per-process metadata store: the receiving end of the change channel,
/// one broadcast cell per namespace ever handed a handle (created lazily),
/// and the bootstrap namespace's database of type `T`.
///
/// Its mathematical view is the map from namespace name to that namespace's
/// current [`CellView`]; the invariant that exactly one broadcast cell
/// exists per namespace — so that handles taken before and after a change
/// agree on the current value — is the `wf` well-formedness predicate.
pub struct MetaStore<T> {
    changes_tx: tokio::sync::mpsc::Sender<ChangeMsg>,
    changes_rx: tokio::sync::mpsc::Receiver<ChangeMsg>,
    cells: Vec<ConfigCell>,
    bootstrap: T,
}

impl<T> View for MetaStore<T> {
    type V = Map<Seq<char>, CellView>;

    closed spec fn view(&self) -> Map<Seq<char>, CellView> {
        cells_view(self.cells@)
    }
}

impl<T> MetaStore<T> {
    /// One broadcast cell per namespace.
    pub closed spec fn wf(&self) -> bool {
        unique_names(self.cells@)
    }

    pub closed spec fn bootstrap(&self) -> T {
        self.bootstrap
    }

    /// A store over a bootstrap namespace database that the namespace
    /// directory created; no namespace has a cell yet.
    pub fn new(bootstrap: T) -> (r: Self)
        ensures
            r.wf(),
            r@ == Map::<Seq<char>, CellView>::empty(),
            r.bootstrap() == bootstrap,
    {
        let (tx, rx) = mpsc_channel(256);
        MetaStore { changes_tx: tx, changes_rx: rx, cells: Vec::new(), bootstrap }
    }

    /// The bootstrap namespace's database.
    pub fn bootstrap_db(&self) -> (r: &T)
        ensures
            r == self.bootstrap(),
    {
        &self.bootstrap
    }

    fn find_cell(&self, namespace: &NamespaceName) -> (r: Option<usize>)
        ensures
            match r {
                Some(i) => i < self.cells@.len() && self.cells@[i as int].name@ == namespace@,
                None => forall|k: int|
                    0 <= k < self.cells@.len() ==> self.cells@[k].name@ != namespace@,
            },
    {
        let mut j: usize = 0;
        while j < self.cells.len()
            invariant
                j <= self.cells@.len(),
                forall|k: int| 0 <= k < j ==> self.cells@[k].name@ != namespace@,
            decreases self.cells@.len() - j,
        {
            if self.cells[j].name == *namespace {
                return Some(j);
            }
            j = j + 1;
        }
        None
    }

    /// A handle for `namespace`. The first request creates the namespace's
    /// broadcast cell, holding the initial config; every later handle for
    /// the same namespace subscribes to that same cell, so all its readers
    /// and writers agree on the current value.
    pub fn handle(&mut self, namespace: NamespaceName) -> (h: MetaStoreHandle)
        requires
            old(self).wf(),
        ensures
            final(self).wf(),
            final(self).bootstrap() == old(self).bootstrap(),
            old(self)@.contains_key(namespace@) ==> final(self)@ == old(self)@,
            !old(self)@.contains_key(namespace@) ==> final(self)@ == old(self)@.insert(
                namespace@,
                CellView { config: DatabaseConfig::initial(), version: 0 },
            ),
            !h.is_internal(),
            h.namespace() == namespace@,
    {
        let changes_tx = mpsc_sender_clone(&self.changes_tx);
        proof {
            lemma_cells_view_contains(self.cells@, namespace@);
        }
        match self.find_cell(&namespace) {
            Some(i) => {
                let config_rx = watch_subscribe(&self.cells[i].tx);
                MetaStoreHandle {
                    namespace,
                    state: HandleState::External { changes_tx, config_rx },
                }
            },
            None => {
                let tx = watch_sender_new(DatabaseConfig::default());
                let config_rx = watch_subscribe(&tx);
                let cell = ConfigCell {
                    name: namespace.dup(),
                    tx,
                    current: DatabaseConfig::default(),
                    version: Ghost(0),
                };
                proof {
                    lemma_unique_push(self.cells@, cell);
                    lemma_cells_view_push(self.cells@, cell);
                }
                self.cells.push(cell);
                MetaStoreHandle {
                    namespace,
                    state: HandleState::External { changes_tx, config_rx },
                }
            },
        }
    }

    /// The store's consumer side: take the next queued change request, in
    /// send order, without waiting. The store itself does not move.
    pub fn poll_change(&mut self) -> (r: RecvOutcome<ChangeMsg>)
        requires
            old(self).wf(),
        ensures
            final(self).wf(),
            final(self)@ == old(self)@,
            final(self).bootstrap() == old(self).bootstrap(),
    {
        mpsc_try_recv(&mut self.changes_rx)
    }

    /// Apply one change request in full: persist `msg.config` as the
    /// current config of `msg.namespace` and publish it into that
    /// namespace's broadcast cell, one version newer — atomically, before
    /// any other request is looked at. No other namespace moves.
    pub fn apply_change(&mut self, msg: ChangeMsg)
        requires
            old(self).wf(),
        ensures
            final(self).wf(),
            final(self).bootstrap() == old(self).bootstrap(),
            final(self)@ == apply_spec(old(self)@, msg.namespace@, msg.config),
    {
        let ChangeMsg { namespace, config } = msg;
        proof {
            lemma_cells_view_contains(self.cells@, namespace@);
        }
        match self.find_cell(&namespace) {
            Some(i) => {
                proof {
                    lemma_cells_view_at(self.cells@, i as int);
                }
                let ghost oldcells = self.cells@;
                let cell = &mut self.cells[i];
                cell.current = config;
                cell.version = Ghost(cell.version@ + 1);
                watch_send_replace(&cell.tx, config);
                proof {
                    lemma_cells_view_update(oldcells, i as int, self.cells@[i as int]);
                }
            },
            None => {
                let tx = watch_sender_new(config);
                let cell = ConfigCell { name: namespace, tx, current: config, version: Ghost(1) };
                proof {
                    lemma_unique_push(self.cells@, cell);
                    lemma_cells_view_push(self.cells@, cell);
                }
                self.cells.push(cell);
            },
        }
    }

    /// Drain and apply queued change requests, one full update at a time,
    /// in send order, until the channel is empty or `budget` requests have
    /// been applied; reports how many were applied. The store afterwards is
    /// exactly the old store with `n` whole changes applied in sequence —
    /// nothing is erased, merged or half-done.
    pub fn apply_pending(&mut self, budget: usize) -> (n: usize)
        requires
            old(self).wf(),
        ensures
            final(self).wf(),
            final(self).bootstrap() == old(self).bootstrap(),
            n <= budget,
            exists|msgs: Seq<(Seq<char>, DatabaseConfig)>|
                msgs.len() == n && final(self)@ == apply_seq(old(self)@, msgs),
    {
        let ghost mut msgs: Seq<(Seq<char>, DatabaseConfig)> = Seq::empty();
        let mut n: usize = 0;
        while n < budget
            invariant
                self.wf(),
                self.bootstrap() == old(self).bootstrap(),
                n <= budget,
                msgs.len() == n,
                self@ == apply_seq(old(self)@, msgs),
            decreases budget - n,
        {
            match self.poll_change() {
                RecvOutcome::Msg(m) => {
                    proof {
                        lemma_apply_seq_push(old(self)@, msgs, (m.namespace@, m.config));
                        msgs = msgs.push((m.namespace@, m.config));
                    }
                    self.apply_change(m);
                    n = n + 1;
                },
                RecvOutcome::Empty => {
                    return n;
                },
                RecvOutcome::Disconnected => {
                    return n;
                },
            }
        }
        n
    }
}

/// Changes applied after a given one, in order.
pub open spec fn apply_seq(
    m: Map<Seq<char>, CellView>,
    later: Seq<(Seq<char>, DatabaseConfig)>,
) -> Map<Seq<char>, CellView>
    decreases later.len(),
{
    if later.len() == 0 {
        m
    } else {
        apply_spec(apply_seq(m, later.drop_last()), later.last().0, later.last().1)
    }
}

proof fn lemma_apply_seq_push(
    m: Map<Seq<char>, CellView>,
    msgs: Seq<(Seq<char>, DatabaseConfig)>,
    x: (Seq<char>, DatabaseConfig),
)
    ensures
        apply_seq(m, msgs.push(x)) == apply_spec(apply_seq(m, msgs), x.0, x.1),
{
    assert(msgs.push(x).drop_last() =~= msgs);
    assert(msgs.push(x).last() == x);
}

/// No stale read past a completed write: once a store of `config` for `ns`
/// has been applied, the store model holds `config` for `ns` at some
/// version `v`, and after any sequence of later changes the model's config
/// for `ns` is equal to or newer than that — it is `config` itself while
/// the version is still `v`, and a strictly newer config (larger version)
/// otherwise. The config never silently reverts past the completed write.
pub proof fn lemma_no_stale_read(
    m0: Map<Seq<char>, CellView>,
    ns: Seq<char>,
    config: DatabaseConfig,
    later: Seq<(Seq<char>, DatabaseConfig)>,
)
    ensures
        ({
            let m1 = apply_spec(m0, ns, config);
            let m2 = apply_seq(m1, later);
            &&& m1.contains_key(ns)
            &&& m1[ns].config == config
            &&& m2.contains_key(ns)
            &&& m2[ns].version >= m1[ns].version
            &&& (m2[ns].version == m1[ns].version ==> m2[ns].config == config)
        }),
    decreases later.len(),
{
    if later.len() > 0 {
        lemma_no_stale_read(m0, ns, config, later.drop_last());
    }
}

/// Two stores to the same namespace never interleave: the consumer applies
/// one full update, then the other. After both, the namespace holds exactly
/// the second value — one of the two stored configs, never a merge of
/// them — and the first was the current value in between.
pub proof fn lemma_serialized_stores(
    m0: Map<Seq<char>, CellView>,
    ns: Seq<char>,
    c1: DatabaseConfig,
    c2: DatabaseConfig,
)
    ensures
        ({
            let m1 = apply_spec(m0, ns, c1);
            let m2 = apply_spec(m1, ns, c2);
            &&& m1.contains_key(ns) && m1[ns].config == c1
            &&& m2.contains_key(ns) && m2[ns].config == c2
            &&& m2[ns].version == m1[ns].version + 1
        }),
{
}

/// An internal handle's get/store round-trip is exact: `store(x)` leaves
/// the handle's config at exactly `x` (the contract of
/// [`MetaStoreHandle::store`]), and `get` returns exactly the handle's
/// config (the contract of [`MetaStoreHandle::get`]); so a get after a
/// completed store returns the stored value itself.
pub proof fn lemma_internal_round_trip(
    pre: MetaStoreHandle,
    post: MetaStoreHandle,
    stored: DatabaseConfig,
    got: DatabaseConfig,
)
    requires
        pre.is_internal(),
        post.is_internal() == pre.is_internal(),
        post.internal_config() == stored,
        got == post.internal_config(),
    ensures
        got == stored,
{
}

} // verus!
