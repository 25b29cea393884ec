//! The consensus storage: the state a replica consults before it votes or
//! proposes, and recovers from after a restart.
//!
//! Every write is an upsert: the last write for a key wins and nothing is
//! ever deleted. The remembered high certificates only move to a strictly
//! higher view, and the mark of the last action only moves forward.

use crate::proposal::{
    convert_proposal, revised, ADVZDisperseShare, DaProposal, DaProposal2,
    LightClientStateUpdateCertificate, Proposal, QuorumProposal, QuorumProposal2,
    QuorumProposalWrapper, SimpleCertificate, VidDisperseShare2,
};
use crate::share_table::ShareTable;
use std::collections::{BTreeMap, HashMap};
use vstd::prelude::*;
use vstd::std_specs::btree::{group_btree_axioms, spec_keys_iter};
use vstd::std_specs::hash::group_hash_axioms;
use vstd::std_specs::iter::IteratorSpec;

verus! {

/// What a replica did in a view.
#[derive(Clone, Copy, Debug, PartialEq, Eq, Structural)]
pub enum HotShotAction {
    /// A quorum vote was sent
    Vote,
    /// A timeout vote was sent
    ViewSyncVote,
    /// A quorum proposal was sent
    Propose,
    /// DA proposal was sent
    DaPropose,
    /// DA vote was sent
    DaVote,
    /// DA certificate was sent
    DaCert,
    /// VID shares were sent
    VidDisperse,
    /// An upgrade vote was sent
    UpgradeVote,
    /// An upgrade proposal was sent
    UpgradePropose,
}

/// The operations of the storage that can be made to fail.
#[derive(Clone, Copy, Debug, PartialEq, Eq, Structural)]
pub enum StorageOperation {
    AppendVid,
    AppendVid2,
    AppendDa,
    AppendDa2,
    AppendProposal,
    AppendProposal2,
    AppendProposalWrapper,
    RecordAction,
    UpdateHighQc,
    UpdateHighQc2,
    UpdateStateCert,
    UpdateNextEpochHighQc2,
}

/// A fault of the storage: the operation that failed.
#[derive(Clone, Copy, Debug, PartialEq, Eq, Structural)]
pub struct StorageError {
    pub operation: StorageOperation,
}

/// The state of the storage as maps and plain values.
pub struct StorageView {
    pub vids: Map<u64, Map<Seq<u8>, Proposal<ADVZDisperseShare>>>,
    pub vid2: Map<u64, Map<Seq<u8>, Proposal<VidDisperseShare2>>>,
    pub das: Map<u64, Proposal<DaProposal>>,
    pub da2s: Map<u64, Proposal<DaProposal2>>,
    pub proposals: Map<u64, Proposal<QuorumProposal>>,
    pub proposals2: Map<u64, Proposal<QuorumProposal2>>,
    pub proposals_wrapper: Map<u64, Proposal<QuorumProposalWrapper>>,
    pub high_qc: Option<SimpleCertificate>,
    pub high_qc2: Option<SimpleCertificate>,
    pub next_epoch_high_qc2: Option<SimpleCertificate>,
    pub action: u64,
    pub epoch: Option<u64>,
    pub state_certs: Map<u64, LightClientStateUpdateCertificate>,
    pub drb_results: Map<u64, [u8; 32]>,
    pub epoch_roots: Map<u64, Vec<u8>>,
    pub decided_upgrade_certificate: Option<SimpleCertificate>,
}

/// The state of a fresh storage: nothing stored, no high certificate, the
/// mark at the genesis view and in no epoch.
pub open spec fn empty_storage() -> StorageView {
    StorageView {
        vids: Map::empty(),
        vid2: Map::empty(),
        das: Map::empty(),
        da2s: Map::empty(),
        proposals: Map::empty(),
        proposals2: Map::empty(),
        proposals_wrapper: Map::empty(),
        high_qc: None,
        high_qc2: None,
        next_epoch_high_qc2: None,
        action: 0,
        epoch: None,
        state_certs: Map::empty(),
        drb_results: Map::empty(),
        epoch_roots: Map::empty(),
        decided_upgrade_certificate: None,
    }
}

/// The shares stored for a view: none where the view has no entry.
pub open spec fn shares_of<P>(shares: Map<u64, Map<Seq<u8>, Proposal<P>>>, view: u64) -> Map<
    Seq<u8>,
    Proposal<P>,
> {
    if shares.contains_key(view) {
        shares[view]
    } else {
        Map::empty()
    }
}

/// The shares after one more share was written: the share replaces the one
/// of the same view and recipient, if there is one.
pub open spec fn with_share<P>(
    shares: Map<u64, Map<Seq<u8>, Proposal<P>>>,
    view: u64,
    recipient: Seq<u8>,
    share: Proposal<P>,
) -> Map<u64, Map<Seq<u8>, Proposal<P>>> {
    shares.insert(view, shares_of(shares, view).insert(recipient, share))
}

/// Whether an action moves the mark of the last action.
pub open spec fn moves_mark(action: HotShotAction) -> bool {
    action == HotShotAction::Vote || action == HotShotAction::Propose
}

/// Whether epoch `a` is later than epoch `b`. No epoch is earlier than any
/// epoch.
pub open spec fn later_epoch(a: Option<u64>, b: Option<u64>) -> bool {
    match (a, b) {
        (Some(x), Some(y)) => x > y,
        (Some(_), None) => true,
        (None, _) => false,
    }
}

/// The later of two views.
pub open spec fn later_view(a: u64, b: u64) -> u64 {
    if a > b {
        a
    } else {
        b
    }
}

/// The later of two epochs.
pub open spec fn latest_epoch(a: Option<u64>, b: Option<u64>) -> Option<u64> {
    if later_epoch(a, b) {
        a
    } else {
        b
    }
}

/// The certificate a slot holds after a certificate came in: the incoming
/// one where the slot was empty or held one of a strictly lower view, the
/// stored one otherwise.
pub open spec fn ratchet(stored: Option<SimpleCertificate>, incoming: SimpleCertificate) -> Option<
    SimpleCertificate,
> {
    match stored {
        Some(current) => if incoming.view_number > current.view_number {
            Some(incoming)
        } else {
            Some(current)
        },
        None => Some(incoming),
    }
}

/// The quorum proposals of the revised schema after a migration: every
/// proposal of the first schema converted and written at its view, every
/// other entry as it was.
pub open spec fn migrated(
    proposals: Map<u64, Proposal<QuorumProposal>>,
    proposals2: Map<u64, Proposal<QuorumProposal2>>,
) -> Map<u64, Proposal<QuorumProposal2>> {
    Map::new(
        |view: u64| proposals.contains_key(view) || proposals2.contains_key(view),
        |view: u64|
            if proposals.contains_key(view) {
                revised(proposals[view])
            } else {
                proposals2[view]
            },
    )
}

/// Whether `epoch` is the greatest key of a map.
pub open spec fn is_greatest_key<V>(map: Map<u64, V>, epoch: u64) -> bool {
    map.contains_key(epoch) && forall|other: u64| map.contains_key(other) ==> other <= epoch
}

/// The aggregate state of the storage.
#[derive(Clone, Debug)]
pub struct TestStorageState {
    vids: BTreeMap<u64, ShareTable<ADVZDisperseShare>>,
    vid2: BTreeMap<u64, ShareTable<VidDisperseShare2>>,
    das: HashMap<u64, Proposal<DaProposal>>,
    da2s: HashMap<u64, Proposal<DaProposal2>>,
    proposals: BTreeMap<u64, Proposal<QuorumProposal>>,
    proposals2: BTreeMap<u64, Proposal<QuorumProposal2>>,
    proposals_wrapper: BTreeMap<u64, Proposal<QuorumProposalWrapper>>,
    high_qc: Option<SimpleCertificate>,
    high_qc2: Option<SimpleCertificate>,
    next_epoch_high_qc2: Option<SimpleCertificate>,
    action: u64,
    epoch: Option<u64>,
    state_certs: BTreeMap<u64, LightClientStateUpdateCertificate>,
    drb_results: BTreeMap<u64, [u8; 32]>,
    epoch_roots: BTreeMap<u64, Vec<u8>>,
}

/// The storage: its state, the decided upgrade certificate, and a switch
/// that makes the operations that can fail do so.
#[derive(Clone, Debug)]
pub struct TestStorage {
    inner: TestStorageState,
    /// `should_return_err` is a testing utility to validate negative cases.
    pub should_return_err: bool,
    decided_upgrade_certificate: Option<SimpleCertificate>,
}

/// The shares of every view as maps.
pub open spec fn share_maps<P>(tables: Map<u64, ShareTable<P>>) -> Map<
    u64,
    Map<Seq<u8>, Proposal<P>>,
> {
    tables.map_values(|table: ShareTable<P>| table@)
}

/// Whether every table of shares is well formed.
pub open spec fn tables_wf<P>(tables: Map<u64, ShareTable<P>>) -> bool {
    forall|view: u64| tables.contains_key(view) ==> (#[trigger] tables[view]).wf()
}

impl TestStorageState {
    /// Whether the state is well formed.
    pub closed spec fn wf(&self) -> bool {
        &&& tables_wf(self.vids@)
        &&& tables_wf(self.vid2@)
    }

    /// The state as maps and plain values, with no decided upgrade
    /// certificate.
    pub closed spec fn contents(&self) -> StorageView {
        StorageView {
            vids: share_maps(self.vids@),
            vid2: share_maps(self.vid2@),
            das: self.das@,
            da2s: self.da2s@,
            proposals: self.proposals@,
            proposals2: self.proposals2@,
            proposals_wrapper: self.proposals_wrapper@,
            high_qc: self.high_qc,
            high_qc2: self.high_qc2,
            next_epoch_high_qc2: self.next_epoch_high_qc2,
            action: self.action,
            epoch: self.epoch,
            state_certs: self.state_certs@,
            drb_results: self.drb_results@,
            epoch_roots: self.epoch_roots@,
            decided_upgrade_certificate: None,
        }
    }
}

impl Default for TestStorageState {
    /// The state of a fresh replica.
    fn default() -> (r: TestStorageState)
        ensures
            r.wf(),
            r.contents() == empty_storage(),
    {
        let r = TestStorageState {
            vids: BTreeMap::new(),
            vid2: BTreeMap::new(),
            das: HashMap::new(),
            da2s: HashMap::new(),
            proposals: BTreeMap::new(),
            proposals2: BTreeMap::new(),
            proposals_wrapper: BTreeMap::new(),
            high_qc: None,
            next_epoch_high_qc2: None,
            high_qc2: None,
            action: 0,
            epoch: None,
            state_certs: BTreeMap::new(),
            drb_results: BTreeMap::new(),
            epoch_roots: BTreeMap::new(),
        };
        proof {
            assert(share_maps(r.vids@) =~= Map::empty());
            assert(share_maps(r.vid2@) =~= Map::empty());
        }
        r
    }
}

impl View for TestStorage {
    type V = StorageView;

    closed spec fn view(&self) -> StorageView {
        StorageView {
            decided_upgrade_certificate: self.decided_upgrade_certificate,
            ..self.inner.contents()
        }
    }
}

impl Default for TestStorage {
    /// The storage of a fresh replica, with no fault switched on.
    fn default() -> (r: TestStorage)
        ensures
            r.wf(),
            r@ == empty_storage(),
            !r.fails(),
    {
        TestStorage {
            inner: TestStorageState::default(),
            should_return_err: false,
            decided_upgrade_certificate: None,
        }
    }
}

/// The view of the certificate in a slot, or nothing for an empty slot.
pub open spec fn slot_view(slot: Option<SimpleCertificate>) -> Option<u64> {
    match slot {
        Some(cert) => Some(cert.view_number),
        None => None,
    }
}

/// Law: once a slot has taken certificate `a`, offering `b` leaves `a` in
/// the slot when the view of `b` is not higher than that of `a`, ties
/// included, and puts `b` in the slot when it is higher.
pub proof fn law_high_qc_ratchets(
    stored: Option<SimpleCertificate>,
    a: SimpleCertificate,
    b: SimpleCertificate,
)
    requires
        stored matches Some(current) ==> a.view_number > current.view_number,
    ensures
        ratchet(stored, a) == Some(a),
        b.view_number <= a.view_number ==> ratchet(ratchet(stored, a), b) == Some(a),
        b.view_number > a.view_number ==> ratchet(ratchet(stored, a), b) == Some(b),
{
}

/// Law: a slot is never empty after an offer, the view of its certificate
/// never goes down, and it holds either what it held or what was offered.
pub proof fn law_high_qc_never_regresses(stored: Option<SimpleCertificate>, incoming: SimpleCertificate)
    ensures
        ratchet(stored, incoming) is Some,
        ratchet(stored, incoming) == stored || ratchet(stored, incoming) == Some(incoming),
        ratchet(stored, incoming)->Some_0.view_number >= incoming.view_number,
        stored matches Some(current) ==> ratchet(stored, incoming)->Some_0.view_number
            >= current.view_number,
{
}

/// Law: recording two votes or proposals leaves the mark at the latest view
/// and epoch among the mark and both actions, in whatever order they come:
/// the mark never moves back.
pub proof fn law_mark_only_advances(
    mark_view: u64,
    mark_epoch: Option<u64>,
    view1: u64,
    epoch1: Option<u64>,
    view2: u64,
    epoch2: Option<u64>,
)
    ensures
        later_view(view2, later_view(view1, mark_view)) >= later_view(view1, mark_view)
            >= mark_view,
        later_view(view2, later_view(view1, mark_view)) == later_view(
            view1,
            later_view(view2, mark_view),
        ),
        view2 <= view1 ==> later_view(view2, later_view(view1, mark_view)) == later_view(
            view1,
            mark_view,
        ),
        !later_epoch(mark_epoch, latest_epoch(epoch1, mark_epoch)),
        !later_epoch(
            latest_epoch(epoch1, mark_epoch),
            latest_epoch(epoch2, latest_epoch(epoch1, mark_epoch)),
        ),
        latest_epoch(epoch2, latest_epoch(epoch1, mark_epoch)) == latest_epoch(
            epoch1,
            latest_epoch(epoch2, mark_epoch),
        ),
{
}

/// Law: of two writes at the same key, the second wins outright: the map
/// is as if the first had never been made.
pub proof fn law_last_write_wins<V>(map: Map<u64, V>, key: u64, first: V, second: V)
    ensures
        map.insert(key, first).insert(key, second) == map.insert(key, second),
        map.insert(key, first).insert(key, second)[key] == second,
{
}

/// Law: of two shares written for the same view and recipient, the second
/// wins outright, and the shares of other recipients and views stay.
pub proof fn law_last_share_wins<P>(
    shares: Map<u64, Map<Seq<u8>, Proposal<P>>>,
    view: u64,
    recipient: Seq<u8>,
    first: Proposal<P>,
    second: Proposal<P>,
)
    ensures
        with_share(with_share(shares, view, recipient, first), view, recipient, second)
            == with_share(shares, view, recipient, second),
        shares_of(with_share(shares, view, recipient, second), view)[recipient] == second,
        forall|other: Seq<u8>|
            other != recipient && shares_of(shares, view).contains_key(other) ==> shares_of(
                with_share(shares, view, recipient, second),
                view,
            ).contains_key(other) && #[trigger] shares_of(
                with_share(shares, view, recipient, second),
                view,
            )[other] == shares_of(shares, view)[other],
{
    let once = with_share(shares, view, recipient, first);
    assert(shares_of(once, view).insert(recipient, second) =~= shares_of(shares, view).insert(
        recipient,
        second,
    ));
}

/// Law: migrating twice gives the same proposals of the revised schema as
/// migrating once.
pub proof fn law_migration_is_idempotent(
    proposals: Map<u64, Proposal<QuorumProposal>>,
    proposals2: Map<u64, Proposal<QuorumProposal2>>,
)
    ensures
        migrated(proposals, migrated(proposals, proposals2)) == migrated(proposals, proposals2),
{
}

/// Law: a migration only adds. Every view that had a proposal of the
/// revised schema still has one, unchanged unless the first schema has a
/// proposal at that view, and every proposal of the first schema is
/// there in its revised form.
pub proof fn law_migration_is_additive(
    proposals: Map<u64, Proposal<QuorumProposal>>,
    proposals2: Map<u64, Proposal<QuorumProposal2>>,
)
    ensures
        forall|view: u64| #[trigger]
            proposals2.contains_key(view) ==> migrated(proposals, proposals2).contains_key(view),
        forall|view: u64|
            proposals2.contains_key(view) && !proposals.contains_key(view) ==> #[trigger] migrated(
                proposals,
                proposals2,
            )[view] == proposals2[view],
        forall|view: u64| #[trigger]
            proposals.contains_key(view) ==> migrated(proposals, proposals2).contains_key(view)
                && migrated(proposals, proposals2)[view] == revised(proposals[view]),
{
}

/// Whether `view` is among the first `i` of `views`.
pub open spec fn among_first(views: Seq<u64>, i: int, view: u64) -> bool {
    exists|j: int| 0 <= j < i && views[j] == view
}

/// The quorum proposals of the revised schema when the proposals of the
/// first schema at the first `i` of `views` have been converted.
pub open spec fn partly_migrated(
    proposals: Map<u64, Proposal<QuorumProposal>>,
    proposals2: Map<u64, Proposal<QuorumProposal2>>,
    views: Seq<u64>,
    i: int,
) -> Map<u64, Proposal<QuorumProposal2>> {
    Map::new(
        |view: u64| among_first(views, i, view) || proposals2.contains_key(view),
        |view: u64|
            if among_first(views, i, view) {
                revised(proposals[view])
            } else {
                proposals2[view]
            },
    )
}

/// Converting the proposal at one more view is one write.
proof fn lemma_migration_step(
    proposals: Map<u64, Proposal<QuorumProposal>>,
    proposals2: Map<u64, Proposal<QuorumProposal2>>,
    views: Seq<u64>,
    i: int,
)
    requires
        0 <= i < views.len(),
    ensures
        partly_migrated(proposals, proposals2, views, i + 1) == partly_migrated(
            proposals,
            proposals2,
            views,
            i,
        ).insert(views[i], revised(proposals[views[i]])),
{
}

/// When the proposal at every view of the first schema has been
/// converted, the migration is complete.
proof fn lemma_migration_done(
    proposals: Map<u64, Proposal<QuorumProposal>>,
    proposals2: Map<u64, Proposal<QuorumProposal2>>,
    views: Seq<u64>,
)
    requires
        views.to_set() == proposals.dom(),
    ensures
        partly_migrated(proposals, proposals2, views, views.len() as int) == migrated(
            proposals,
            proposals2,
        ),
{
}

/// Whether an operation that was switched to fail did what it must: it
/// changed nothing and reported itself.
pub open spec fn refused(
    before: StorageView,
    after: StorageView,
    r: Result<(), StorageError>,
    operation: StorageOperation,
) -> bool {
    after == before && r == Err::<(), StorageError>(StorageError { operation })
}

/// Writes a share into the table of its view, which is made if the view has
/// none yet.
fn write_share<P>(
    tables: &mut BTreeMap<u64, ShareTable<P>>,
    view: u64,
    recipient: Vec<u8>,
    share: Proposal<P>,
)
    requires
        tables_wf(old(tables)@),
    ensures
        tables_wf(final(tables)@),
        share_maps(final(tables)@) == with_share(
            share_maps(old(tables)@),
            view,
            recipient@,
            share,
        ),
{
    broadcast use group_btree_axioms;

    let mut table: ShareTable<P> = match tables.remove(&view) {
        Some(found) => found,
        None => ShareTable::new(),
    };
    table.insert(recipient, share);
    tables.insert(view, table);
}

/// Offers a certificate to a slot: it is taken where the slot is empty or
/// holds a certificate of a strictly lower view.
fn offer(slot: &mut Option<SimpleCertificate>, incoming: SimpleCertificate)
    ensures
        *final(slot) == ratchet(*old(slot), incoming),
{
    let replace: bool = match slot {
        Some(current) => incoming.view_number > current.view_number,
        None => true,
    };
    if replace {
        *slot = Some(incoming);
    }
}

/// The keys of a map, each once.
fn key_list<V>(map: &BTreeMap<u64, V>) -> (keys: Vec<u64>)
    ensures
        keys@.to_set() == map@.dom(),
        keys@.no_duplicates(),
{
    broadcast use group_btree_axioms;

    let mut keys: Vec<u64> = Vec::new();
    for key in it: map.keys()
        invariant
            keys@.len() == it.index(),
            it.seq() == spec_keys_iter(map).remaining(),
            forall|j: int| 0 <= j < keys@.len() ==> keys@[j] == *it.seq()[j],
    {
        keys.push(*key);
    }
    assert(keys@ =~= spec_keys_iter(map).remaining().unref());
    keys
}

/// The greatest key of a map, if it has a key.
fn greatest_key<V>(map: &BTreeMap<u64, V>) -> (r: Option<u64>)
    ensures
        match r {
            Some(key) => is_greatest_key(map@, key),
            None => forall|key: u64| !map@.contains_key(key),
        },
{
    let keys: Vec<u64> = key_list(map);
    let n: usize = keys.len();
    if n == 0 {
        return None;
    }
    let mut best: u64 = keys[0];
    let mut i: usize = 1;
    while i < n
        invariant
            n == keys@.len(),
            1 <= i <= n,
            keys@.contains(best),
            forall|j: int| 0 <= j < i ==> keys@[j] <= best,
        decreases n - i,
    {
        if keys[i] > best {
            best = keys[i];
        }
        i = i + 1;
    }
    Some(best)
}

impl TestStorage {
    /// Whether the storage is well formed. Every operation keeps it so.
    pub closed spec fn wf(&self) -> bool {
        self.inner.wf()
    }

    /// Whether the operations that can fail are switched to fail.
    pub closed spec fn fails(&self) -> bool {
        self.should_return_err
    }

    /// Switches the operations that can fail to fail, or back.
    pub fn set_should_return_err(&mut self, fail: bool)
        ensures
            final(self).fails() == fail,
            final(self)@ == old(self)@,
            final(self).wf() == old(self).wf(),
    {
        self.should_return_err = fail;
    }
}

impl StorageError {
    /// What the fault says.
    pub fn message(&self) -> (text: &'static str)
        ensures
            text@ == fault_text(self.operation),
    {
        match self.operation {
            StorageOperation::AppendVid => "Failed to append VID proposal to storage",
            StorageOperation::AppendVid2 => "Failed to append VID proposal to storage",
            StorageOperation::AppendDa => "Failed to append DA proposal to storage",
            StorageOperation::AppendDa2 => "Failed to append DA proposal (2) to storage",
            StorageOperation::AppendProposal => "Failed to append Quorum proposal (1) to storage",
            StorageOperation::AppendProposal2 => "Failed to append Quorum proposal (2) to storage",
            StorageOperation::AppendProposalWrapper =>
                "Failed to append Quorum proposal (wrapped) to storage",
            StorageOperation::RecordAction => "Failed to append Action to storage",
            StorageOperation::UpdateHighQc => "Failed to update high qc to storage",
            StorageOperation::UpdateHighQc2 => "Failed to update high qc to storage",
            StorageOperation::UpdateStateCert => "Failed to update state_cert to storage",
            StorageOperation::UpdateNextEpochHighQc2 =>
                "Failed to update next epoch high qc to storage",
        }
    }
}

/// What the fault of an operation says.
pub open spec fn fault_text(operation: StorageOperation) -> Seq<char> {
    match operation {
        StorageOperation::AppendVid => "Failed to append VID proposal to storage"@,
        StorageOperation::AppendVid2 => "Failed to append VID proposal to storage"@,
        StorageOperation::AppendDa => "Failed to append DA proposal to storage"@,
        StorageOperation::AppendDa2 => "Failed to append DA proposal (2) to storage"@,
        StorageOperation::AppendProposal => "Failed to append Quorum proposal (1) to storage"@,
        StorageOperation::AppendProposal2 => "Failed to append Quorum proposal (2) to storage"@,
        StorageOperation::AppendProposalWrapper =>
            "Failed to append Quorum proposal (wrapped) to storage"@,
        StorageOperation::RecordAction => "Failed to append Action to storage"@,
        StorageOperation::UpdateHighQc => "Failed to update high qc to storage"@,
        StorageOperation::UpdateHighQc2 => "Failed to update high qc to storage"@,
        StorageOperation::UpdateStateCert => "Failed to update state_cert to storage"@,
        StorageOperation::UpdateNextEpochHighQc2 =>
            "Failed to update next epoch high qc to storage"@,
    }
}

impl TestStorage {
    /// A copy of the quorum proposals of the wrapped schema, by view.
    pub fn proposals_cloned(&self) -> (r: BTreeMap<u64, Proposal<QuorumProposalWrapper>>)
        ensures
            r@ == self@.proposals_wrapper,
    {
        self.inner.proposals_wrapper.clone()
    }

    /// A copy of the quorum proposals of the first schema, by view.
    pub fn first_proposals_cloned(&self) -> (r: BTreeMap<u64, Proposal<QuorumProposal>>)
        ensures
            r@ == self@.proposals,
    {
        self.inner.proposals.clone()
    }

    /// A copy of the quorum proposals of the revised schema, by view.
    pub fn revised_proposals_cloned(&self) -> (r: BTreeMap<u64, Proposal<QuorumProposal2>>)
        ensures
            r@ == self@.proposals2,
    {
        self.inner.proposals2.clone()
    }

    /// A copy of the data-availability proposals of the first schema, by
    /// view.
    pub fn da_proposals_cloned(&self) -> (r: HashMap<u64, Proposal<DaProposal>>)
        ensures
            r@ == self@.das,
    {
        self.inner.das.clone()
    }

    /// A copy of the data-availability proposals of the revised schema, by
    /// view.
    pub fn da_proposals2_cloned(&self) -> (r: HashMap<u64, Proposal<DaProposal2>>)
        ensures
            r@ == self@.da2s,
    {
        self.inner.da2s.clone()
    }

    /// A copy of the dispersal shares of the first schema, by view and
    /// recipient.
    pub fn first_vids_cloned(&self) -> (r: BTreeMap<u64, ShareTable<ADVZDisperseShare>>)
        requires
            self.wf(),
        ensures
            tables_wf(r@),
            share_maps(r@) == self@.vids,
    {
        self.inner.vids.clone()
    }

    /// A copy of the randomness-beacon results, by epoch.
    pub fn drb_results_cloned(&self) -> (r: BTreeMap<u64, [u8; 32]>)
        ensures
            r@ == self@.drb_results,
    {
        self.inner.drb_results.clone()
    }

    /// A copy of the block headers at the epoch boundaries, by epoch.
    pub fn epoch_roots_cloned(&self) -> (r: BTreeMap<u64, Vec<u8>>)
        ensures
            r@ == self@.epoch_roots,
    {
        self.inner.epoch_roots.clone()
    }

    /// A copy of the high certificate of the first schema.
    pub fn first_high_qc_cloned(&self) -> (r: Option<SimpleCertificate>)
        ensures
            r is Some <==> self@.high_qc is Some,
            r is Some ==> r->Some_0@ == self@.high_qc->Some_0@,
    {
        match &self.inner.high_qc {
            Some(cert) => Some(cert.duplicate()),
            None => None,
        }
    }

    /// A copy of the high certificate of the revised schema.
    pub fn high_qc_cloned(&self) -> (r: Option<SimpleCertificate>)
        ensures
            r is Some <==> self@.high_qc2 is Some,
            r is Some ==> r->Some_0@ == self@.high_qc2->Some_0@,
    {
        match &self.inner.high_qc2 {
            Some(cert) => Some(cert.duplicate()),
            None => None,
        }
    }

    /// A copy of the high certificate of the next epoch.
    pub fn next_epoch_high_qc_cloned(&self) -> (r: Option<SimpleCertificate>)
        ensures
            r is Some <==> self@.next_epoch_high_qc2 is Some,
            r is Some ==> r->Some_0@ == self@.next_epoch_high_qc2->Some_0@,
    {
        match &self.inner.next_epoch_high_qc2 {
            Some(cert) => Some(cert.duplicate()),
            None => None,
        }
    }

    /// A copy of the last decided upgrade certificate.
    pub fn decided_upgrade_certificate(&self) -> (r: Option<SimpleCertificate>)
        ensures
            r is Some <==> self@.decided_upgrade_certificate is Some,
            r is Some ==> r->Some_0@ == self@.decided_upgrade_certificate->Some_0@,
    {
        match &self.decided_upgrade_certificate {
            Some(cert) => Some(cert.duplicate()),
            None => None,
        }
    }

    /// The view of the last vote or proposal.
    pub fn last_actioned_view(&self) -> (r: u64)
        ensures
            r == self@.action,
    {
        self.inner.action
    }

    /// The epoch of the last vote or proposal.
    pub fn last_actioned_epoch(&self) -> (r: Option<u64>)
        ensures
            r == self@.epoch,
    {
        self.inner.epoch
    }

    /// A copy of the dispersal shares of the revised schema, by view and
    /// recipient.
    pub fn vids_cloned(&self) -> (r: BTreeMap<u64, ShareTable<VidDisperseShare2>>)
        requires
            self.wf(),
        ensures
            tables_wf(r@),
            share_maps(r@) == self@.vid2,
    {
        self.inner.vid2.clone()
    }

    /// A copy of the latest state certificate: the one stored for the
    /// greatest epoch, whenever it was written.
    pub fn state_cert_cloned(&self) -> (r: Option<LightClientStateUpdateCertificate>)
        ensures
            match r {
                Some(cert) => exists|epoch: u64| #[trigger]
                    is_greatest_key(self@.state_certs, epoch) && cert@
                        == self@.state_certs[epoch]@,
                None => forall|epoch: u64| !self@.state_certs.contains_key(epoch),
            },
    {
        broadcast use group_btree_axioms;

        match greatest_key(&self.inner.state_certs) {
            None => None,
            Some(epoch) => {
                match self.inner.state_certs.get(&epoch) {
                    Some(cert) => {
                        let copy = cert.duplicate();
                        assert(is_greatest_key(self@.state_certs, epoch));
                        Some(copy)
                    },
                    None => {
                        assert(false);
                        None
                    },
                }
            },
        }
    }

    /// Writes a dispersal share of the first schema at its view and
    /// recipient.
    pub fn append_vid(&mut self, proposal: Proposal<ADVZDisperseShare>) -> (r: Result<
        (),
        StorageError,
    >)
        requires
            old(self).wf(),
        ensures
            final(self).wf(),
            final(self).fails() == old(self).fails(),
            old(self).fails() ==> refused(old(self)@, final(self)@, r, StorageOperation::AppendVid),
            !old(self).fails() ==> r is Ok && final(self)@ == (StorageView {
                vids: with_share(
                    old(self)@.vids,
                    proposal.view_number,
                    proposal.data.recipient_key@,
                    proposal,
                ),
                ..old(self)@
            }),
    {
        if self.should_return_err {
            return Err(StorageError { operation: StorageOperation::AppendVid });
        }
        let recipient: Vec<u8> = proposal.data.recipient_key.clone();
        write_share(&mut self.inner.vids, proposal.view_number, recipient, proposal);
        Ok(())
    }

    /// Writes a dispersal share of the revised schema at its view and
    /// recipient.
    pub fn append_vid2(&mut self, proposal: Proposal<VidDisperseShare2>) -> (r: Result<
        (),
        StorageError,
    >)
        requires
            old(self).wf(),
        ensures
            final(self).wf(),
            final(self).fails() == old(self).fails(),
            old(self).fails() ==> refused(
                old(self)@,
                final(self)@,
                r,
                StorageOperation::AppendVid2,
            ),
            !old(self).fails() ==> r is Ok && final(self)@ == (StorageView {
                vid2: with_share(
                    old(self)@.vid2,
                    proposal.view_number,
                    proposal.data.recipient_key@,
                    proposal,
                ),
                ..old(self)@
            }),
    {
        if self.should_return_err {
            return Err(StorageError { operation: StorageOperation::AppendVid2 });
        }
        let recipient: Vec<u8> = proposal.data.recipient_key.clone();
        write_share(&mut self.inner.vid2, proposal.view_number, recipient, proposal);
        Ok(())
    }

    /// Writes a data-availability proposal of the first schema at its
    /// view.
    pub fn append_da(&mut self, proposal: Proposal<DaProposal>, _vid_commit: &[u8]) -> (r: Result<
        (),
        StorageError,
    >)
        ensures
            final(self).wf() == old(self).wf(),
            final(self).fails() == old(self).fails(),
            old(self).fails() ==> refused(old(self)@, final(self)@, r, StorageOperation::AppendDa),
            !old(self).fails() ==> r is Ok && final(self)@ == (StorageView {
                das: old(self)@.das.insert(proposal.view_number, proposal),
                ..old(self)@
            }),
    {
        broadcast use group_hash_axioms;

        if self.should_return_err {
            return Err(StorageError { operation: StorageOperation::AppendDa });
        }
        self.inner.das.insert(proposal.view_number, proposal);
        Ok(())
    }

    /// Writes a data-availability proposal of the revised schema at its view.
    pub fn append_da2(&mut self, proposal: Proposal<DaProposal2>, _vid_commit: &[u8]) -> (r:
        Result<(), StorageError>)
        ensures
            final(self).wf() == old(self).wf(),
            final(self).fails() == old(self).fails(),
            old(self).fails() ==> refused(old(self)@, final(self)@, r, StorageOperation::AppendDa2),
            !old(self).fails() ==> r is Ok && final(self)@ == (StorageView {
                da2s: old(self)@.da2s.insert(proposal.view_number, proposal),
                ..old(self)@
            }),
    {
        broadcast use group_hash_axioms;

        if self.should_return_err {
            return Err(StorageError { operation: StorageOperation::AppendDa2 });
        }
        self.inner.da2s.insert(proposal.view_number, proposal);
        Ok(())
    }

    /// Writes a quorum proposal of the first schema at its view.
    pub fn append_proposal(&mut self, proposal: Proposal<QuorumProposal>) -> (r: Result<
        (),
        StorageError,
    >)
        ensures
            final(self).wf() == old(self).wf(),
            final(self).fails() == old(self).fails(),
            old(self).fails() ==> refused(
                old(self)@,
                final(self)@,
                r,
                StorageOperation::AppendProposal,
            ),
            !old(self).fails() ==> r is Ok && final(self)@ == (StorageView {
                proposals: old(self)@.proposals.insert(proposal.view_number, proposal),
                ..old(self)@
            }),
    {
        broadcast use group_btree_axioms;

        if self.should_return_err {
            return Err(StorageError { operation: StorageOperation::AppendProposal });
        }
        self.inner.proposals.insert(proposal.view_number, proposal);
        Ok(())
    }

    /// Writes a quorum proposal of the revised schema at its view.
    pub fn append_proposal2(&mut self, proposal: Proposal<QuorumProposal2>) -> (r: Result<
        (),
        StorageError,
    >)
        ensures
            final(self).wf() == old(self).wf(),
            final(self).fails() == old(self).fails(),
            old(self).fails() ==> refused(
                old(self)@,
                final(self)@,
                r,
                StorageOperation::AppendProposal2,
            ),
            !old(self).fails() ==> r is Ok && final(self)@ == (StorageView {
                proposals2: old(self)@.proposals2.insert(proposal.view_number, proposal),
                ..old(self)@
            }),
    {
        broadcast use group_btree_axioms;

        if self.should_return_err {
            return Err(StorageError { operation: StorageOperation::AppendProposal2 });
        }
        self.inner.proposals2.insert(proposal.view_number, proposal);
        Ok(())
    }

    /// Writes a quorum proposal of the wrapped schema at its view.
    pub fn append_proposal_wrapper(&mut self, proposal: Proposal<QuorumProposalWrapper>) -> (r:
        Result<(), StorageError>)
        ensures
            final(self).wf() == old(self).wf(),
            final(self).fails() == old(self).fails(),
            old(self).fails() ==> refused(
                old(self)@,
                final(self)@,
                r,
                StorageOperation::AppendProposalWrapper,
            ),
            !old(self).fails() ==> r is Ok && final(self)@ == (StorageView {
                proposals_wrapper: old(self)@.proposals_wrapper.insert(
                    proposal.view_number,
                    proposal,
                ),
                ..old(self)@
            }),
    {
        broadcast use group_btree_axioms;

        if self.should_return_err {
            return Err(StorageError { operation: StorageOperation::AppendProposalWrapper });
        }
        self.inner.proposals_wrapper.insert(proposal.view_number, proposal);
        Ok(())
    }

    /// Records that the replica acted in a view and an epoch. A vote or a
    /// proposal moves the mark of the last action forward to that view and
    /// epoch, each where it is later than the mark; any other action leaves
    /// the mark where it is.
    pub fn record_action(&mut self, view: u64, epoch: Option<u64>, action: HotShotAction) -> (r:
        Result<(), StorageError>)
        ensures
            final(self).wf() == old(self).wf(),
            final(self).fails() == old(self).fails(),
            old(self).fails() ==> refused(
                old(self)@,
                final(self)@,
                r,
                StorageOperation::RecordAction,
            ),
            !old(self).fails() ==> r is Ok && final(self)@ == (if moves_mark(action) {
                StorageView {
                    action: later_view(view, old(self)@.action),
                    epoch: latest_epoch(epoch, old(self)@.epoch),
                    ..old(self)@
                }
            } else {
                old(self)@
            }),
            final(self)@.action >= old(self)@.action,
            !later_epoch(old(self)@.epoch, final(self)@.epoch),
    {
        if self.should_return_err {
            return Err(StorageError { operation: StorageOperation::RecordAction });
        }
        let moves: bool = match action {
            HotShotAction::Vote => true,
            HotShotAction::Propose => true,
            _ => false,
        };
        if moves {
            if view > self.inner.action {
                self.inner.action = view;
            }
            let later: bool = match (epoch, self.inner.epoch) {
                (Some(x), Some(y)) => x > y,
                (Some(_), None) => true,
                (None, _) => false,
            };
            if later {
                self.inner.epoch = epoch;
            }
        }
        Ok(())
    }

    /// Offers a certificate of the first schema as the high certificate:
    /// it replaces the stored one exactly when its view is strictly higher,
    /// or when none is stored.
    pub fn update_high_qc(&mut self, new_high_qc: SimpleCertificate) -> (r: Result<
        (),
        StorageError,
    >)
        ensures
            final(self).wf() == old(self).wf(),
            final(self).fails() == old(self).fails(),
            old(self).fails() ==> refused(
                old(self)@,
                final(self)@,
                r,
                StorageOperation::UpdateHighQc,
            ),
            !old(self).fails() ==> r is Ok && final(self)@ == (StorageView {
                high_qc: ratchet(old(self)@.high_qc, new_high_qc),
                ..old(self)@
            }),
    {
        if self.should_return_err {
            return Err(StorageError { operation: StorageOperation::UpdateHighQc });
        }
        offer(&mut self.inner.high_qc, new_high_qc);
        Ok(())
    }

    /// Offers a certificate of the revised schema as the high certificate:
    /// it replaces the stored one exactly when its view is strictly higher,
    /// or when none is stored.
    pub fn update_high_qc2(&mut self, new_high_qc: SimpleCertificate) -> (r: Result<
        (),
        StorageError,
    >)
        ensures
            final(self).wf() == old(self).wf(),
            final(self).fails() == old(self).fails(),
            old(self).fails() ==> refused(
                old(self)@,
                final(self)@,
                r,
                StorageOperation::UpdateHighQc2,
            ),
            !old(self).fails() ==> r is Ok && final(self)@ == (StorageView {
                high_qc2: ratchet(old(self)@.high_qc2, new_high_qc),
                ..old(self)@
            }),
    {
        if self.should_return_err {
            return Err(StorageError { operation: StorageOperation::UpdateHighQc2 });
        }
        offer(&mut self.inner.high_qc2, new_high_qc);
        Ok(())
    }

    /// Writes a state certificate at its epoch, whatever view it was made in.
    pub fn update_state_cert(&mut self, state_cert: LightClientStateUpdateCertificate) -> (r:
        Result<(), StorageError>)
        ensures
            final(self).wf() == old(self).wf(),
            final(self).fails() == old(self).fails(),
            old(self).fails() ==> refused(
                old(self)@,
                final(self)@,
                r,
                StorageOperation::UpdateStateCert,
            ),
            !old(self).fails() ==> r is Ok && final(self)@ == (StorageView {
                state_certs: old(self)@.state_certs.insert(state_cert.epoch, state_cert),
                ..old(self)@
            }),
    {
        broadcast use group_btree_axioms;

        if self.should_return_err {
            return Err(StorageError { operation: StorageOperation::UpdateStateCert });
        }
        self.inner.state_certs.insert(state_cert.epoch, state_cert);
        Ok(())
    }

    /// Offers a certificate as the high certificate of the next epoch: it
    /// replaces the stored one exactly when its view is strictly higher, or
    /// when none is stored.
    pub fn update_next_epoch_high_qc2(&mut self, new_next_epoch_high_qc: SimpleCertificate) -> (r:
        Result<(), StorageError>)
        ensures
            final(self).wf() == old(self).wf(),
            final(self).fails() == old(self).fails(),
            old(self).fails() ==> refused(
                old(self)@,
                final(self)@,
                r,
                StorageOperation::UpdateNextEpochHighQc2,
            ),
            !old(self).fails() ==> r is Ok && final(self)@ == (StorageView {
                next_epoch_high_qc2: ratchet(
                    old(self)@.next_epoch_high_qc2,
                    new_next_epoch_high_qc,
                ),
                ..old(self)@
            }),
    {
        if self.should_return_err {
            return Err(StorageError { operation: StorageOperation::UpdateNextEpochHighQc2 });
        }
        offer(&mut self.inner.next_epoch_high_qc2, new_next_epoch_high_qc);
        Ok(())
    }

    /// Replaces the last decided upgrade certificate, also by none. This
    /// operation cannot be made to fail.
    pub fn update_decided_upgrade_certificate(
        &mut self,
        decided_upgrade_certificate: Option<SimpleCertificate>,
    ) -> (r: Result<(), StorageError>)
        ensures
            final(self).wf() == old(self).wf(),
            final(self).fails() == old(self).fails(),
            r is Ok,
            final(self)@ == (StorageView { decided_upgrade_certificate, ..old(self)@ }),
    {
        self.decided_upgrade_certificate = decided_upgrade_certificate;
        Ok(())
    }

    /// Copies every quorum proposal of the first schema into the revised
    /// schema, at the same view. The proposals of the first schema stay.
    /// This operation cannot be made to fail.
    pub fn migrate_consensus(&mut self) -> (r: Result<(), StorageError>)
        ensures
            final(self).wf() == old(self).wf(),
            final(self).fails() == old(self).fails(),
            r is Ok,
            final(self)@ == (StorageView {
                proposals2: migrated(old(self)@.proposals, old(self)@.proposals2),
                ..old(self)@
            }),
    {
        broadcast use group_btree_axioms;

        let ghost source = self.inner.proposals@;
        let ghost target = self.inner.proposals2@;
        let views: Vec<u64> = key_list(&self.inner.proposals);
        let mut copies: BTreeMap<u64, Proposal<QuorumProposal>> = self.inner.proposals.clone();
        let n: usize = views.len();
        let mut i: usize = 0;
        while i < n
            invariant
                n == views@.len(),
                i <= n,
                views@.no_duplicates(),
                views@.to_set() == source.dom(),
                self.inner.proposals@ == source,
                self.inner.vids == old(self).inner.vids,
                self.inner.vid2 == old(self).inner.vid2,
                self.inner.das == old(self).inner.das,
                self.inner.da2s == old(self).inner.da2s,
                self.inner.proposals_wrapper == old(self).inner.proposals_wrapper,
                self.inner.high_qc == old(self).inner.high_qc,
                self.inner.high_qc2 == old(self).inner.high_qc2,
                self.inner.next_epoch_high_qc2 == old(self).inner.next_epoch_high_qc2,
                self.inner.action == old(self).inner.action,
                self.inner.epoch == old(self).inner.epoch,
                self.inner.state_certs == old(self).inner.state_certs,
                self.inner.drb_results == old(self).inner.drb_results,
                self.inner.epoch_roots == old(self).inner.epoch_roots,
                self.should_return_err == old(self).should_return_err,
                self.decided_upgrade_certificate == old(self).decided_upgrade_certificate,
                forall|j: int| i <= j < n ==> copies@.contains_key(#[trigger] views@[j])
                    && copies@[views@[j]] == source[views@[j]],
                self.inner.proposals2@ == partly_migrated(source, target, views@, i as int),
            decreases n - i,
        {
            let view: u64 = views[i];
            match copies.remove(&view) {
                Some(proposal) => {
                    self.inner.proposals2.insert(view, convert_proposal(proposal));
                },
                None => {
                    assert(false);
                },
            }
            proof {
                lemma_migration_step(source, target, views@, i as int);
            }
            i = i + 1;
        }
        proof {
            lemma_migration_done(source, target, views@);
        }
        Ok(())
    }

    /// Writes the randomness-beacon result of an epoch. This operation
    /// cannot be made to fail.
    pub fn add_drb_result(&mut self, epoch: u64, drb_result: [u8; 32]) -> (r: Result<
        (),
        StorageError,
    >)
        ensures
            final(self).wf() == old(self).wf(),
            final(self).fails() == old(self).fails(),
            r is Ok,
            final(self)@ == (StorageView {
                drb_results: old(self)@.drb_results.insert(epoch, drb_result),
                ..old(self)@
            }),
    {
        broadcast use group_btree_axioms;

        self.inner.drb_results.insert(epoch, drb_result);
        Ok(())
    }

    /// Writes the block header at the boundary of an epoch. This operation
    /// cannot be made to fail.
    pub fn add_epoch_root(&mut self, epoch: u64, block_header: Vec<u8>) -> (r: Result<
        (),
        StorageError,
    >)
        ensures
            final(self).wf() == old(self).wf(),
            final(self).fails() == old(self).fails(),
            r is Ok,
            final(self)@ == (StorageView {
                epoch_roots: old(self)@.epoch_roots.insert(epoch, block_header),
                ..old(self)@
            }),
    {
        broadcast use group_btree_axioms;

        self.inner.epoch_roots.insert(epoch, block_header);
        Ok(())
    }
}

} // verus!
