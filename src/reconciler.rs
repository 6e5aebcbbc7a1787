//! The snapshot/delta reconciliation protocol: which delta is applied,
//! discarded, fast-forwarded over a gap, or reported as a fault.
use crate::book::{
    best_level, crossed, lemma_levels_applied_concat, levels_applied, BookModel, PriceLevel,
    PriceLevelBook, Side,
};
use crate::decimal::{parse_unsigned, unsigned_text};
use crate::wire::{levels_readable, levels_text, parse_levels, RawDepthDelta, Snapshot};
use vstd::prelude::*;

verus! {

/// Where the reconciler stands in the protocol.
#[derive(Clone, Copy, Debug, PartialEq, Eq, Structural)]
pub enum SyncState {
    /// No snapshot applied yet.
    Bootstrapping,
    /// A snapshot was applied and deltas are accepted.
    Synced,
    /// An unrecoverable gap or unreadable delta was met; a fresh snapshot is
    /// needed before any delta is accepted again.
    Faulted,
}

/// The version the book is known consistent as of, and the end of the last
/// delta applied since the last snapshot.
#[derive(Clone, Copy, Debug, PartialEq, Eq, Structural)]
pub struct VersionCursor {
    pub confirmed_version: u64,
    pub last_contiguous_to: Option<u64>,
}

/// A full replacement of the book, tagged with its version.
pub struct BookSnapshot {
    pub version: u64,
    pub bids: Vec<PriceLevel>,
    pub asks: Vec<PriceLevel>,
}

/// Absolute level values for the versions `from_version..=to_version`.
pub struct BookDelta {
    pub from_version: u64,
    pub to_version: u64,
    pub bids: Vec<PriceLevel>,
    pub asks: Vec<PriceLevel>,
}

/// How a delta relates to the cursor.
#[derive(Clone, Copy, Debug, PartialEq, Eq, Structural)]
pub enum DeltaVerdict {
    /// The reconciler is not synced: no delta is taken.
    NotSynced,
    /// Ends at or before the confirmed version: already superseded.
    Stale,
    /// Covers the next needed version.
    Contiguous,
    /// Starts after the next needed version, within the tolerance, and no
    /// delta was applied since the snapshot: the cursor skips the gap.
    FastForward,
    /// Starts after the next needed version and may not skip it.
    Gap,
    /// Lies wholly before the next needed version.
    Behind,
}

/// What an accepted delta did.
#[derive(Clone, Copy, Debug, PartialEq, Eq, Structural)]
pub enum DeltaOutcome {
    /// The delta's levels were applied; `crossed` reports a crossed book
    /// afterwards, which is kept and only reported.
    Applied { fast_forwarded: bool, crossed: bool },
    /// The delta was discarded without effect.
    Discarded,
}

/// Why a delta was refused.
#[derive(Clone, Copy, Debug, PartialEq, Eq, Structural)]
pub enum ReconcileError {
    /// No snapshot is in force (before the first, or after a fault).
    NotSynced,
    /// A gap that may not be skipped: the reconciler is now faulted.
    Gap { needed: u64, from_version: u64, to_version: u64 },
    /// A version or level could not be read: the reconciler is now faulted.
    Malformed,
}

/// The abstract reconciler.
pub struct ReconModel {
    pub book: BookModel,
    pub cursor: VersionCursor,
    pub state: SyncState,
    pub gap_tolerance: u64,
}

pub open spec fn verdict(s: ReconModel, from_version: u64, to_version: u64) -> DeltaVerdict {
    let confirmed = s.cursor.confirmed_version;
    if s.state != SyncState::Synced {
        DeltaVerdict::NotSynced
    } else if to_version <= confirmed {
        DeltaVerdict::Stale
    } else if from_version <= confirmed + 1 <= to_version {
        DeltaVerdict::Contiguous
    } else if from_version > confirmed + 1 {
        if from_version - (confirmed + 1) <= s.gap_tolerance && s.cursor.last_contiguous_to is None {
            DeltaVerdict::FastForward
        } else {
            DeltaVerdict::Gap
        }
    } else {
        DeltaVerdict::Behind
    }
}

/// The book after a delta's levels.
pub open spec fn delta_applied(b: BookModel, bids: Seq<PriceLevel>, asks: Seq<PriceLevel>) -> BookModel {
    BookModel { bids: levels_applied(b.bids, bids), asks: levels_applied(b.asks, asks) }
}

/// The reconciler after a snapshot.
pub open spec fn after_snapshot(s: ReconModel, version: u64, bids: Seq<PriceLevel>, asks: Seq<PriceLevel>) -> ReconModel {
    ReconModel {
        book: BookModel { bids: levels_applied(Map::empty(), bids), asks: levels_applied(Map::empty(), asks) },
        cursor: VersionCursor { confirmed_version: version, last_contiguous_to: None },
        state: SyncState::Synced,
        gap_tolerance: s.gap_tolerance,
    }
}

/// The reconciler after a delta.
pub open spec fn after_delta(
    s: ReconModel,
    from_version: u64,
    to_version: u64,
    bids: Seq<PriceLevel>,
    asks: Seq<PriceLevel>,
) -> ReconModel {
    match verdict(s, from_version, to_version) {
        DeltaVerdict::Contiguous | DeltaVerdict::FastForward => ReconModel {
            book: delta_applied(s.book, bids, asks),
            cursor: VersionCursor { confirmed_version: to_version, last_contiguous_to: Some(to_version) },
            state: SyncState::Synced,
            gap_tolerance: s.gap_tolerance,
        },
        DeltaVerdict::Gap => ReconModel { state: SyncState::Faulted, ..s },
        _ => s,
    }
}

/// What `apply_delta` returns for a delta.
pub open spec fn delta_result(
    s: ReconModel,
    from_version: u64,
    to_version: u64,
    bids: Seq<PriceLevel>,
    asks: Seq<PriceLevel>,
) -> Result<DeltaOutcome, ReconcileError> {
    match verdict(s, from_version, to_version) {
        DeltaVerdict::NotSynced => Err(ReconcileError::NotSynced),
        DeltaVerdict::Stale | DeltaVerdict::Behind => Ok(DeltaOutcome::Discarded),
        DeltaVerdict::Contiguous => Ok(DeltaOutcome::Applied {
            fast_forwarded: false,
            crossed: crossed(delta_applied(s.book, bids, asks)),
        }),
        DeltaVerdict::FastForward => Ok(DeltaOutcome::Applied {
            fast_forwarded: true,
            crossed: crossed(delta_applied(s.book, bids, asks)),
        }),
        DeltaVerdict::Gap => Err(ReconcileError::Gap {
            needed: (s.cursor.confirmed_version + 1) as u64,
            from_version,
            to_version,
        }),
    }
}

/// Both versions and every level of a text delta read.
pub open spec fn raw_delta_readable(d: RawDepthDelta) -> bool {
    &&& unsigned_text(d.from_version@) is Some
    &&& unsigned_text(d.to_version@) is Some
    &&& levels_readable(d.bids@)
    &&& levels_readable(d.asks@)
}

/// The reconciler with its book and cursor kept and its state faulted.
pub open spec fn faulted(s: ReconModel) -> ReconModel {
    ReconModel { state: SyncState::Faulted, ..s }
}

/// Owns one book and its version cursor, and applies snapshots and deltas to
/// them under the versioned protocol.
pub struct SequenceReconciler {
    book: PriceLevelBook,
    cursor: VersionCursor,
    state: SyncState,
    gap_tolerance: u64,
}

impl View for SequenceReconciler {
    type V = ReconModel;

    closed spec fn view(&self) -> ReconModel {
        ReconModel { book: self.book@, cursor: self.cursor, state: self.state, gap_tolerance: self.gap_tolerance }
    }
}

impl SequenceReconciler {
    pub closed spec fn wf(&self) -> bool {
        self.book.wf()
    }

    /// A reconciler with an empty book, waiting for its first snapshot; a gap
    /// of up to `gap_tolerance` versions may be skipped once per snapshot.
    pub fn new(gap_tolerance: u64) -> (r: SequenceReconciler)
        ensures
            r.wf(),
            r@.state == SyncState::Bootstrapping,
            r@.book.bids == Map::<u128, u128>::empty(),
            r@.book.asks == Map::<u128, u128>::empty(),
            r@.cursor == (VersionCursor { confirmed_version: 0, last_contiguous_to: None }),
            r@.gap_tolerance == gap_tolerance,
    {
        SequenceReconciler {
            book: PriceLevelBook::new(),
            cursor: VersionCursor { confirmed_version: 0, last_contiguous_to: None },
            state: SyncState::Bootstrapping,
            gap_tolerance,
        }
    }

    pub fn state(&self) -> (r: SyncState)
        ensures
            r == self@.state,
    {
        self.state
    }

    pub fn cursor(&self) -> (r: VersionCursor)
        ensures
            r == self@.cursor,
    {
        self.cursor
    }

    pub fn book(&self) -> (r: &PriceLevelBook)
        ensures
            r@ == self@.book,
            self.wf() ==> r.wf(),
    {
        &self.book
    }

    /// Classifies a delta against the cursor without applying it.
    pub fn classify(&self, from_version: u64, to_version: u64) -> (r: DeltaVerdict)
        ensures
            r == verdict(self@, from_version, to_version),
    {
        let confirmed = self.cursor.confirmed_version;
        if self.state != SyncState::Synced {
            DeltaVerdict::NotSynced
        } else if to_version <= confirmed {
            DeltaVerdict::Stale
        } else if from_version <= confirmed + 1 {
            DeltaVerdict::Contiguous
        } else if from_version - (confirmed + 1) <= self.gap_tolerance && self.cursor.last_contiguous_to.is_none() {
            DeltaVerdict::FastForward
        } else {
            DeltaVerdict::Gap
        }
    }

    /// Replaces both sides of the book and resets the cursor to `version`;
    /// valid in every state, and leaves the reconciler synced.
    pub fn apply_snapshot(&mut self, snapshot: &BookSnapshot)
        requires
            old(self).wf(),
        ensures
            final(self).wf(),
            final(self)@ == after_snapshot(old(self)@, snapshot.version, snapshot.bids@, snapshot.asks@),
    {
        self.book.replace_side(Side::Bid, &snapshot.bids);
        self.book.replace_side(Side::Ask, &snapshot.asks);
        self.cursor = VersionCursor { confirmed_version: snapshot.version, last_contiguous_to: None };
        self.state = SyncState::Synced;
    }

    /// Applies, discards or refuses a delta as `verdict` decides. A gap that
    /// may not be skipped faults the reconciler and leaves the book as it was.
    pub fn apply_delta(&mut self, delta: &BookDelta) -> (r: Result<DeltaOutcome, ReconcileError>)
        requires
            old(self).wf(),
        ensures
            final(self).wf(),
            final(self)@ == after_delta(old(self)@, delta.from_version, delta.to_version, delta.bids@, delta.asks@),
            r == delta_result(old(self)@, delta.from_version, delta.to_version, delta.bids@, delta.asks@),
    {
        let v = self.classify(delta.from_version, delta.to_version);
        match v {
            DeltaVerdict::NotSynced => Err(ReconcileError::NotSynced),
            DeltaVerdict::Stale | DeltaVerdict::Behind => Ok(DeltaOutcome::Discarded),
            DeltaVerdict::Gap => {
                self.state = SyncState::Faulted;
                Err(
                    ReconcileError::Gap {
                        needed: self.cursor.confirmed_version + 1,
                        from_version: delta.from_version,
                        to_version: delta.to_version,
                    },
                )
            },
            DeltaVerdict::Contiguous | DeltaVerdict::FastForward => {
                self.book.apply_levels(Side::Bid, &delta.bids);
                self.book.apply_levels(Side::Ask, &delta.asks);
                self.cursor = VersionCursor {
                    confirmed_version: delta.to_version,
                    last_contiguous_to: Some(delta.to_version),
                };
                let crossed = self.book.is_crossed();
                Ok(DeltaOutcome::Applied { fast_forwarded: v == DeltaVerdict::FastForward, crossed })
            },
        }
    }
}

/// Reads a text delta and applies it with `apply_delta`. A delta that does not
/// read in full is refused as a whole: the book and cursor stay as they were
/// and the reconciler is faulted.
pub fn handle_diff_update(recon: &mut SequenceReconciler, delta: &RawDepthDelta) -> (r: Result<
    DeltaOutcome,
    ReconcileError,
>)
    requires
        old(recon).wf(),
    ensures
        final(recon).wf(),
        raw_delta_readable(*delta) ==> {
            let from = unsigned_text(delta.from_version@)->0;
            let to = unsigned_text(delta.to_version@)->0;
            let bids = levels_text(delta.bids@);
            let asks = levels_text(delta.asks@);
            &&& final(recon)@ == after_delta(old(recon)@, from, to, bids, asks)
            &&& r == delta_result(old(recon)@, from, to, bids, asks)
        },
        !raw_delta_readable(*delta) ==> final(recon)@ == faulted(old(recon)@) && r == Err::<
            DeltaOutcome,
            ReconcileError,
        >(ReconcileError::Malformed),
{
    let from = parse_unsigned(delta.from_version.as_str());
    let to = parse_unsigned(delta.to_version.as_str());
    let bids = parse_levels(&delta.bids);
    let asks = parse_levels(&delta.asks);
    match (from, to, bids, asks) {
        (Some(from_version), Some(to_version), Some(bids), Some(asks)) => {
            recon.apply_delta(&BookDelta { from_version, to_version, bids, asks })
        },
        _ => {
            recon.state = SyncState::Faulted;
            Err(ReconcileError::Malformed)
        },
    }
}

/// Reads a REST snapshot and applies it with `apply_snapshot`, returning its
/// version. A snapshot whose levels do not all read is refused as a whole and
/// leaves the reconciler as it was.
pub fn reload_snapshot(recon: &mut SequenceReconciler, snap: &Snapshot) -> (r: Result<u64, ReconcileError>)
    requires
        old(recon).wf(),
    ensures
        final(recon).wf(),
        levels_readable(snap.bids@) && levels_readable(snap.asks@) ==> {
            &&& final(recon)@ == after_snapshot(
                old(recon)@,
                snap.last_update_id,
                levels_text(snap.bids@),
                levels_text(snap.asks@),
            )
            &&& r == Ok::<u64, ReconcileError>(snap.last_update_id)
        },
        !(levels_readable(snap.bids@) && levels_readable(snap.asks@)) ==> final(recon)@ == old(recon)@
            && r == Err::<u64, ReconcileError>(ReconcileError::Malformed),
{
    match (parse_levels(&snap.bids), parse_levels(&snap.asks)) {
        (Some(bids), Some(asks)) => {
            recon.apply_snapshot(&BookSnapshot { version: snap.last_update_id, bids, asks });
            Ok(snap.last_update_id)
        },
        _ => Err(ReconcileError::Malformed),
    }
}

/// The reconciler after a run of deltas, applied in order.
pub open spec fn after_deltas(s: ReconModel, ds: Seq<BookDelta>) -> ReconModel
    decreases ds.len(),
{
    if ds.len() == 0 {
        s
    } else {
        let d = ds.last();
        after_delta(after_deltas(s, ds.drop_last()), d.from_version, d.to_version, d.bids@, d.asks@)
    }
}

/// Each delta of the run is contiguous with the cursor that the ones before
/// it leave.
pub open spec fn all_contiguous(s: ReconModel, ds: Seq<BookDelta>) -> bool {
    forall|i: int|
        0 <= i < ds.len() ==> verdict(after_deltas(s, ds.take(i)), #[trigger] ds[i].from_version, ds[i].to_version)
            == DeltaVerdict::Contiguous
}

/// The bid levels of a run of deltas, in order.
pub open spec fn bid_updates(ds: Seq<BookDelta>) -> Seq<PriceLevel>
    decreases ds.len(),
{
    if ds.len() == 0 {
        Seq::empty()
    } else {
        bid_updates(ds.drop_last()) + ds.last().bids@
    }
}

/// The ask levels of a run of deltas, in order.
pub open spec fn ask_updates(ds: Seq<BookDelta>) -> Seq<PriceLevel>
    decreases ds.len(),
{
    if ds.len() == 0 {
        Seq::empty()
    } else {
        ask_updates(ds.drop_last()) + ds.last().asks@
    }
}

/// Contiguous deltas applied after a snapshot leave the book that the
/// snapshot's levels followed by all the deltas' levels, applied directly to
/// an empty book, would give; in particular the same best bid and best ask.
pub proof fn lemma_contiguous_replay(
    s: ReconModel,
    version: u64,
    bids: Seq<PriceLevel>,
    asks: Seq<PriceLevel>,
    ds: Seq<BookDelta>,
)
    requires
        all_contiguous(after_snapshot(s, version, bids, asks), ds),
    ensures
        ({
            let r = after_deltas(after_snapshot(s, version, bids, asks), ds);
            &&& r.book.bids == levels_applied(Map::empty(), bids + bid_updates(ds))
            &&& r.book.asks == levels_applied(Map::empty(), asks + ask_updates(ds))
            &&& best_level(r.book.bids, Side::Bid) == best_level(levels_applied(Map::empty(), bids + bid_updates(ds)), Side::Bid)
            &&& best_level(r.book.asks, Side::Ask) == best_level(levels_applied(Map::empty(), asks + ask_updates(ds)), Side::Ask)
            &&& r.state == SyncState::Synced
        }),
    decreases ds.len(),
{
    let s0 = after_snapshot(s, version, bids, asks);
    if ds.len() == 0 {
        assert(bids + bid_updates(ds) =~= bids);
        assert(asks + ask_updates(ds) =~= asks);
    } else {
        let prefix = ds.drop_last();
        assert forall|i: int| 0 <= i < prefix.len() implies verdict(
            after_deltas(s0, prefix.take(i)),
            #[trigger] prefix[i].from_version,
            prefix[i].to_version,
        ) == DeltaVerdict::Contiguous by {
            assert(prefix.take(i) =~= ds.take(i));
            assert(ds[i] == prefix[i]);
        }
        lemma_contiguous_replay(s, version, bids, asks, prefix);
        let last = ds.len() - 1;
        assert(ds.take(last) =~= prefix);
        assert(verdict(after_deltas(s0, ds.take(last)), ds[last].from_version, ds[last].to_version)
            == DeltaVerdict::Contiguous);
        let d = ds.last();
        lemma_levels_applied_concat(Map::empty(), bids + bid_updates(prefix), d.bids@);
        lemma_levels_applied_concat(Map::empty(), asks + ask_updates(prefix), d.asks@);
        assert(bids + bid_updates(prefix) + d.bids@ =~= bids + bid_updates(ds));
        assert(asks + ask_updates(prefix) + d.asks@ =~= asks + ask_updates(ds));
    }
}

/// A delta that ends at or before the confirmed version changes nothing, and
/// is discarded or, when not synced, refused.
pub proof fn lemma_stale_delta_no_op(
    s: ReconModel,
    from_version: u64,
    to_version: u64,
    bids: Seq<PriceLevel>,
    asks: Seq<PriceLevel>,
)
    requires
        to_version <= s.cursor.confirmed_version,
    ensures
        after_delta(s, from_version, to_version, bids, asks) == s,
        delta_result(s, from_version, to_version, bids, asks) is Ok ==> delta_result(
            s,
            from_version,
            to_version,
            bids,
            asks,
        ) == Ok::<DeltaOutcome, ReconcileError>(DeltaOutcome::Discarded),
{
}

/// On a synced reconciler, a delta whose gap exceeds the tolerance faults
/// the reconciler, is reported as a gap, and leaves the book and cursor as
/// they were.
pub proof fn lemma_gap_beyond_tolerance_faults(
    s: ReconModel,
    from_version: u64,
    to_version: u64,
    bids: Seq<PriceLevel>,
    asks: Seq<PriceLevel>,
)
    requires
        s.state == SyncState::Synced,
        to_version > s.cursor.confirmed_version,
        from_version > s.cursor.confirmed_version + 1,
        from_version - (s.cursor.confirmed_version + 1) > s.gap_tolerance,
    ensures
        ({
            let r = after_delta(s, from_version, to_version, bids, asks);
            &&& r.state == SyncState::Faulted
            &&& r.book == s.book
            &&& r.cursor == s.cursor
            &&& delta_result(s, from_version, to_version, bids, asks) is Err
        }),
{
}

/// Right after a snapshot, a delta whose gap is within the tolerance is
/// applied, and the confirmed version becomes the delta's end.
pub proof fn lemma_tolerated_gap_after_snapshot(
    s: ReconModel,
    version: u64,
    snap_bids: Seq<PriceLevel>,
    snap_asks: Seq<PriceLevel>,
    from_version: u64,
    to_version: u64,
    bids: Seq<PriceLevel>,
    asks: Seq<PriceLevel>,
)
    requires
        from_version <= to_version,
        from_version > version + 1,
        from_version - (version + 1) <= s.gap_tolerance,
    ensures
        ({
            let s0 = after_snapshot(s, version, snap_bids, snap_asks);
            let r = after_delta(s0, from_version, to_version, bids, asks);
            &&& r.book == delta_applied(s0.book, bids, asks)
            &&& r.cursor.confirmed_version == to_version
            &&& r.state == SyncState::Synced
            &&& delta_result(s0, from_version, to_version, bids, asks) matches Ok(
                DeltaOutcome::Applied { fast_forwarded: true, .. },
            )
        }),
{
}

} // verus!
