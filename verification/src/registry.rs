use vstd::prelude::*;
use std::collections::{HashMap, HashSet};
use crate::animation::{
    CursorAnimationFrame, CursorAnimationState, DisplayPoint, settled_state, updated,
};
use crate::geometry::Point;
use crate::settings::CursorAnimationFrameContext;
use crate::viewport::{CursorAnimationViewport, RowLayout};

verus! {

broadcast use vstd::std_specs::hash::group_hash_axioms;

/// Which collaborator of a shared buffer a cursor belongs to.
#[derive(Clone, Copy, Debug, PartialEq, Eq, Hash, Structural)]
pub struct ReplicaId(pub u16);

/// The number of the collaborator at this machine.
pub const LOCAL_REPLICA: u16 = 0;

impl ReplicaId {
    /// The collaborator at this machine.
    pub fn local() -> (id: Self)
        ensures
            id.0 == LOCAL_REPLICA,
    {
        ReplicaId(LOCAL_REPLICA)
    }
}

/// What tells one cursor's animation from another's across frames: the collaborator and
/// the selection the cursor belongs to.
#[derive(Clone, Copy, Debug, PartialEq, Eq, Hash, Structural)]
pub struct CursorAnimationKey {
    pub replica_id: ReplicaId,
    pub selection_id: usize,
}

/// The selection id under which the newest local selection is animated, whatever its id.
pub const LOCAL_NEWEST_SELECTION_ID: usize = usize::MAX;

/// The key of a cursor: the newest local selection always gets
/// `LOCAL_NEWEST_SELECTION_ID`, so that its animation carries on when the selection is
/// replaced; every other selection keeps its own id.
pub open spec fn selection_key(
    replica_id: ReplicaId,
    selection_id: usize,
    is_newest: bool,
) -> CursorAnimationKey {
    CursorAnimationKey {
        replica_id,
        selection_id: if replica_id.0 == LOCAL_REPLICA && is_newest {
            LOCAL_NEWEST_SELECTION_ID
        } else {
            selection_id
        },
    }
}

impl CursorAnimationKey {
    /// The key of the cursor of selection `selection_id` of `replica_id`.
    pub fn for_selection(replica_id: ReplicaId, selection_id: usize, is_newest: bool) -> (key: Self)
        ensures
            key == selection_key(replica_id, selection_id, is_newest),
    {
        let selection_id = if replica_id.0 == LOCAL_REPLICA && is_newest {
            LOCAL_NEWEST_SELECTION_ID
        } else {
            selection_id
        };
        Self { replica_id, selection_id }
    }
}

/// A cursor of this frame: its key, if it has one, and where it stands in the text.
#[derive(Clone, Copy, Debug, PartialEq, Eq, Structural)]
pub struct CursorAnimationSelection {
    pub key: Option<CursorAnimationKey>,
    pub position: DisplayPoint,
}

impl CursorAnimationSelection {
    /// The cursor with `key` at `position`.
    pub fn new(key: Option<CursorAnimationKey>, position: DisplayPoint) -> (selection: Self)
        ensures
            selection == (Self { key, position }),
    {
        Self { key, position }
    }
}

/// The number a key is stored under: the replica in the high 64 bits, the selection id in
/// the low ones.
pub open spec fn key_code(key: CursorAnimationKey) -> u128 {
    (key.replica_id.0 * 0x1_0000_0000_0000_0000int + key.selection_id) as u128
}

/// Different keys are stored under different numbers.
proof fn lemma_key_code_injective(a: CursorAnimationKey, b: CursorAnimationKey)
    requires
        key_code(a) == key_code(b),
    ensures
        a == b,
{
    let ra = a.replica_id.0 as int;
    let rb = b.replica_id.0 as int;
    let sa = a.selection_id as int;
    let sb = b.selection_id as int;
    let w = 0x1_0000_0000_0000_0000int;
    assert(0 <= ra * w + sa < 0x1_0000_0000_0000_0000_0000_0000_0000_0000) by (nonlinear_arith)
        requires
            0 <= ra < 0x1_0000,
            0 <= sa < w,
            w == 0x1_0000_0000_0000_0000int,
    ;
    assert(0 <= rb * w + sb < 0x1_0000_0000_0000_0000_0000_0000_0000_0000) by (nonlinear_arith)
        requires
            0 <= rb < 0x1_0000,
            0 <= sb < w,
            w == 0x1_0000_0000_0000_0000int,
    ;
    assert(ra * w + sa == rb * w + sb);
    assert(ra == rb && sa == sb) by (nonlinear_arith)
        requires
            ra * w + sa == rb * w + sb,
            0 <= sa < w,
            0 <= sb < w,
            w > 0,
    ;
}

/// The number the key is stored under.
fn code_of(key: CursorAnimationKey) -> (code: u128)
    ensures
        code == key_code(key),
{
    key.replica_id.0 as u128 * 0x1_0000_0000_0000_0000 + key.selection_id as u128
}

/// One animation per cursor, kept from frame to frame, and the cursors seen in the
/// frame being drawn.
pub struct CursorAnimationStates {
    states: HashMap<u128, CursorAnimationState>,
    active_keys: HashSet<u128>,
}

/// The keys among `codes`, as a set of keys.
pub open spec fn keys_of(codes: Set<u128>) -> Set<CursorAnimationKey> {
    Set::new(|k: CursorAnimationKey| codes.contains(key_code(k)))
}

impl CursorAnimationStates {
    /// The animations, by key.
    pub closed spec fn states(self) -> Map<CursorAnimationKey, CursorAnimationState> {
        Map::new(
            |k: CursorAnimationKey| self.states@.contains_key(key_code(k)),
            |k: CursorAnimationKey| self.states@[key_code(k)],
        )
    }

    /// The keys of the cursors seen in the frame being drawn.
    pub closed spec fn active(self) -> Set<CursorAnimationKey> {
        keys_of(self.active_keys@)
    }

    /// No animations, and no cursor seen yet.
    pub fn new() -> (s: Self)
        ensures
            s.states() == Map::<CursorAnimationKey, CursorAnimationState>::empty(),
            s.active() == Set::<CursorAnimationKey>::empty(),
    {
        let s = Self { states: HashMap::new(), active_keys: HashSet::new() };
        assert(s.states() =~= Map::<CursorAnimationKey, CursorAnimationState>::empty());
        assert(s.active() =~= Set::<CursorAnimationKey>::empty());
        s
    }

    /// The animation of the cursor with `key`, if it has one.
    pub fn state_for(&self, key: CursorAnimationKey) -> (state: Option<CursorAnimationState>)
        ensures
            state == self.states().get(key),
    {
        let code = code_of(key);
        match self.states.get(&code) {
            Some(state) => Some(*state),
            None => None,
        }
    }

    /// Whether the cursor with `key` has been seen in the frame being drawn.
    pub fn is_key_active(&self, key: CursorAnimationKey) -> (seen: bool)
        ensures
            seen == self.active().contains(key),
    {
        let code = code_of(key);
        self.active_keys.contains(&code)
    }

    /// Takes out the animation of the cursor with `key`, if it has one.
    fn take(&mut self, key: CursorAnimationKey) -> (state: Option<CursorAnimationState>)
        ensures
            state == old(self).states().get(key),
            final(self).states() == old(self).states().remove(key),
            final(self).active() == old(self).active(),
    {
        let code = code_of(key);
        let state = self.states.remove(&code);
        assert forall|k: CursorAnimationKey| #[trigger]
            self.states().contains_key(k) == old(self).states().remove(key).contains_key(k) by {
            if key_code(k) == code {
                lemma_key_code_injective(k, key);
            }
        }
        assert(self.states() =~= old(self).states().remove(key));
        state
    }

    /// Stores `state` as the animation of the cursor with `key`, in place of any earlier one.
    fn put(&mut self, key: CursorAnimationKey, state: CursorAnimationState)
        ensures
            final(self).states() == old(self).states().insert(key, state),
            final(self).active() == old(self).active(),
    {
        let code = code_of(key);
        self.states.insert(code, state);
        assert forall|k: CursorAnimationKey| #[trigger]
            self.states().contains_key(k) == old(self).states().insert(key, state).contains_key(k)
            by {
            if key_code(k) == code {
                lemma_key_code_injective(k, key);
            }
        }
        assert forall|k: CursorAnimationKey| #[trigger]
            self.states().contains_key(k) implies self.states()[k] == old(self).states().insert(
                key,
                state,
            )[k] by {
            if key_code(k) == code {
                lemma_key_code_injective(k, key);
            }
        }
        assert(self.states() =~= old(self).states().insert(key, state));
    }

    /// Marks the cursor with `key` as seen in the frame being drawn.
    fn mark_active(&mut self, key: CursorAnimationKey)
        ensures
            final(self).active() == old(self).active().insert(key),
            final(self).states() == old(self).states(),
    {
        let code = code_of(key);
        self.active_keys.insert(code);
        assert forall|k: CursorAnimationKey| #[trigger]
            self.active().contains(k) == old(self).active().insert(key).contains(k) by {
            if key_code(k) == code {
                lemma_key_code_injective(k, key);
            }
        }
        assert(self.active() =~= old(self).active().insert(key));
    }
}



/// The animations and seen cursors after the cursors of `selections` that are not drawn
/// this frame have been settled at their places, one after another: a cursor with a key
/// whose row is not shown is marked seen and settled where the layout puts it
/// (`row_layouts` gives the layout of each selection's row, by the same index).
pub open spec fn hidden_synced(
    states: Map<CursorAnimationKey, CursorAnimationState>,
    active: Set<CursorAnimationKey>,
    selections: Seq<CursorAnimationSelection>,
    row_layouts: Seq<RowLayout>,
    viewport: CursorAnimationViewport,
    frame_context: CursorAnimationFrameContext,
) -> (Map<CursorAnimationKey, CursorAnimationState>, Set<CursorAnimationKey>)
    decreases selections.len(),
{
    if selections.len() == 0 {
        (states, active)
    } else {
        let before = hidden_synced(
            states,
            active,
            selections.drop_last(),
            row_layouts,
            viewport,
            frame_context,
        );
        let selection = selections.last();
        let layout = row_layouts[selections.len() - 1];
        if viewport.shows(selection.position) {
            before
        } else {
            match selection.key {
                None => before,
                Some(key) => (
                    before.0.insert(
                        key,
                        settled_state(
                            selection.position,
                            viewport.origin_of(selection.position, layout),
                            frame_context.now,
                            frame_context.duration,
                        ),
                    ),
                    before.1.insert(key),
                ),
            }
        }
    }
}

impl CursorAnimationStates {
    /// Draws the cursor with `key` (none is drawn without a key) seen at
    /// `logical_position` and placed at `target_origin`: marks it seen, and hands back its
    /// frame while it keeps the animation it goes on with.
    pub fn update_visible(
        &mut self,
        key: Option<CursorAnimationKey>,
        logical_position: DisplayPoint,
        target_origin: Point,
        frame_context: CursorAnimationFrameContext,
        trail_enabled: bool,
    ) -> (frame: Option<CursorAnimationFrame>)
        ensures
            match key {
                None => {
                    &&& frame is None
                    &&& final(self).states() == old(self).states()
                    &&& final(self).active() == old(self).active()
                },
                Some(key) => {
                    let next = updated(
                        old(self).states().get(key),
                        logical_position,
                        target_origin,
                        frame_context.now,
                        frame_context.duration,
                        frame_context.settings,
                        trail_enabled,
                    );
                    &&& frame == Some(next.0)
                    &&& final(self).states() == old(self).states().insert(key, next.1)
                    &&& final(self).active() == old(self).active().insert(key)
                },
            },
    {
        let key = match key {
            Some(key) => key,
            None => {
                return None;
            },
        };
        self.mark_active(key);
        let state = self.take(key);
        let (frame, state) = CursorAnimationState::update(
            state,
            logical_position,
            target_origin,
            frame_context.now,
            frame_context.duration,
            frame_context.settings,
            trail_enabled,
        );
        self.put(key, state);
        assert(self.states() =~= old(self).states().insert(key, state));
        Some(frame)
    }

    /// Marks the cursor with `key` (nothing happens without a key) seen, and settles it at
    /// `origin`, at `logical_position`.
    fn sync_hidden(
        &mut self,
        key: Option<CursorAnimationKey>,
        logical_position: DisplayPoint,
        origin: Point,
        frame_context: CursorAnimationFrameContext,
    )
        ensures
            match key {
                None => {
                    &&& final(self).states() == old(self).states()
                    &&& final(self).active() == old(self).active()
                },
                Some(key) => {
                    &&& final(self).states() == old(self).states().insert(
                        key,
                        settled_state(
                            logical_position,
                            origin,
                            frame_context.now,
                            frame_context.duration,
                        ),
                    )
                    &&& final(self).active() == old(self).active().insert(key)
                },
            },
    {
        let key = match key {
            Some(key) => key,
            None => {
                return;
            },
        };
        self.mark_active(key);
        let state = CursorAnimationState::settled(
            logical_position,
            origin,
            frame_context.now,
            frame_context.duration,
        );
        self.put(key, state);
    }

    /// Settles, where animation is in effect, every cursor of `selections` that is not
    /// drawn this frame at the place the layout gives it (`row_layouts[i]` is the layout of
    /// the row of `selections[i]`), so that it does not glide in from a stale place when it
    /// comes into view.
    pub fn sync_hidden_selections(
        &mut self,
        selections: &Vec<CursorAnimationSelection>,
        viewport: &CursorAnimationViewport,
        row_layouts: &Vec<RowLayout>,
        frame_context: CursorAnimationFrameContext,
    )
        requires
            frame_context.settings.active() ==> row_layouts@.len() == selections@.len(),
            frame_context.settings.active() ==> forall|i: int|
                0 <= i < selections@.len() && !viewport.shows(#[trigger] selections@[i].position)
                    ==> viewport.origin_fits(selections@[i].position, row_layouts@[i]),
        ensures
            (final(self).states(), final(self).active()) == (if frame_context.settings.active() {
                hidden_synced(
                    old(self).states(),
                    old(self).active(),
                    selections@,
                    row_layouts@,
                    *viewport,
                    frame_context,
                )
            } else {
                (old(self).states(), old(self).active())
            }),
    {
        if !frame_context.is_active() {
            return;
        }
        let ghost states0 = self.states();
        let ghost active0 = self.active();
        let mut i: usize = 0;
        while i < selections.len()
            invariant
                i <= selections@.len(),
                row_layouts@.len() == selections@.len(),
                forall|j: int|
                    0 <= j < selections@.len() && !viewport.shows(#[trigger] selections@[j].position)
                        ==> viewport.origin_fits(selections@[j].position, row_layouts@[j]),
                (self.states(), self.active()) == hidden_synced(
                    states0,
                    active0,
                    selections@.take(i as int),
                    row_layouts@,
                    *viewport,
                    frame_context,
                ),
            decreases selections@.len() - i,
        {
            let selection = selections[i];
            assert(selections@.take(i + 1).drop_last() =~= selections@.take(i as int));
            assert(selections@.take(i + 1).last() == selection);
            if !viewport.is_visible(selection.position) {
                let origin = viewport.origin_for_display_point(selection.position, row_layouts[i]);
                self.sync_hidden(selection.key, selection.position, origin, frame_context);
            }
            i += 1;
        }
        assert(selections@.take(selections@.len() as int) =~= selections@);
    }

    /// What `sync_hidden_selections` does, where its inputs suit it: animation is off, or
    /// there is a row layout for each selection and every off-screen cursor's place can be
    /// stored. Otherwise it changes nothing, and says so by returning `false`.
    pub fn try_sync_hidden_selections(
        &mut self,
        selections: &Vec<CursorAnimationSelection>,
        viewport: &CursorAnimationViewport,
        row_layouts: &Vec<RowLayout>,
        frame_context: CursorAnimationFrameContext,
    ) -> (synced: bool)
        ensures
            synced == (!frame_context.settings.active() || (row_layouts@.len() == selections@.len()
                && forall|i: int|
                0 <= i < selections@.len() && !viewport.shows(#[trigger] selections@[i].position)
                    ==> viewport.origin_fits(selections@[i].position, row_layouts@[i]))),
            (final(self).states(), final(self).active()) == (if synced
                && frame_context.settings.active() {
                hidden_synced(
                    old(self).states(),
                    old(self).active(),
                    selections@,
                    row_layouts@,
                    *viewport,
                    frame_context,
                )
            } else {
                (old(self).states(), old(self).active())
            }),
    {
        if !frame_context.is_active() {
            return true;
        }
        if row_layouts.len() != selections.len() {
            return false;
        }
        let mut i: usize = 0;
        while i < selections.len()
            invariant
                frame_context.settings.active(),
                i <= selections@.len(),
                row_layouts@.len() == selections@.len(),
                forall|j: int|
                    0 <= j < i && !viewport.shows(#[trigger] selections@[j].position)
                        ==> viewport.origin_fits(selections@[j].position, row_layouts@[j]),
            decreases selections@.len() - i,
        {
            let position = selections[i].position;
            if !viewport.is_visible(position) && !viewport.origin_fits_check(position, row_layouts[i]) {
                assert(!viewport.shows(selections@[i as int].position));
                return false;
            }
            i += 1;
        }
        self.sync_hidden_selections(selections, viewport, row_layouts, frame_context);
        true
    }

    /// Closes the frame: where animation is in effect, forgets the animations of cursors
    /// not seen in the frame; where it is not, forgets every animation. No cursor counts as
    /// seen afterwards.
    pub fn finish_frame(&mut self, frame_context: CursorAnimationFrameContext)
        ensures
            final(self).active() == Set::<CursorAnimationKey>::empty(),
            final(self).states() == (if frame_context.settings.active() {
                old(self).states().restrict(old(self).active())
            } else {
                Map::<CursorAnimationKey, CursorAnimationState>::empty()
            }),
    {
        if frame_context.is_active() {
            self.states = kept_states(&self.states, &self.active_keys);
            assert(self.states() =~= old(self).states().restrict(old(self).active()));
        } else {
            self.states.clear();
            assert(self.states() =~= Map::<CursorAnimationKey, CursorAnimationState>::empty());
        }
        self.active_keys.clear();
        assert(self.active() =~= Set::<CursorAnimationKey>::empty());
    }
}

/// The numbers among the first `n` of `items`.
pub open spec fn codes_seen(items: Seq<&u128>, n: int) -> Set<u128> {
    items.take(n).unref().to_set()
}

/// The animations of `states` stored under a number in `codes`.
fn kept_states(states: &HashMap<u128, CursorAnimationState>, codes: &HashSet<u128>) -> (kept:
    HashMap<u128, CursorAnimationState>)
    ensures
        kept@ == states@.restrict(codes@),
{
    let mut kept: HashMap<u128, CursorAnimationState> = HashMap::new();
    for code in it: codes.iter()
        invariant
            kept@ == states@.restrict(codes_seen(it.seq(), it.index())),
            it.seq().unref().to_set() == codes@,
            it.index() == it.seq().len() ==> kept@ == states@.restrict(codes@),
    {
        let ghost i = it.index();
        assert(it.seq()[i] == code);
        let ghost prefix = it.seq().take(i).unref();
        assert(it.seq().take(i + 1).unref() =~= prefix.push(*code));
        proof {
            prefix.lemma_push_to_set_commute(*code);
        }
        assert(codes_seen(it.seq(), i + 1) =~= codes_seen(it.seq(), i).insert(*code));
        match states.get(code) {
            Some(state) => {
                kept.insert(*code, *state);
            },
            None => {},
        }
        assert(kept@ =~= states@.restrict(codes_seen(it.seq(), i + 1)));
        assert(i + 1 == it.seq().len() ==> it.seq().take(i + 1) =~= it.seq());
    }
    kept
}

impl Default for CursorAnimationStates {
    fn default() -> (s: Self)
        ensures
            s.states() == Map::<CursorAnimationKey, CursorAnimationState>::empty(),
            s.active() == Set::<CursorAnimationKey>::empty(),
    {
        Self::new()
    }
}

} // verus!
