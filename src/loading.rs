//! The loading controller: requests the player and monster descriptions,
//! places one entity per request at once, and hands over to gameplay when
//! every request has been resolved.
use vstd::prelude::*;

use crate::gameplay::{GamePlayState, Trans};
use crate::registry::{EntityData, EntityId, PrefabHandle, Registry};

verus! {

/// Tracks outstanding load requests. Loading is complete when no request is
/// outstanding and none has failed.
#[derive(Clone, Copy, Debug, PartialEq, Eq, Structural)]
pub struct ProgressCounter {
    /// Requests registered so far.
    pub num_assets: u64,
    /// Requests not yet resolved.
    pub num_loading: u64,
    /// Requests that failed.
    pub num_failed: u64,
}

impl ProgressCounter {
    pub open spec fn wf(&self) -> bool {
        self.num_loading + self.num_failed <= self.num_assets
    }

    /// Requests resolved successfully.
    pub open spec fn spec_num_finished(&self) -> int {
        self.num_assets - self.num_loading - self.num_failed
    }

    pub open spec fn spec_is_complete(&self) -> bool {
        self.num_loading == 0 && self.num_failed == 0
    }

    /// The counter once one outstanding request resolved successfully.
    pub open spec fn after_finish(self) -> ProgressCounter {
        if self.num_loading > 0 {
            ProgressCounter { num_loading: (self.num_loading - 1) as u64, ..self }
        } else {
            self
        }
    }

    /// The counter once one outstanding request failed.
    pub open spec fn after_failure(self) -> ProgressCounter {
        if self.num_loading > 0 {
            ProgressCounter {
                num_loading: (self.num_loading - 1) as u64,
                num_failed: (self.num_failed + 1) as u64,
                ..self
            }
        } else {
            self
        }
    }

    pub fn new() -> (r: ProgressCounter)
        ensures
            r == (ProgressCounter { num_assets: 0, num_loading: 0, num_failed: 0 }),
    {
        ProgressCounter { num_assets: 0, num_loading: 0, num_failed: 0 }
    }

    /// Registers one more request; returns its number, counting from zero.
    pub fn register(&mut self) -> (r: u64)
        requires
            old(self).wf(),
            old(self).num_assets < u64::MAX,
        ensures
            r == old(self).num_assets,
            *final(self) == (ProgressCounter {
                num_assets: (old(self).num_assets + 1) as u64,
                num_loading: (old(self).num_loading + 1) as u64,
                ..*old(self)
            }),
            final(self).wf(),
    {
        let r = self.num_assets;
        self.num_assets = self.num_assets + 1;
        self.num_loading = self.num_loading + 1;
        r
    }

    /// One outstanding request resolved; with none outstanding nothing changes.
    pub fn finish_one(&mut self)
        requires
            old(self).wf(),
        ensures
            *final(self) == old(self).after_finish(),
            final(self).wf(),
    {
        if self.num_loading > 0 {
            self.num_loading = self.num_loading - 1;
        }
    }

    /// One outstanding request failed; with none outstanding nothing changes.
    pub fn fail_one(&mut self)
        requires
            old(self).wf(),
        ensures
            *final(self) == old(self).after_failure(),
            final(self).wf(),
    {
        if self.num_loading > 0 {
            self.num_loading = self.num_loading - 1;
            self.num_failed = self.num_failed + 1;
        }
    }

    pub fn is_complete(&self) -> (r: bool)
        ensures
            r == self.spec_is_complete(),
    {
        self.num_loading == 0 && self.num_failed == 0
    }

    pub fn num_finished(&self) -> (r: u64)
        requires
            self.wf(),
        ensures
            r == self.spec_num_finished(),
    {
        self.num_assets - self.num_loading - self.num_failed
    }
}

/// Phases of the loading controller.
#[derive(Clone, Copy, Debug, PartialEq, Eq, Structural)]
pub enum LoadingPhase {
    Idle,
    WaitingForAssets,
    /// Terminal: control was handed to gameplay.
    Complete,
}

/// The actor descriptions that loading requests, by logical name.
#[derive(Clone, Copy, Debug, PartialEq, Eq, Structural)]
pub enum ActorKind {
    Player,
    Monster,
}

impl ActorKind {
    /// The logical name under which the description is requested.
    pub fn logical_name(&self) -> (r: &'static str)
        ensures
            r@ == match self {
                ActorKind::Player => "player"@,
                ActorKind::Monster => "monster"@,
            },
    {
        match self {
            ActorKind::Player => "player",
            ActorKind::Monster => "monster",
        }
    }
}

/// A request for the host's asset loader: load the description of `kind`,
/// under `handle`, and report its outcome to the progress counter.
#[derive(Clone, Copy, Debug, PartialEq, Eq, Structural)]
pub struct LoadRequest {
    pub handle: PrefabHandle,
    pub kind: ActorKind,
}

/// Why loading cannot go on.
#[derive(Clone, Copy, Debug, PartialEq, Eq, Structural)]
pub enum LoadError {
    /// Some requests failed to resolve; `failed` counts them.
    AssetsFailed { failed: u64 },
}

/// What the loading controller observes between ticks.
#[derive(Clone, Copy, Debug, PartialEq, Eq, Structural)]
pub enum LoadEvent {
    /// One request resolved.
    Finished,
    /// One request failed.
    Failed,
    /// An update tick.
    Tick,
}

/// State of the loading controller.
pub struct LoadingState {
    pub progress_counter: ProgressCounter,
    pub avatar_prefab_handle: Option<PrefabHandle>,
    pub monster_prefab_handle: Option<PrefabHandle>,
    pub phase: LoadingPhase,
}

/// The placeholder entity placed for a requested description.
pub open spec fn placeholder(handle: PrefabHandle) -> EntityData {
    EntityData { prefab: Some(handle), ..EntityData::spec_empty() }
}

/// The state after one event, and whether that event handed over to gameplay.
pub open spec fn step(s: LoadingState, e: LoadEvent) -> (LoadingState, bool) {
    match e {
        LoadEvent::Finished => (
            LoadingState { progress_counter: s.progress_counter.after_finish(), ..s },
            false,
        ),
        LoadEvent::Failed => (
            LoadingState { progress_counter: s.progress_counter.after_failure(), ..s },
            false,
        ),
        LoadEvent::Tick => if s.phase is WaitingForAssets
            && s.progress_counter.spec_is_complete() {
            (LoadingState { phase: LoadingPhase::Complete, ..s }, true)
        } else {
            (s, false)
        },
    }
}

/// The state after a sequence of events.
pub open spec fn run(s: LoadingState, evs: Seq<LoadEvent>) -> LoadingState
    decreases evs.len(),
{
    if evs.len() == 0 {
        s
    } else {
        run(step(s, evs[0]).0, evs.drop_first())
    }
}

/// How many events of a sequence hand over to gameplay.
pub open spec fn switch_count(s: LoadingState, evs: Seq<LoadEvent>) -> nat
    decreases evs.len(),
{
    if evs.len() == 0 {
        0
    } else {
        (if step(s, evs[0]).1 { 1nat } else { 0nat }) + switch_count(
            step(s, evs[0]).0,
            evs.drop_first(),
        )
    }
}

/// Loading hands over to gameplay at most once, whatever the events; once
/// complete, never again.
pub proof fn lemma_switches_at_most_once(s: LoadingState, evs: Seq<LoadEvent>)
    ensures
        switch_count(s, evs) <= 1,
        s.phase is Complete ==> switch_count(s, evs) == 0,
    decreases evs.len(),
{
    if evs.len() > 0 {
        lemma_switches_at_most_once(step(s, evs[0]).0, evs.drop_first());
    }
}

/// Events leave the number of registered requests alone and keep the counter
/// well formed.
pub proof fn lemma_run_keeps_assets(s: LoadingState, evs: Seq<LoadEvent>)
    requires
        s.progress_counter.wf(),
    ensures
        run(s, evs).progress_counter.num_assets == s.progress_counter.num_assets,
        run(s, evs).progress_counter.wf(),
    decreases evs.len(),
{
    if evs.len() > 0 {
        lemma_run_keeps_assets(step(s, evs[0]).0, evs.drop_first());
    }
}

/// The event that hands over to gameplay comes only once every registered
/// request has resolved successfully.
pub proof fn lemma_switch_only_when_loaded(s: LoadingState, evs: Seq<LoadEvent>, i: int)
    requires
        s.progress_counter.wf(),
        0 <= i < evs.len(),
        step(run(s, evs.take(i)), evs[i]).1,
    ensures
        run(s, evs.take(i)).progress_counter.spec_num_finished()
            == s.progress_counter.num_assets,
{
    lemma_run_keeps_assets(s, evs.take(i));
}

impl LoadingState {
    pub fn new() -> (r: LoadingState)
        ensures
            r.progress_counter == (ProgressCounter { num_assets: 0, num_loading: 0, num_failed: 0 }),
            r.avatar_prefab_handle is None,
            r.monster_prefab_handle is None,
            r.phase is Idle,
    {
        LoadingState {
            progress_counter: ProgressCounter::new(),
            avatar_prefab_handle: None,
            monster_prefab_handle: None,
            phase: LoadingPhase::Idle,
        }
    }

    /// Places an entity that refers to a requested description; its
    /// components arrive once the description resolves.
    pub fn initialize_actor_prefab(&mut self, prefab_handle: &PrefabHandle, world: &mut Registry) -> (r: EntityId)
        requires
            old(world)@.len() < usize::MAX,
        ensures
            *final(self) == *old(self),
            r.index == old(world)@.len(),
            final(world)@ == old(world)@.push(Some(placeholder(*prefab_handle))),
    {
        let mut data = EntityData::empty();
        data.prefab = Some(*prefab_handle);
        world.create(data)
    }

    /// Entering loading: registers the player and monster requests, places
    /// one entity for each at once and returns the requests for the host's
    /// loader. Outside the idle phase nothing happens.
    pub fn on_start(&mut self, world: &mut Registry) -> (r: Vec<LoadRequest>)
        requires
            old(self).progress_counter.wf(),
            old(self).progress_counter.num_assets < u64::MAX - 1,
            old(world)@.len() < usize::MAX - 1,
        ensures
            !(old(self).phase is Idle) ==> r@.len() == 0 && *final(self) == *old(self)
                && final(world)@ == old(world)@,
            old(self).phase is Idle ==> {
                let n = old(self).progress_counter.num_assets;
                let player = PrefabHandle { id: n };
                let monster = PrefabHandle { id: (n + 1) as u64 };
                &&& r@ == seq![
                    LoadRequest { handle: player, kind: ActorKind::Player },
                    LoadRequest { handle: monster, kind: ActorKind::Monster },
                ]
                &&& final(self).progress_counter == (ProgressCounter {
                    num_assets: (n + 2) as u64,
                    num_loading: (old(self).progress_counter.num_loading + 2) as u64,
                    ..old(self).progress_counter
                })
                &&& final(self).avatar_prefab_handle == Some(player)
                &&& final(self).monster_prefab_handle == Some(monster)
                &&& final(self).phase is WaitingForAssets
                &&& final(world)@ == old(world)@.push(Some(placeholder(player))).push(
                    Some(placeholder(monster)),
                )
            },
            final(self).progress_counter.wf(),
    {
        let mut requests: Vec<LoadRequest> = Vec::new();
        if self.phase != LoadingPhase::Idle {
            return requests;
        }
        let player = PrefabHandle { id: self.progress_counter.register() };
        self.initialize_actor_prefab(&player, world);
        self.avatar_prefab_handle = Some(player);
        requests.push(LoadRequest { handle: player, kind: ActorKind::Player });

        let monster = PrefabHandle { id: self.progress_counter.register() };
        self.initialize_actor_prefab(&monster, world);
        self.monster_prefab_handle = Some(monster);
        requests.push(LoadRequest { handle: monster, kind: ActorKind::Monster });

        self.phase = LoadingPhase::WaitingForAssets;
        requests
    }

    /// One loading tick: while waiting, a failed request is an error; once
    /// every request resolved, loading completes and hands over to a new
    /// gameplay controller. Otherwise nothing changes.
    pub fn update(&mut self, world: &Registry) -> (r: Result<Trans, LoadError>)
        ensures
            (old(self).phase is WaitingForAssets && old(self).progress_counter.num_failed > 0)
                ==> r == Err::<Trans, LoadError>(
                LoadError::AssetsFailed { failed: old(self).progress_counter.num_failed },
            ) && *final(self) == *old(self),
            !(old(self).phase is WaitingForAssets && old(self).progress_counter.num_failed > 0)
                ==> {
                &&& *final(self) == step(*old(self), LoadEvent::Tick).0
                &&& step(*old(self), LoadEvent::Tick).1 ==> (r matches Ok(Trans::SwitchTo(g))
                    && g == GamePlayState::spec_new())
                &&& !step(*old(self), LoadEvent::Tick).1 ==> (r matches Ok(Trans::Continue))
            },
    {
        if self.phase == LoadingPhase::WaitingForAssets {
            if self.progress_counter.num_failed > 0 {
                return Err(LoadError::AssetsFailed { failed: self.progress_counter.num_failed });
            }
            if self.progress_counter.is_complete() {
                self.phase = LoadingPhase::Complete;
                return Ok(Trans::SwitchTo(GamePlayState::new(world)));
            }
        }
        Ok(Trans::Continue)
    }
}

} // verus!
