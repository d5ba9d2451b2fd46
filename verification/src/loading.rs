use vstd::prelude::*;

use crate::states::{AppState, ChapterState, GameState};

verus! {

/// The number of `true` in a sequence.
pub open spec fn count_true(s: Seq<bool>) -> nat
    decreases s.len(),
{
    if s.len() == 0 {
        0
    } else {
        count_true(s.drop_last()) + if s.last() { 1nat } else { 0nat }
    }
}

proof fn lemma_count_true_bounded(s: Seq<bool>)
    ensures
        count_true(s) <= s.len(),
    decreases s.len(),
{
    if s.len() > 0 {
        lemma_count_true_bounded(s.drop_last());
    }
}

/// The assets a chapter waits for, how many of them had loaded when last counted, and whether
/// the render pipelines are ready.
#[derive(Debug)]
pub struct LoadingData<H> {
    pub assets: Vec<H>,
    pub loaded_assets_count: usize,
    pub pipelines_ready: bool,
}

impl<H> Default for LoadingData<H> {
    /// Nothing to wait for, and pipelines not known to be ready.
    fn default() -> (d: Self)
        ensures
            d.assets@.len() == 0,
            d.loaded_assets_count == 0,
            !d.pipelines_ready,
    {
        LoadingData { assets: Vec::new(), loaded_assets_count: 0, pipelines_ready: false }
    }
}

/// Whether the pipelines are checked in this combination of states: the game is loading
/// before any chapter is set.
pub open spec fn pipelines_checked(app: AppState, game: GameState, chapter: ChapterState) -> bool {
    app == AppState::Game && game == GameState::Loading && chapter == ChapterState::Unloaded
}

impl<H> LoadingData<H> {
    /// Adds an asset to wait for.
    pub fn track(&mut self, asset: H)
        ensures
            final(self).assets@ == old(self).assets@.push(asset),
            final(self).loaded_assets_count == old(self).loaded_assets_count,
            final(self).pipelines_ready == old(self).pipelines_ready,
    {
        self.assets.push(asset);
    }

    /// One check of the loading screen, given for each asset, in order, whether it has loaded
    /// with all its dependencies. Returns whether loading is over: every asset counted as
    /// loaded and the pipelines ready. Otherwise, while assets are missing, they are counted
    /// again.
    pub fn update(&mut self, loaded: &Vec<bool>) -> (finished: bool)
        requires
            loaded@.len() == old(self).assets@.len(),
        ensures
            finished <==> (old(self).loaded_assets_count == old(self).assets@.len()
                && old(self).pipelines_ready),
            final(self).assets@ == old(self).assets@,
            final(self).pipelines_ready == old(self).pipelines_ready,
            final(self).loaded_assets_count == (if !finished && old(self).loaded_assets_count
                < old(self).assets@.len() {
                count_true(loaded@)
            } else {
                old(self).loaded_assets_count as nat
            }),
            old(self).loaded_assets_count <= old(self).assets@.len()
                ==> final(self).loaded_assets_count <= final(self).assets@.len(),
    {
        if self.loaded_assets_count == self.assets.len() && self.pipelines_ready {
            return true;
        }
        if self.loaded_assets_count < self.assets.len() {
            let mut count: usize = 0;
            let mut i: usize = 0;
            while i < loaded.len()
                invariant
                    i <= loaded@.len(),
                    count == count_true(loaded@.take(i as int)),
                    count <= i,
                decreases loaded.len() - i,
            {
                assert(loaded@.take(i + 1).drop_last() =~= loaded@.take(i as int));
                if loaded[i] {
                    count += 1;
                }
                i += 1;
            }
            assert(loaded@.take(loaded@.len() as int) =~= loaded@);
            proof {
                lemma_count_true_bounded(loaded@);
            }
            self.loaded_assets_count = count;
        }
        false
    }

    /// Records whether the render pipelines are ready, given how many are still being
    /// compiled; it is recorded only while the game loads before any chapter is set.
    pub fn update_pipelines_ready(
        &mut self,
        app: AppState,
        game: GameState,
        chapter: ChapterState,
        waiting_pipelines: usize,
    )
        ensures
            final(self).assets@ == old(self).assets@,
            final(self).loaded_assets_count == old(self).loaded_assets_count,
            final(self).pipelines_ready == (if pipelines_checked(app, game, chapter) {
                waiting_pipelines == 0
            } else {
                old(self).pipelines_ready
            }),
            !(app == AppState::Game && game == GameState::Loading && chapter == ChapterState::Unloaded)
                ==> final(self).pipelines_ready == old(self).pipelines_ready,
            app == AppState::Game && game == GameState::Loading && chapter == ChapterState::Unloaded
                ==> (final(self).pipelines_ready <==> waiting_pipelines == 0),
    {
        if !app.is_game() || !game.is_loading() || !chapter.is_none() {
            return;
        }
        self.pipelines_ready = waiting_pipelines == 0;
    }
}

/// The count of loaded assets never exceeds the number of assets, and it reaches that number
/// exactly when every asset has loaded.
pub proof fn lemma_loaded_count_exact(loaded: Seq<bool>)
    ensures
        count_true(loaded) <= loaded.len(),
        count_true(loaded) == loaded.len() <==> forall|i: int| 0 <= i < loaded.len() ==> loaded[i],
    decreases loaded.len(),
{
    lemma_count_true_bounded(loaded);
    if loaded.len() > 0 {
        lemma_loaded_count_exact(loaded.drop_last());
        if count_true(loaded) == loaded.len() {
            assert forall|i: int| 0 <= i < loaded.len() implies loaded[i] by {
                lemma_count_true_bounded(loaded.drop_last());
                if i < loaded.len() - 1 {
                    assert(loaded.drop_last()[i] == loaded[i]);
                }
            }
        }
        if forall|i: int| 0 <= i < loaded.len() ==> loaded[i] {
            assert forall|i: int| 0 <= i < loaded.drop_last().len() implies loaded.drop_last()[i] by {
                assert(loaded[i]);
            }
            assert(loaded[loaded.len() - 1]);
        }
    }
}


/// The pipelines are checked only while the application is in the game, the game is loading
/// and no chapter is set: in the menu, the splash screen, or any other game or chapter state,
/// what was recorded stays as it was.
pub proof fn lemma_pipelines_checked_only_while_game_loads(
    app: AppState,
    game: GameState,
    chapter: ChapterState,
)
    ensures
        app != AppState::Game ==> !pipelines_checked(app, game, chapter),
        game != GameState::Loading ==> !pipelines_checked(app, game, chapter),
        chapter != ChapterState::Unloaded ==> !pipelines_checked(app, game, chapter),
        pipelines_checked(AppState::Game, GameState::Loading, ChapterState::Unloaded),
{
}

} // verus!
