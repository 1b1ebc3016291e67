//! Asset-loading bookkeeping: which assets to fetch, and when the loading
//! state is allowed to move on.

use vstd::prelude::*;

verus! {

use crate::app::AppState;

/// Registration marker for the loading passes.
#[derive(Debug)]
pub struct LoadingPlugin;

/// The assets to fetch on startup: `(key, path)` pairs for images and for
/// audio clips. The keys are how the rest of the configuration refers to
/// loaded assets.
#[derive(Debug, Clone)]
pub struct AssetsConfig {
    pub images: Vec<(String, String)>,
    pub audio: Vec<(String, String)>,
}

/// The loading state of one tracked asset, as the asset collaborator
/// reports it.
#[derive(Debug, Clone, Copy, PartialEq, Eq, Structural)]
pub enum AssetLoadState {
    Loading,
    Loaded,
    Failed,
}

/// How many of the tracked assets have finished loading.
pub open spec fn loaded_count(states: Seq<AssetLoadState>) -> int
    decreases states.len(),
{
    if states.len() == 0 {
        0
    } else {
        loaded_count(states.drop_last()) + if states.last() == AssetLoadState::Loaded {
            1int
        } else {
            0int
        }
    }
}

/// One step of the loading watcher: count the assets that are in, and move
/// on to the splash screen once all of them are. A failed asset is a fatal
/// configuration error and is handled at the loading boundary, so it never
/// reaches this decision.
pub fn system_loading_update(states: &Vec<AssetLoadState>)
    -> (out: (usize, Option<AppState>))
    requires
        forall|i: int| 0 <= i < states@.len()
            ==> #[trigger] states@[i] != AssetLoadState::Failed,
    ensures
        out.0 == loaded_count(states@),
        out.1 == Some(AppState::Splash) <==> loaded_count(states@) == states@.len(),
        out.1 is None <==> loaded_count(states@) < states@.len(),
{
    let mut loaded: usize = 0;
    for i in 0..states.len()
        invariant
            loaded == loaded_count(states@.take(i as int)),
            loaded <= i,
    {
        if matches!(states[i], AssetLoadState::Loaded) {
            loaded = loaded + 1;
        }
        proof {
            assert(states@.take(i + 1).drop_last() =~= states@.take(i as int));
        }
    }
    proof {
        assert(states@.take(states@.len() as int) =~= states@);
        lemma_loaded_count_bound(states@);
    }
    if loaded == states.len() {
        (loaded, Some(AppState::Splash))
    } else {
        (loaded, None)
    }
}

/// The loaded count never exceeds the number of tracked assets.
proof fn lemma_loaded_count_bound(states: Seq<AssetLoadState>)
    ensures
        0 <= loaded_count(states) <= states.len(),
    decreases states.len(),
{
    if states.len() > 0 {
        lemma_loaded_count_bound(states.drop_last());
    }
}

} // verus!
