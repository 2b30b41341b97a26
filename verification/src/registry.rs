//! The registry of installed assets: recording an installation, erasing one,
//! and what both keep true of the list.

use crate::entities::{asset_views, Asset, AssetView, ReleaseAssets};
use vstd::prelude::*;

verus! {

/// The registry after `asset` has been recorded: unchanged where it already
/// holds an equal asset, with `asset` at its end otherwise.
pub open spec fn recorded(assets: Seq<AssetView>, asset: AssetView) -> Seq<AssetView> {
    if assets.contains(asset) {
        assets
    } else {
        assets.push(asset)
    }
}

/// The test that an entry passes when it is not `asset`.
pub open spec fn differs_from(asset: AssetView) -> spec_fn(AssetView) -> bool {
    |entry: AssetView| entry != asset
}

/// The registry after `asset` has been erased: the entries that are not
/// equal to it, in their old order.
pub open spec fn erased(assets: Seq<AssetView>, asset: AssetView) -> Seq<AssetView> {
    assets.filter(differs_from(asset))
}

impl ReleaseAssets {
    /// Records `asset` unless an equal asset is already in the list, and
    /// says whether the list grew.
    pub fn record(&mut self, asset: Asset) -> (added: bool)
        ensures
            final(self)@ == recorded(old(self)@, asset@),
            added == !old(self)@.contains(asset@),
    {
        if self.contains(&asset) {
            false
        } else {
            self.0.push(asset);
            assert(self@ =~= old(self)@.push(asset@));
            true
        }
    }

    /// The list without the assets equal to `asset`.
    pub fn without(&self, asset: &Asset) -> (rest: ReleaseAssets)
        ensures
            rest@ == erased(self@, asset@),
    {
        let mut kept: Vec<Asset> = Vec::new();
        let mut at: usize = 0;
        proof {
            reveal(Seq::filter);
            assert(self@.take(0) =~= Seq::empty());
            assert(asset_views(kept@) =~= Seq::empty());
        }
        while at < self.0.len()
            invariant
                at <= self.0.len(),
                asset_views(kept@) == erased(self@.take(at as int), asset@),
            decreases self.0.len() - at,
        {
            let ghost before = asset_views(kept@);
            proof {
                assert(self@.take(at + 1) =~= self@.take(at as int).push(self@[at as int]));
                self@.take(at as int).lemma_filter_push(self@[at as int], differs_from(asset@));
            }
            if self.0[at] != *asset {
                kept.push(self.0[at].clone());
                assert(asset_views(kept@) =~= before.push(self@[at as int]));
            }
            at = at + 1;
        }
        assert(self@.take(self.0.len() as int) =~= self@);
        ReleaseAssets(kept)
    }
}

/// Recording an asset that has just been recorded changes nothing: an
/// asset installed twice stands in the registry as often as after the
/// first time.
pub proof fn recording_twice_adds_nothing(assets: Seq<AssetView>, asset: AssetView)
    ensures
        recorded(assets, asset).contains(asset),
        recorded(recorded(assets, asset), asset) == recorded(assets, asset),
{
    if !assets.contains(asset) {
        assert(assets.push(asset)[assets.len() as int] == asset);
    }
}

/// A registry whose entries are all different stays so when an asset is
/// recorded.
pub proof fn recording_keeps_entries_distinct(assets: Seq<AssetView>, asset: AssetView)
    requires
        assets.no_duplicates(),
    ensures
        recorded(assets, asset).no_duplicates(),
{
}

/// Erasing an asset keeps every entry that differs from it, keeps none
/// that is equal to it, and changes the order of none.
pub proof fn erasing_keeps_the_others(assets: Seq<AssetView>, asset: AssetView)
    ensures
        !erased(assets, asset).contains(asset),
        forall|other: AssetView|
            other != asset ==> (#[trigger] erased(assets, asset).contains(other)
                <==> assets.contains(other)),
        !assets.contains(asset) ==> erased(assets, asset) == assets,
    decreases assets.len(),
{
    reveal(Seq::filter);
    if assets.len() > 0 {
        let front = assets.drop_last();
        let last = assets.last();
        erasing_keeps_the_others(front, asset);
        assert(assets =~= front.push(last));
        front.lemma_filter_push(last, differs_from(asset));
        let kept = erased(assets, asset);
        assert forall|other: AssetView| other != asset implies (#[trigger] kept.contains(other)
            <==> assets.contains(other)) by {
            if kept.contains(other) {
                let k = choose|k: int| 0 <= k < kept.len() && kept[k] == other;
                if last != asset && k == kept.len() - 1 {
                    assert(assets[assets.len() - 1] == other);
                } else {
                    assert(erased(front, asset)[k] == other);
                    assert(erased(front, asset).contains(other));
                    let j = choose|j: int| 0 <= j < front.len() && front[j] == other;
                    assert(assets[j] == other);
                }
            }
            if assets.contains(other) {
                let j = choose|j: int| 0 <= j < assets.len() && assets[j] == other;
                if j == assets.len() - 1 {
                    assert(kept[kept.len() - 1] == other);
                } else {
                    assert(front[j] == other);
                    assert(front.contains(other));
                    assert(erased(front, asset).contains(other));
                    let k = choose|k: int|
                        0 <= k < erased(front, asset).len() && erased(front, asset)[k] == other;
                    assert(kept[k] == other);
                }
            }
        }
        if !assets.contains(asset) {
            assert(!front.contains(asset)) by {
                if front.contains(asset) {
                    let j = choose|j: int| 0 <= j < front.len() && front[j] == asset;
                    assert(assets[j] == asset);
                }
            }
            assert(last != asset) by {
                if last == asset {
                    assert(assets[assets.len() - 1] == asset);
                }
            }
        }
        if kept.contains(asset) {
            let k = choose|k: int| 0 <= k < kept.len() && kept[k] == asset;
            if last != asset && k == kept.len() - 1 {
            } else {
                assert(erased(front, asset)[k] == asset);
                assert(erased(front, asset).contains(asset));
            }
        }
    }
}

/// In a registry whose entries are all different, erasing the entry at
/// `at` removes that one entry and leaves every other entry where it was
/// in relation to the rest.
pub proof fn erasing_removes_exactly_one_entry(assets: Seq<AssetView>, at: int)
    requires
        assets.no_duplicates(),
        0 <= at < assets.len(),
    ensures
        erased(assets, assets[at]) == assets.remove(at),
    decreases assets.len(),
{
    reveal(Seq::filter);
    let asset = assets[at];
    let front = assets.drop_last();
    let last = assets.last();
    assert(assets =~= front.push(last));
    front.lemma_filter_push(last, differs_from(asset));
    if at == assets.len() - 1 {
        assert(!front.contains(asset)) by {
            if front.contains(asset) {
                let j = choose|j: int| 0 <= j < front.len() && front[j] == asset;
                assert(assets[j] == assets[at]);
            }
        }
        erasing_keeps_the_others(front, asset);
        assert(assets.remove(at) =~= front);
    } else {
        assert(front[at] == asset);
        assert(front.no_duplicates());
        erasing_removes_exactly_one_entry(front, at);
        assert(last != asset);
        assert(assets.remove(at) =~= front.remove(at).push(last));
    }
}

/// A registry whose entries are all different stays so when an asset is
/// erased.
pub proof fn erasing_keeps_entries_distinct(assets: Seq<AssetView>, asset: AssetView)
    requires
        assets.no_duplicates(),
    ensures
        erased(assets, asset).no_duplicates(),
{
    erasing_keeps_the_others(assets, asset);
    if assets.contains(asset) {
        let at = choose|at: int| 0 <= at < assets.len() && assets[at] == asset;
        erasing_removes_exactly_one_entry(assets, at);
        assets.remove_ensures(at);
        let rest = assets.remove(at);
        assert forall|i: int, j: int|
            0 <= i < rest.len() && 0 <= j < rest.len() && i != j implies rest[i] != rest[j] by {
            let from_i = if i < at { i } else { i + 1 };
            let from_j = if j < at { j } else { j + 1 };
            assert(rest[i] == assets[from_i]);
            assert(rest[j] == assets[from_j]);
        }
    }
}

} // verus!
