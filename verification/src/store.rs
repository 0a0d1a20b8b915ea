//! The template store: a read-only table from logical paths to raw file
//! contents.

use crate::materializer::{ErrorKind, MaterializeError, Stage};
use crate::text::{copy_bytes, same_text};
use vstd::prelude::*;

verus! {

/// One template: the path it is known by and its raw contents.
#[derive(Clone, Debug)]
pub struct TemplateAsset {
    pub logical_path: String,
    pub raw_bytes: Vec<u8>,
}

/// A template, its path and its contents as sequences.
pub struct TemplateAssetView {
    pub logical_path: Seq<char>,
    pub raw_bytes: Seq<u8>,
}

impl View for TemplateAsset {
    type V = TemplateAssetView;

    open spec fn view(&self) -> TemplateAssetView {
        TemplateAssetView { logical_path: self.logical_path@, raw_bytes: self.raw_bytes@ }
    }
}

/// The assets of a list as their views.
pub open spec fn asset_views(assets: Seq<TemplateAsset>) -> Seq<TemplateAssetView> {
    assets.map_values(|asset: TemplateAsset| asset@)
}

/// The store holds no asset under the path asked for.
#[derive(Clone, Copy, Debug, PartialEq, Eq, Structural)]
pub struct AssetNotFound;

/// A table of templates. An asset is known by its logical path; where two
/// share a path, the first one answers for it.
#[derive(Clone, Debug)]
pub struct TemplateStore {
    pub assets: Vec<TemplateAsset>,
}

impl View for TemplateStore {
    type V = Seq<TemplateAssetView>;

    open spec fn view(&self) -> Seq<TemplateAssetView> {
        asset_views(self.assets@)
    }
}

/// The index of the first of `assets` with the path `logical_path`.
pub open spec fn is_first_with_path(
    assets: Seq<TemplateAssetView>,
    logical_path: Seq<char>,
    index: int,
) -> bool {
    &&& 0 <= index < assets.len()
    &&& assets[index].logical_path == logical_path
    &&& forall|earlier: int|
        0 <= earlier < index ==> (#[trigger] assets[earlier]).logical_path != logical_path
}

/// Some asset of `assets` has the path `logical_path`.
pub open spec fn holds_path(assets: Seq<TemplateAssetView>, logical_path: Seq<char>) -> bool {
    exists|index: int|
        0 <= index < assets.len() && (#[trigger] assets[index]).logical_path == logical_path
}

/// `asset` is a copy of the asset that answers for `logical_path` among
/// `assets`.
pub open spec fn is_copy_from(
    assets: Seq<TemplateAssetView>,
    logical_path: Seq<char>,
    asset: TemplateAssetView,
) -> bool {
    exists|index: int|
        {
            &&& #[trigger] is_first_with_path(assets, logical_path, index)
            &&& asset.logical_path == logical_path
            &&& asset.raw_bytes == assets[index].raw_bytes
        }
}

impl TemplateStore {
    /// The store of the given assets.
    pub fn new(assets: Vec<TemplateAsset>) -> (store: TemplateStore)
        ensures
            store.assets == assets,
            store@ == asset_views(assets@),
    {
        TemplateStore { assets }
    }

    /// The logical paths of all assets, in the store's order.
    pub fn list(&self) -> (paths: Vec<String>)
        ensures
            paths@.len() == self@.len(),
            forall|i: int| 0 <= i < paths@.len() ==> (#[trigger] paths@[i])@ == self@[i].logical_path,
    {
        let mut paths: Vec<String> = Vec::new();
        let mut i: usize = 0;
        while i < self.assets.len()
            invariant
                i <= self.assets.len(),
                paths@.len() == i,
                forall|j: int| 0 <= j < i ==> (#[trigger] paths@[j])@ == self@[j].logical_path,
            decreases self.assets.len() - i,
        {
            paths.push(self.assets[i].logical_path.clone());
            i += 1;
        }
        paths
    }

    /// Where the asset with the path `logical_path` stands in the store.
    pub fn position(&self, logical_path: &str) -> (found: Result<usize, AssetNotFound>)
        ensures
            match found {
                Ok(index) => is_first_with_path(self@, logical_path@, index as int),
                Err(_) => !holds_path(self@, logical_path@),
            },
    {
        let mut i: usize = 0;
        while i < self.assets.len()
            invariant
                i <= self.assets.len(),
                forall|earlier: int|
                    0 <= earlier < i ==> (#[trigger] self@[earlier]).logical_path != logical_path@,
            decreases self.assets.len() - i,
        {
            if same_text(self.assets[i].logical_path.as_str(), logical_path) {
                return Ok(i);
            }
            i += 1;
        }
        Err(AssetNotFound)
    }

    /// The assets with the paths `paths`, in the order of `paths`. Where the
    /// store lacks one of them, the failure names the first that it lacks.
    pub fn fetch(&self, paths: &Vec<String>) -> (result: Result<Vec<TemplateAsset>, MaterializeError>)
        ensures
            match result {
                Ok(assets) => {
                    &&& assets@.len() == paths@.len()
                    &&& forall|i: int|
                        0 <= i < paths@.len() ==> is_copy_from(
                            self@,
                            paths@[i]@,
                            (#[trigger] assets@[i])@,
                        )
                },
                Err(error) => {
                    &&& error.kind == ErrorKind::AssetNotFound
                    &&& error.stage == Stage::Asset
                    &&& error.index < paths@.len()
                    &&& error.path@ == paths@[error.index as int]@
                    &&& !holds_path(self@, error.path@)
                    &&& forall|earlier: int|
                        0 <= earlier < error.index ==> holds_path(
                            self@,
                            (#[trigger] paths@[earlier])@,
                        )
                },
            },
    {
        let mut assets: Vec<TemplateAsset> = Vec::new();
        let mut i: usize = 0;
        while i < paths.len()
            invariant
                i <= paths.len(),
                assets@.len() == i,
                forall|j: int|
                    0 <= j < i ==> is_copy_from(self@, paths@[j]@, (#[trigger] assets@[j])@),
                forall|earlier: int|
                    0 <= earlier < i ==> holds_path(self@, (#[trigger] paths@[earlier])@),
            decreases paths.len() - i,
        {
            match self.position(paths[i].as_str()) {
                Ok(index) => {
                    let ghost before = assets@;
                    assets.push(
                        TemplateAsset {
                            logical_path: paths[i].clone(),
                            raw_bytes: copy_bytes(&self.assets[index].raw_bytes),
                        },
                    );
                    assert(forall|j: int| 0 <= j < i ==> assets@[j] == before[j]);
                    assert(is_first_with_path(self@, paths@[i as int]@, index as int));
                },
                Err(_) => {
                    return Err(
                        MaterializeError {
                            kind: ErrorKind::AssetNotFound,
                            stage: Stage::Asset,
                            index: i,
                            path: paths[i].clone(),
                        },
                    );
                },
            }
            i += 1;
        }
        Ok(assets)
    }

    /// The raw contents of the asset with the path `logical_path`.
    pub fn get(&self, logical_path: &str) -> (found: Result<&Vec<u8>, AssetNotFound>)
        ensures
            match found {
                Ok(raw_bytes) => exists|index: int|
                    is_first_with_path(self@, logical_path@, index) && raw_bytes@
                        == self@[index].raw_bytes,
                Err(_) => !holds_path(self@, logical_path@),
            },
    {
        match self.position(logical_path) {
            Ok(index) => Ok(&self.assets[index].raw_bytes),
            Err(error) => Err(error),
        }
    }
}

} // verus!
