//! Asset handles: an asset is loading until it is published or fails, and stays
//! as it then is.

use crate::tag::{tag_is_none, NO_TAG};
use vstd::prelude::*;

verus! {

/// The state of an asset.
#[derive(Debug)]
pub enum AssetState<T> {
    Loading,
    Ready(T),
    Failed(String),
}

/// An asset under a tag, with the number of its holders.
#[derive(Debug)]
pub struct UntypedHandle<T> {
    pub state: AssetState<T>,
    pub references: usize,
    pub tag: u32,
}

impl<T> UntypedHandle<T> {
    /// The handle after an asset was published.
    pub open spec fn updated(self, asset: T) -> Self {
        if self.state is Loading {
            UntypedHandle { state: AssetState::Ready(asset), ..self }
        } else {
            self
        }
    }

    /// The handle after a failure was recorded.
    pub open spec fn failed_with(self, error: String) -> Self {
        if self.state is Loading {
            UntypedHandle { state: AssetState::Failed(error), ..self }
        } else {
            self
        }
    }

    /// An asset that is being loaded, with one holder.
    pub fn new(tag: u32) -> (handle: Self)
        ensures
            handle == (UntypedHandle { state: AssetState::<T>::Loading, references: 1, tag }),
    {
        UntypedHandle { state: AssetState::Loading, references: 1, tag }
    }

    /// The asset is no longer being loaded, whether it is there or failed.
    pub fn is_loaded(&self) -> (loaded: bool)
        ensures
            loaded == !(self.state is Loading),
    {
        match self.state {
            AssetState::Loading => false,
            _ => true,
        }
    }

    /// Publish the asset. An asset that was published or failed stays as it is.
    pub fn update(&mut self, asset: T)
        ensures
            *final(self) == old(self).updated(asset),
    {
        if !self.is_loaded() {
            self.state = AssetState::Ready(asset);
        }
    }

    /// Record that the asset cannot be loaded. An asset that was published or
    /// failed stays as it is.
    pub fn fail(&mut self, error: String)
        ensures
            *final(self) == old(self).failed_with(error),
    {
        if !self.is_loaded() {
            self.state = AssetState::Failed(error);
        }
    }

    /// Why the asset failed, if it did.
    pub fn failure(&self) -> (error: Option<&String>)
        ensures
            match self.state {
                AssetState::Failed(message) => error == Some(&message),
                _ => error is None,
            },
    {
        match &self.state {
            AssetState::Failed(message) => Some(message),
            _ => None,
        }
    }

    /// The asset, if it was published.
    pub fn get(&self) -> (asset: Option<&T>)
        ensures
            match self.state {
                AssetState::Ready(data) => asset == Some(&data),
                _ => asset is None,
            },
    {
        match &self.state {
            AssetState::Ready(data) => Some(data),
            _ => None,
        }
    }

    /// How many hold the asset.
    pub fn ref_count(&self) -> (count: usize)
        ensures
            count == self.references,
    {
        self.references
    }

    /// One more holds the asset.
    pub fn acquire(&mut self)
        requires
            old(self).references < usize::MAX,
        ensures
            *final(self) == (UntypedHandle {
                references: (old(self).references + 1) as usize,
                ..*old(self)
            }),
    {
        self.references = self.references + 1;
    }

    /// One fewer holds the asset.
    pub fn release(&mut self)
        requires
            old(self).references > 0,
        ensures
            *final(self) == (UntypedHandle {
                references: (old(self).references - 1) as usize,
                ..*old(self)
            }),
    {
        self.references = self.references - 1;
    }
}

/// The first outcome stays: once an asset was published or failed, no later
/// publication or failure changes it.
pub proof fn law_the_first_outcome_stays<T>(
    handle: UntypedHandle<T>,
    first: T,
    second: T,
    error: String,
    other_error: String,
)
    ensures
        handle.updated(first).updated(second) == handle.updated(first),
        handle.updated(first).failed_with(error) == handle.updated(first),
        handle.failed_with(error).updated(first) == handle.failed_with(error),
        handle.failed_with(error).failed_with(other_error) == handle.failed_with(error),
        handle.state is Loading ==> handle.updated(first).state == AssetState::Ready(first),
        handle.state is Loading ==> handle.failed_with(error).state == AssetState::<T>::Failed(
            error,
        ),
{
}

/// A typed handle. A handle without a tag is null.
#[derive(Debug)]
pub struct Handle<T> {
    pub asset: UntypedHandle<T>,
}

impl<T> Handle<T> {
    /// The handle is null, or its asset is no longer being loaded.
    pub fn is_loaded(&self) -> (loaded: bool)
        ensures
            loaded == (self.asset.tag == NO_TAG || !(self.asset.state is Loading)),
    {
        self.is_null() || self.asset.is_loaded()
    }

    pub fn is_null(&self) -> (null: bool)
        ensures
            null == (self.asset.tag == NO_TAG),
    {
        tag_is_none(self.asset.tag)
    }

    pub fn hash(&self) -> (tag: u32)
        ensures
            tag == self.asset.tag,
    {
        self.asset.tag
    }

    /// The asset, if it was published.
    pub fn get(&self) -> (asset: Option<&T>)
        ensures
            match self.asset.state {
                AssetState::Ready(data) => asset == Some(&data),
                _ => asset is None,
            },
    {
        self.asset.get()
    }

    pub fn update(&mut self, asset: T)
        ensures
            final(self).asset == old(self).asset.updated(asset),
    {
        self.asset.update(asset);
    }

    pub fn failure(&self) -> (error: Option<&String>)
        ensures
            match self.asset.state {
                AssetState::Failed(message) => error == Some(&message),
                _ => error is None,
            },
    {
        self.asset.failure()
    }

    pub fn ref_count(&self) -> (count: usize)
        ensures
            count == self.asset.references,
    {
        self.asset.ref_count()
    }
}

/// A null handle.
pub fn null_handle<T>() -> (handle: Handle<T>)
    ensures
        handle.asset == (UntypedHandle {
            state: AssetState::<T>::Loading,
            references: 1,
            tag: NO_TAG,
        }),
{
    Handle { asset: UntypedHandle::new(NO_TAG) }
}

/// What is known of a published technique.
#[derive(Clone, Copy, Debug, PartialEq, Eq, Structural)]
pub struct TechniqueStatus {
    /// All that the technique needs is loaded.
    pub loaded: bool,
}

/// A technique can be drawn with: its handle is null, or it was published and
/// all that it needs is loaded.
pub fn is_technique_loaded(handle: &Handle<TechniqueStatus>) -> (loaded: bool)
    ensures
        loaded == (handle.asset.tag == NO_TAG || (handle.asset.state matches AssetState::Ready(
            technique,
        ) && technique.loaded)),
{
    if handle.is_null() {
        return true;
    }
    match handle.get() {
        Some(technique) => technique.loaded,
        None => false,
    }
}

} // verus!
