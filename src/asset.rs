//! Assets and how their intermediate data becomes the asset.
use vstd::prelude::*;

verus! {

/// Outcome of turning an asset's data into the asset.
#[derive(Debug, Clone, PartialEq, Eq)]
pub enum ProcessingState<D, A> {
    /// The asset is complete.
    Loaded(A),
    /// More is needed first; processing is retried later with this data.
    Loading(D),
}

/// A kind of loadable resource (a mesh, a texture, a sound), and the
/// intermediate data it is built from.
pub trait Asset: Sized + Send + Sync + 'static {
    /// An identifier for this kind of asset, used for diagnostics.
    fn name() -> &'static str;

    /// The data the asset is created from.
    type Data: Send + Sync + 'static;
}

/// An asset that knows how to turn its data into itself.
pub trait ProcessableAsset: Asset {
    /// Turns `data` into the asset, or asks to be called again later.
    fn process(data: Self::Data) -> Result<ProcessingState<Self::Data, Self>, amethyst_error::Error>;
}

/// Processing of an asset that is its own data: it is complete at once.
pub fn trivial_process<A>(data: A) -> (r: Result<ProcessingState<A, A>, amethyst_error::Error>)
    ensures
        r == Ok::<ProcessingState<A, A>, amethyst_error::Error>(ProcessingState::Loaded(data)),
{
    Ok(ProcessingState::Loaded(data))
}

impl<T: Asset<Data = T>> ProcessableAsset for T {
    fn process(data: T) -> (r: Result<ProcessingState<T, T>, amethyst_error::Error>)
        ensures
            r == Ok::<ProcessingState<T, T>, amethyst_error::Error>(ProcessingState::Loaded(data)),
    {
        trivial_process(data)
    }
}

} // verus!
