//! Geocoding of a place name into coordinates.
use vstd::prelude::*;

verus! {

/// Why a place could not be located.
#[derive(Debug, Clone, Copy, PartialEq, Eq, Structural)]
pub enum Error {
    /// The geocoding service could not be reached.
    Request,
    /// Its answer could not be read.
    Geo,
    /// It knows no such place.
    NotFound,
}

/// The place that a geocoding answer names: its first feature; `NotFound`
/// where it has none.
pub fn first_feature<T: Copy>(features: &Vec<T>) -> (r: Result<T, Error>)
    ensures
        features@.len() == 0 ==> r == Err::<T, Error>(Error::NotFound),
        features@.len() > 0 ==> r == Ok::<T, Error>(features@[0]),
{
    if features.len() == 0 {
        Err(Error::NotFound)
    } else {
        Ok(features[0])
    }
}

} // verus!
