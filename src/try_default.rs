use vstd::prelude::*;

use crate::DefaultNotFound;

verus! {

/// The query for a type's canonical default value, answering with a `Result`.
///
/// Every type that has the `Option` form of the query, [`crate::TryDefault`],
/// gets this form from the blanket implementation below, which turns
/// `Some(v)` into `Ok(v)` and `None` into `Err(DefaultNotFound)`:
///
/// ```
///     use ::try_default::try_default::TryDefault;
///
///     struct Handle(u32);
///
///     impl ::try_default::TryDefault<Handle> for Handle {
///         fn try_default() -> Option<Handle> {
///             None
///         }
///     }
///
///     // Set to `Ok(0)`.
///     let default_num = <u32>::try_default();
///
///     // Set to `Err(DefaultNotFound)`, as `Handle` has no `Default`.
///     let default_handle = <Handle>::try_default();
/// ```
pub trait TryDefault<V: crate::TryDefault<V>> {
    /// If `V` has a default, this returns `Ok` of it; otherwise
    /// `Err(DefaultNotFound)`.
    fn try_default() -> (r: Result<V, DefaultNotFound>)
        ensures
            <V as crate::TryDefault<V>>::has_default() <==> r is Ok,
            r matches Ok(v) ==> <V as crate::TryDefault<V>>::is_default_value(v),
            r is Err ==> r == Err::<V, DefaultNotFound>(DefaultNotFound),
    ;
}

/// Both forms of the query agree: the `Result` form is the `Option` form with
/// `None` read as `Err(DefaultNotFound)`.
impl<V: crate::TryDefault<V>> TryDefault<V> for V {
    fn try_default() -> (r: Result<V, DefaultNotFound>) {
        match <V as crate::TryDefault<V>>::try_default() {
            Some(v) => Ok(v),
            None => Err(DefaultNotFound),
        }
    }
}

} // verus!
