use vstd::prelude::*;

mod default_not_found;
pub mod laws;
pub mod try_default;

pub use default_not_found::DefaultNotFound;

verus! {

/// A query, available to every type that opts in, for the type's canonical
/// default value.
///
/// Every type with a `Default` implementation gets the query from the blanket
/// implementation below, which answers `Some(V::default())`. A type without a
/// default opts in with an implementation that answers `None`:
///
/// ```
///     use ::try_default::TryDefault;
///
///     struct Handle(u32);
///
///     impl TryDefault<Handle> for Handle {
///         fn try_default() -> Option<Handle> {
///             None
///         }
///     }
///
///     // Set to `Some(0)`.
///     let default_num = <u32>::try_default();
///
///     // Set to `None`, as `Handle` has no `Default`.
///     let default_handle = <Handle>::try_default();
/// ```
pub trait TryDefault<V>: Sized {
    /// Whether `V` has a canonical default value. It has none unless an
    /// implementation says otherwise.
    open spec fn has_default() -> bool {
        false
    }

    /// Whether `v` is a canonical default value of `V`. No value is one
    /// unless an implementation says otherwise.
    open spec fn is_default_value(v: V) -> bool {
        false
    }

    /// If `V` has a default, this returns `Some` of it; otherwise `None`.
    fn try_default() -> (r: Option<V>)
        ensures
            Self::has_default() <==> r is Some,
            r matches Some(v) ==> Self::is_default_value(v),
            r is None ==> forall|v: V| !Self::is_default_value(v),
    ;
}

/// A type with a `Default` implementation answers with its default. It can
/// have no other implementation of the query, so the "no default" answer is
/// never given for it.
impl<V: Default> TryDefault<V> for V {
    open spec fn has_default() -> bool {
        true
    }

    /// The canonical default is what `V::default` returns.
    open spec fn is_default_value(v: V) -> bool {
        call_ensures(V::default, (), v)
    }

    fn try_default() -> (r: Option<V>) {
        Some(V::default())
    }
}

/// The marker has no default.
impl TryDefault<DefaultNotFound> for DefaultNotFound {
    fn try_default() -> (r: Option<DefaultNotFound>) {
        None
    }
}

} // verus!
