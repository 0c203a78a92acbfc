use vstd::prelude::*;

use crate::DefaultNotFound;
use crate::TryDefault;

verus! {

/// Whether `V` has at most one canonical default value.
pub open spec fn default_is_unique<V: TryDefault<V>>() -> bool {
    forall|a: V, b: V| V::is_default_value(a) && V::is_default_value(b) ==> a == b
}

/// For a type with a `Default` implementation, every answer of the query is
/// the value that `V::default` returns: `Some` of it from the `Option` form,
/// `Ok` of it from the `Result` form.
pub proof fn lemma_default_present<V: Default>(r: Option<V>, s: Result<V, DefaultNotFound>)
    requires
        call_ensures(<V as TryDefault<V>>::try_default, (), r),
        call_ensures(<V as crate::try_default::TryDefault<V>>::try_default, (), s),
    ensures
        r matches Some(d) && call_ensures(V::default, (), d),
        s matches Ok(d) && call_ensures(V::default, (), d),
{
}

/// For a type with no canonical default value, the query answers `None`
/// from the `Option` form and `Err(DefaultNotFound)` from the `Result` form.
pub proof fn lemma_no_default_absent<V: TryDefault<V>>(r: Option<V>, s: Result<V, DefaultNotFound>)
    requires
        !V::has_default(),
        call_ensures(<V as TryDefault<V>>::try_default, (), r),
        call_ensures(<V as crate::try_default::TryDefault<V>>::try_default, (), s),
    ensures
        r is None,
        s == Err::<V, DefaultNotFound>(DefaultNotFound),
{
}

/// Two answers of the query for one type agree on whether a default exists,
/// and where the type's canonical default is unique they are equal.
pub proof fn lemma_outcome_deterministic<V: TryDefault<V>>(
    r1: Option<V>,
    r2: Option<V>,
    s1: Result<V, DefaultNotFound>,
    s2: Result<V, DefaultNotFound>,
)
    requires
        call_ensures(<V as TryDefault<V>>::try_default, (), r1),
        call_ensures(<V as TryDefault<V>>::try_default, (), r2),
        call_ensures(<V as crate::try_default::TryDefault<V>>::try_default, (), s1),
        call_ensures(<V as crate::try_default::TryDefault<V>>::try_default, (), s2),
    ensures
        r1 is Some <==> r2 is Some,
        s1 is Ok <==> s2 is Ok,
        default_is_unique::<V>() ==> r1 == r2,
        default_is_unique::<V>() ==> s1 == s2,
{
}

/// The two forms of the query agree: `Some` answers go with `Ok` answers and
/// `None` with `Err(DefaultNotFound)`, and where the type's canonical default
/// is unique, the `Result` answer is the `Option` answer with `None` read as
/// `Err(DefaultNotFound)`.
pub proof fn lemma_forms_agree<V: TryDefault<V>>(r: Option<V>, s: Result<V, DefaultNotFound>)
    requires
        call_ensures(<V as TryDefault<V>>::try_default, (), r),
        call_ensures(<V as crate::try_default::TryDefault<V>>::try_default, (), s),
    ensures
        r is Some <==> s is Ok,
        r is None <==> s == Err::<V, DefaultNotFound>(DefaultNotFound),
        default_is_unique::<V>() ==> (r matches Some(v) ==> s == Ok::<V, DefaultNotFound>(v)),
{
}

/// For a type with a `Default` implementation, the implementation that
/// produces the default is the one that answers: the "no default" answer
/// never comes, and the canonical default is exactly what `V::default`
/// returns.
pub proof fn lemma_default_wins<V: Default>(r: Option<V>, s: Result<V, DefaultNotFound>)
    requires
        call_ensures(<V as TryDefault<V>>::try_default, (), r),
        call_ensures(<V as crate::try_default::TryDefault<V>>::try_default, (), s),
    ensures
        <V as TryDefault<V>>::has_default(),
        r != None::<V>,
        s != Err::<V, DefaultNotFound>(DefaultNotFound),
        forall|d: V| <V as TryDefault<V>>::is_default_value(d) <==> call_ensures(V::default, (), d),
{
}

/// Both forms of the query on the library's own type without a default: the
/// marker answers `None` and `Err(DefaultNotFound)`.
pub fn marker_answers() -> (r: (Option<DefaultNotFound>, Result<DefaultNotFound, DefaultNotFound>))
    ensures
        r.0 == None::<DefaultNotFound>,
        r.1 == Err::<DefaultNotFound, DefaultNotFound>(DefaultNotFound),
{
    let r = <DefaultNotFound as TryDefault<DefaultNotFound>>::try_default();
    let s = <DefaultNotFound as crate::try_default::TryDefault<DefaultNotFound>>::try_default();
    (r, s)
}

} // verus!
