use try_default::try_default::TryDefault;
use try_default::laws::marker_answers;
use try_default::DefaultNotFound;

#[derive(Default, PartialEq, Debug)]
struct IsDefault {
    a: u32,
}

#[derive(PartialEq, Debug)]
struct NonDefault {
    a: u32,
}

impl try_default::TryDefault<NonDefault> for NonDefault {
    fn try_default() -> Option<NonDefault> {
        None
    }
}

/// An open resource handle: no value of it is a sensible default.
#[derive(PartialEq, Debug)]
struct OpenHandle {
    fd: i32,
}

impl try_default::TryDefault<OpenHandle> for OpenHandle {
    fn try_default() -> Option<OpenHandle> {
        None
    }
}

#[derive(Default, PartialEq, Debug)]
struct Record {
    count: u64,
    flag: bool,
    name: String,
    items: Vec<u8>,
}

#[test]
fn try_default_it_should_default_when_used_on_core_type() {
    let n = <u32>::try_default();
    assert_eq!(n, Ok(u32::default()));
}

#[test]
fn try_default_it_should_default_when_used_on_core_type_with_different_sytax() {
    let n = <u32 as TryDefault<u32>>::try_default();
    assert_eq!(n, Ok(u32::default()));
}

#[test]
fn try_default_it_returns_default_on_own_types() {
    let n = <IsDefault>::try_default();
    assert_eq!(n, Ok(IsDefault::default()));
}

#[test]
fn try_default_it_returns_none_on_non_default_types() {
    let n = <NonDefault>::try_default();
    assert_eq!(n, Err(DefaultNotFound));
}

#[test]
fn result_numeric_types_give_zero() {
    assert_eq!(<u32>::try_default(), Ok(0u32));
    assert_eq!(<i8>::try_default(), Ok(0i8));
    assert_eq!(<u128>::try_default(), Ok(0u128));
    assert_eq!(<bool>::try_default(), Ok(false));
}

#[test]
fn result_resource_handle_has_no_default() {
    let h = <OpenHandle>::try_default();
    assert!(h.is_err());
    assert_eq!(h, Err(DefaultNotFound));
}

#[test]
fn result_record_fields_take_their_own_defaults() {
    let r = <Record>::try_default();
    assert_eq!(
        r,
        Ok(Record {
            count: 0,
            flag: false,
            name: String::new(),
            items: Vec::new(),
        })
    );
}

#[test]
fn result_marker_type_has_no_default() {
    assert_eq!(<DefaultNotFound>::try_default(), Err(DefaultNotFound));
}

#[test]
fn result_repeated_queries_agree() {
    assert_eq!(<u64>::try_default(), <u64>::try_default());
    assert_eq!(<NonDefault>::try_default(), <NonDefault>::try_default());
}

#[test]
fn marker_equals_a_fresh_marker() {
    let a = DefaultNotFound;
    let b = DefaultNotFound;
    assert_eq!(a, b);
    let c = a;
    assert_eq!(c.clone(), b);
}

#[test]
fn marker_message_text() {
    assert_eq!(
        DefaultNotFound.message(),
        "The type does not implement default"
    );
}

#[test]
fn result_form_matches_option_form() {
    assert_eq!(
        <u8 as TryDefault<u8>>::try_default(),
        <u8 as try_default::TryDefault<u8>>::try_default().ok_or(DefaultNotFound)
    );
    assert_eq!(
        <NonDefault as TryDefault<NonDefault>>::try_default(),
        <NonDefault as try_default::TryDefault<NonDefault>>::try_default().ok_or(DefaultNotFound)
    );
    assert_eq!(
        <Record as TryDefault<Record>>::try_default(),
        <Record as try_default::TryDefault<Record>>::try_default().ok_or(DefaultNotFound)
    );
}

#[test]
fn marker_answers_no_default_in_both_forms() {
    assert_eq!(marker_answers(), (None, Err(DefaultNotFound)));
}
