//! Reading the values that a C caller passes.

use vstd::prelude::*;
use vstd::slice::slice_subrange;

use crate::error::Error;
use crate::error::ErrorView;
use crate::ffi::first;
use crate::ffi::values::{
    FfiOptionalI64, FfiOptionalString, FfiOptionalStringArray, FfiOptionalStringMap,
    FfiOptionalU64, FfiSnapshotHintVersionStatus, FfiStringArray, FfiStringMap, FfiStringMapEntry,
    KernelStringSlice, SNAPSHOT_HINT_VERSION_STATUS_LATEST,
    SNAPSHOT_HINT_VERSION_STATUS_UNVERIFIED,
};
use crate::snapshot::types::SnapshotHintVersionStatus;
use crate::string_map;
use crate::string_map::StringMap;
use crate::text;
use crate::text::{around, join, u64_text};

verus! {

/// The first of two errors.
pub open spec fn either(a: Option<ErrorView>, b: Option<ErrorView>) -> Option<ErrorView> {
    match a {
        Some(e) => Some(e),
        None => b,
    }
}

/// Whether `res` is the error, where there is one, and otherwise the value.
pub open spec fn reads<T: DeepView>(
    error: Option<ErrorView>,
    value: T::V,
    res: Result<T, Error>,
) -> bool {
    match res {
        Ok(read) => error is None && read.deep_view() == value,
        Err(e) => error == Some(e.deep_view()),
    }
}

/// An error about the hint.
pub fn invalid(message: String) -> (res: Error)
    ensures
        res.deep_view() == ErrorView::InvalidSnapshotHint(message@),
{
    Error::InvalidSnapshotHint(message)
}

/// Reports an error as one about the hint, without a backtrace and without the wording of an
/// internal error.
pub fn invalid_from_error(error: Error) -> (res: Error)
    ensures
        res.deep_view() == ErrorView::InvalidSnapshotHint(error.deep_view().hint_message()),
{
    invalid(error.into_hint_message())
}

/// The error for an integer that stands for no freshness claim.
pub open spec fn unknown_status(value: u32) -> ErrorView {
    ErrorView::InvalidSnapshotHint(
        "unknown snapshot hint version status: "@ + text::int_text(value as int),
    )
}

/// The freshness claim that an integer stands for.
pub fn parse_version_status(value: FfiSnapshotHintVersionStatus) -> (res: Result<
    SnapshotHintVersionStatus,
    Error,
>)
    ensures
        match res {
            Ok(SnapshotHintVersionStatus::Unverified) => value
                == SNAPSHOT_HINT_VERSION_STATUS_UNVERIFIED,
            Ok(SnapshotHintVersionStatus::Latest) => value == SNAPSHOT_HINT_VERSION_STATUS_LATEST,
            Err(e) => value != SNAPSHOT_HINT_VERSION_STATUS_UNVERIFIED && value
                != SNAPSHOT_HINT_VERSION_STATUS_LATEST && e.deep_view() == unknown_status(value),
        },
{
    if value == SNAPSHOT_HINT_VERSION_STATUS_UNVERIFIED {
        Ok(SnapshotHintVersionStatus::Unverified)
    } else if value == SNAPSHOT_HINT_VERSION_STATUS_LATEST {
        Ok(SnapshotHintVersionStatus::Latest)
    } else {
        Err(
            invalid(
                join("unknown snapshot hint version status: ", u64_text(value as u64).as_str()),
            ),
        )
    }
}

/// The text of the error that `std::str::from_utf8` gives for bytes that are not UTF-8.
pub uninterp spec fn utf8_error_text(bytes: Seq<u8>) -> Seq<char>;

/// Calls `std::str::from_utf8`. The contract says that it accepts exactly the bytes that are
/// UTF-8, that the text is what they encode, and that the text of the error is a function of the
/// bytes.
#[verifier::external_body]
fn utf8_text(bytes: &Vec<u8>) -> (res: Result<String, String>)
    ensures
        match res {
            Ok(text) => vstd::utf8::valid_utf8(bytes@) && text@ == vstd::utf8::decode_utf8(bytes@),
            Err(message) => !vstd::utf8::valid_utf8(bytes@) && message@ == utf8_error_text(bytes@),
        },
{
    match std::str::from_utf8(bytes.as_slice()) {
        Ok(text) => Ok(text.to_string()),
        Err(error) => Err(error.to_string()),
    }
}

/// The error for bytes that are not UTF-8.
pub open spec fn string_error(value: KernelStringSlice) -> Option<ErrorView> {
    if vstd::utf8::valid_utf8(value.bytes@) {
        None
    } else {
        Some(ErrorView::Utf8Error(utf8_error_text(value.bytes@)))
    }
}

/// The text that the bytes encode.
pub open spec fn string_value(value: KernelStringSlice) -> Seq<char> {
    vstd::utf8::decode_utf8(value.bytes@)
}

/// The text that the bytes encode.
pub fn string(value: &KernelStringSlice) -> (res: Result<String, Error>)
    ensures
        reads(string_error(*value), string_value(*value), res),
{
    match utf8_text(&value.bytes) {
        Ok(text) => Ok(text),
        Err(message) => Err(Error::Utf8Error(message)),
    }
}

/// The error for an optional string.
pub open spec fn optional_string_error(value: FfiOptionalString) -> Option<ErrorView> {
    if value.has_value {
        string_error(value.value)
    } else {
        None
    }
}

/// The text, where it is present.
pub open spec fn optional_string_value(value: FfiOptionalString) -> Option<Seq<char>> {
    if value.has_value {
        Some(string_value(value.value))
    } else {
        None
    }
}

/// The text, where it is present.
pub fn optional_string(value: &FfiOptionalString) -> (res: Result<Option<String>, Error>)
    ensures
        reads(optional_string_error(*value), optional_string_value(*value), res),
{
    if value.has_value {
        match string(&value.value) {
            Ok(text) => Ok(Some(text)),
            Err(e) => Err(e),
        }
    } else {
        Ok(None)
    }
}

/// The integer, where it is present.
pub open spec fn optional_i64_value(value: FfiOptionalI64) -> Option<i64> {
    if value.has_value {
        Some(value.value)
    } else {
        None
    }
}

/// The integer, where it is present.
pub fn optional_i64(value: &FfiOptionalI64) -> (res: Option<i64>)
    ensures
        res == optional_i64_value(*value),
{
    if value.has_value {
        Some(value.value)
    } else {
        None
    }
}

/// The error for an integer that does not fit.
pub open spec fn optional_usize_error(value: FfiOptionalU64) -> Option<ErrorView> {
    if value.has_value && value.value > usize::MAX {
        Some(
            ErrorView::InvalidSnapshotHint(
                "checkpoint part count overflows usize: "@ + text::int_text(value.value as int),
            ),
        )
    } else {
        None
    }
}

/// The integer, where it is present.
pub open spec fn optional_usize_value(value: FfiOptionalU64) -> Option<usize> {
    if value.has_value {
        Some(value.value as usize)
    } else {
        None
    }
}

/// The integer, where it is present.
pub fn optional_usize(value: &FfiOptionalU64) -> (res: Result<Option<usize>, Error>)
    ensures
        match res {
            Ok(read) => optional_usize_error(*value) is None && read == optional_usize_value(
                *value,
            ),
            Err(e) => optional_usize_error(*value) == Some(e.deep_view()),
        },
{
    if value.has_value {
        if value.value > usize::MAX as u64 {
            return Err(
                invalid(
                    join(
                        "checkpoint part count overflows usize: ",
                        u64_text(value.value).as_str(),
                    ),
                ),
            );
        }
        Ok(Some(value.value as usize))
    } else {
        Ok(None)
    }
}

/// The error for an array that is not empty and whose pointer is null or addresses fewer elements
/// than the length says.
pub open spec fn array_error<T>(ptr: Option<Vec<T>>, len: usize, name: Seq<char>) -> Option<
    ErrorView,
> {
    if len == 0 {
        None
    } else {
        match ptr {
            None => Some(
                ErrorView::InvalidSnapshotHint(
                    name + " pointer is null with length "@ + text::int_text(len as int),
                ),
            ),
            Some(values) => if values@.len() < len {
                Some(
                    ErrorView::InvalidSnapshotHint(
                        name + " pointer addresses fewer elements than length "@
                            + text::int_text(len as int),
                    ),
                )
            } else {
                None
            },
        }
    }
}

/// The elements of an array: as many as the length says. An empty one may have a null pointer.
pub open spec fn elements<T>(ptr: Option<Vec<T>>, len: usize) -> Seq<T> {
    if len == 0 {
        Seq::empty()
    } else {
        ptr->0@.take(len as int)
    }
}

/// The elements of an array: as many as the length says. An empty one may have a null pointer.
pub fn raw_slice<'a, T>(ptr: &'a Option<Vec<T>>, len: usize, name: &str) -> (res: Result<
    &'a [T],
    Error,
>)
    ensures
        match res {
            Ok(slice) => array_error(*ptr, len, name@) is None && slice@ == elements(*ptr, len),
            Err(e) => array_error(*ptr, len, name@) == Some(e.deep_view()),
        },
{
    if len == 0 {
        return Ok(&[]);
    }
    match ptr {
        Some(values) => {
            if values.len() < len {
                let head = join(name, " pointer addresses fewer elements than length ");
                return Err(invalid(join(head.as_str(), u64_text(len as u64).as_str())));
            }
            Ok(slice_subrange(values.as_slice(), 0, len))
        },
        None => {
            let head = join(name, " pointer is null with length ");
            Err(invalid(join(head.as_str(), u64_text(len as u64).as_str())))
        },
    }
}

/// The error for a null pointer to a payload.
pub open spec fn null_value(name: Seq<char>) -> ErrorView {
    ErrorView::InvalidSnapshotHint("snapshot hint "@ + name + " value is null"@)
}

/// The payload that a pointer addresses.
pub fn required_ref<'a, T>(ptr: &'a Option<T>, name: &str) -> (res: Result<&'a T, Error>)
    ensures
        match res {
            Ok(value) => *ptr == Some(*value),
            Err(e) => *ptr is None && e.deep_view() == null_value(name@),
        },
{
    match ptr {
        Some(value) => Ok(value),
        None => Err(invalid(around("snapshot hint ", name, " value is null"))),
    }
}

/// The errors of the strings.
pub open spec fn string_errors(items: Seq<KernelStringSlice>) -> Seq<Option<ErrorView>> {
    items.map_values(|item: KernelStringSlice| string_error(item))
}

/// The error for an array of strings.
pub open spec fn strings_error(value: FfiStringArray) -> Option<ErrorView> {
    either(
        array_error(value.ptr, value.len, "string array"@),
        first::first(string_errors(elements(value.ptr, value.len))),
    )
}

/// The texts of an array of strings.
pub open spec fn strings_value(value: FfiStringArray) -> Seq<Seq<char>> {
    elements(value.ptr, value.len).map_values(|item: KernelStringSlice| string_value(item))
}

/// The texts of an array of strings.
pub fn strings(value: &FfiStringArray) -> (res: Result<Vec<String>, Error>)
    ensures
        reads(strings_error(*value), strings_value(*value), res),
{
    let items = match raw_slice(&value.ptr, value.len, "string array") {
        Ok(items) => items,
        Err(e) => {
            return Err(e);
        },
    };
    let ghost errors = string_errors(items@);
    let mut list: Vec<String> = Vec::new();
    let mut i: usize = 0;
    while i < items.len()
        invariant
            i <= items@.len(),
            items@ == elements(value.ptr, value.len),
            array_error(value.ptr, value.len, "string array"@) is None,
            errors == string_errors(items@),
            list@.len() == i,
            forall|j: int| 0 <= j < i ==> (#[trigger] errors[j]) is None,
            forall|j: int| 0 <= j < i ==> (#[trigger] list@[j])@ == string_value(items@[j]),
        decreases items@.len() - i,
    {
        match string(&items[i]) {
            Ok(text) => {
                list.push(text);
            },
            Err(e) => {
                proof {
                    first::lemma_first_at(errors, i as int);
                }
                return Err(e);
            },
        }
        i = i + 1;
    }
    proof {
        first::lemma_first(errors);
        assert(list.deep_view() =~= strings_value(*value));
    }
    Ok(list)
}

/// The error for an optional array of strings.
pub open spec fn optional_strings_error(value: FfiOptionalStringArray) -> Option<ErrorView> {
    if value.has_value {
        strings_error(value.value)
    } else {
        None
    }
}

/// The texts, where the array is present.
pub open spec fn optional_strings_value(value: FfiOptionalStringArray) -> Option<Seq<Seq<char>>> {
    if value.has_value {
        Some(strings_value(value.value))
    } else {
        None
    }
}

/// The texts, where the array is present.
pub fn optional_strings(value: &FfiOptionalStringArray) -> (res: Result<Option<Vec<String>>, Error>)
    ensures
        reads(optional_strings_error(*value), optional_strings_value(*value), res),
{
    if value.has_value {
        match strings(&value.value) {
            Ok(list) => Ok(Some(list)),
            Err(e) => Err(e),
        }
    } else {
        Ok(None)
    }
}

/// An array that is present and empty is told apart from one that is absent.
pub proof fn law_absent_is_not_empty(absent: FfiOptionalStringArray, empty: FfiOptionalStringArray)
    requires
        !absent.has_value,
        empty.has_value,
        empty.value.len == 0,
    ensures
        optional_strings_error(absent) is None,
        optional_strings_value(absent) is None,
        optional_strings_error(empty) is None,
        optional_strings_value(empty) == Some(Seq::<Seq<char>>::empty()),
{
    assert(strings_value(empty.value) =~= Seq::empty());
}

/// The errors of the entries.
pub open spec fn entry_errors(items: Seq<FfiStringMapEntry>) -> Seq<Option<ErrorView>> {
    items.map_values(
        |item: FfiStringMapEntry| either(string_error(item.key), string_error(item.value)),
    )
}

/// The keys and values of the entries.
pub open spec fn entry_pairs(items: Seq<FfiStringMapEntry>) -> Seq<(Seq<char>, Seq<char>)> {
    items.map_values(
        |item: FfiStringMapEntry| (string_value(item.key), string_value(item.value)),
    )
}

/// The error for a map.
pub open spec fn string_map_error(value: FfiStringMap) -> Option<ErrorView> {
    either(
        array_error(value.ptr, value.len, "string map"@),
        first::first(entry_errors(elements(value.ptr, value.len))),
    )
}

/// The map that the entries describe; of two entries with one key the later wins.
pub open spec fn string_map_value(value: FfiStringMap) -> Map<Seq<char>, Seq<char>> {
    string_map::pairs_map(entry_pairs(elements(value.ptr, value.len)))
}

fn entry(value: &FfiStringMapEntry) -> (res: Result<(String, String), Error>)
    ensures
        match res {
            Ok((k, v)) => either(string_error(value.key), string_error(value.value)) is None && k@
                == string_value(value.key) && v@ == string_value(value.value),
            Err(e) => either(string_error(value.key), string_error(value.value)) == Some(
                e.deep_view(),
            ),
        },
{
    match string(&value.key) {
        Ok(k) => match string(&value.value) {
            Ok(v) => Ok((k, v)),
            Err(e) => Err(e),
        },
        Err(e) => Err(e),
    }
}

/// The map that the entries describe; of two entries with one key the later wins.
pub fn string_map(value: &FfiStringMap) -> (res: Result<StringMap<String>, Error>)
    ensures
        reads(string_map_error(*value), string_map_value(*value), res),
{
    let items = match raw_slice(&value.ptr, value.len, "string map") {
        Ok(items) => items,
        Err(e) => {
            return Err(e);
        },
    };
    let ghost errors = entry_errors(items@);
    let ghost pairs = entry_pairs(items@);
    let mut m: StringMap<String> = StringMap::new();
    let mut i: usize = 0;
    assert(pairs.take(0) =~= Seq::empty());
    while i < items.len()
        invariant
            i <= items@.len(),
            items@ == elements(value.ptr, value.len),
            array_error(value.ptr, value.len, "string map"@) is None,
            errors == entry_errors(items@),
            pairs == entry_pairs(items@),
            pairs.len() == items@.len(),
            forall|j: int| 0 <= j < i ==> (#[trigger] errors[j]) is None,
            m.deep_view() == string_map::pairs_map(pairs.take(i as int)),
        decreases items@.len() - i,
    {
        match entry(&items[i]) {
            Ok((k, v)) => {
                proof {
                    let next = pairs.take(i + 1);
                    assert(next.drop_last() =~= pairs.take(i as int));
                    assert(next.last() == (k@, v@));
                }
                m.insert(k, v);
            },
            Err(e) => {
                proof {
                    first::lemma_first_at(errors, i as int);
                }
                return Err(e);
            },
        }
        i = i + 1;
    }
    proof {
        first::lemma_first(errors);
        assert(pairs.take(pairs.len() as int) =~= pairs);
    }
    Ok(m)
}

/// The error for an optional map.
pub open spec fn optional_string_map_error(value: FfiOptionalStringMap) -> Option<ErrorView> {
    if value.has_value {
        string_map_error(value.value)
    } else {
        None
    }
}

/// The map, where it is present.
pub open spec fn optional_string_map_value(value: FfiOptionalStringMap) -> Option<
    Map<Seq<char>, Seq<char>>,
> {
    if value.has_value {
        Some(string_map_value(value.value))
    } else {
        None
    }
}

/// The map, where it is present.
pub fn optional_string_map(value: &FfiOptionalStringMap) -> (res: Result<
    Option<StringMap<String>>,
    Error,
>)
    ensures
        reads(optional_string_map_error(*value), optional_string_map_value(*value), res),
{
    if value.has_value {
        match string_map(&value.value) {
            Ok(m) => Ok(Some(m)),
            Err(e) => Err(e),
        }
    } else {
        Ok(None)
    }
}

} // verus!
