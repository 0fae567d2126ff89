use crate::error::FileError;
use crate::fields::{c_string, has_nul};
use vstd::prelude::*;
use vstd::string::StringSliceAdditionalSpecFns;

verus! {

/// The C string that names a file to the native library, if the path has
/// one: `None` for a path that is not text (`path` is `None`) or that holds
/// a NUL character.
pub open spec fn native_name(path: Option<&str>) -> Option<Seq<u8>> {
    match path {
        None => None,
        Some(p) => if has_nul(p.spec_bytes()) {
            None
        } else {
            Some(p.spec_bytes().push(0u8))
        },
    }
}

/// What opening a file gives, from the handle the native library returned
/// (`None` for a null pointer: an unreadable file or an unknown container).
pub open spec fn open_outcome<H>(raw: Option<H>) -> Result<H, FileError> {
    match raw {
        None => Err(FileError::InvalidFile),
        Some(h) => Ok(h),
    }
}

/// What asking an open file for its tag gives, from the native result.
pub open spec fn tag_outcome<T>(raw: Option<T>) -> Result<T, FileError> {
    match raw {
        None => Err(FileError::NoAvailableTag),
        Some(t) => Ok(t),
    }
}

/// What asking an open file for its audio properties gives, from the native
/// result.
pub open spec fn properties_outcome<P>(raw: Option<P>) -> Result<P, FileError> {
    match raw {
        None => Err(FileError::NoAvailableAudioProperties),
        Some(p) => Ok(p),
    }
}

/// The C string to hand to the native library to open `path`, or
/// `InvalidFileName` where the path cannot be represented as one.
pub fn file_name(path: Option<&str>) -> (r: Result<Vec<u8>, FileError>)
    ensures
        native_name(path) is None ==> r == Err::<Vec<u8>, FileError>(FileError::InvalidFileName),
        native_name(path) matches Some(n) ==> r matches Ok(c) && c@ == n,
{
    match path {
        None => Err(FileError::InvalidFileName),
        Some(p) => match c_string(p) {
            None => Err(FileError::InvalidFileName),
            Some(c) => Ok(c),
        },
    }
}

/// The result of opening a file, given the handle the native library
/// returned: a null handle (`None`) means `InvalidFile`.
pub fn opened<H>(raw: Option<H>) -> (r: Result<H, FileError>)
    ensures
        r == open_outcome(raw),
{
    match raw {
        None => Err(FileError::InvalidFile),
        Some(h) => Ok(h),
    }
}

/// The result of asking a file for its tag, given the native result: a null
/// tag (`None`) means `NoAvailableTag`.
pub fn tag_view<T>(raw: Option<T>) -> (r: Result<T, FileError>)
    ensures
        r == tag_outcome(raw),
{
    match raw {
        None => Err(FileError::NoAvailableTag),
        Some(t) => Ok(t),
    }
}

/// The result of asking a file for its audio properties, given the native
/// result: null properties (`None`) mean `NoAvailableAudioProperties`.
pub fn properties_view<P>(raw: Option<P>) -> (r: Result<P, FileError>)
    ensures
        r == properties_outcome(raw),
{
    match raw {
        None => Err(FileError::NoAvailableAudioProperties),
        Some(p) => Ok(p),
    }
}

/// Opens the file at `path` through `open`, which makes the native call on
/// the file's C string and returns the handle, or `None` for a null one.
///
/// `open` may be called only with the C string of a representable path, so
/// a path that is not text or holds a NUL character fails with
/// `InvalidFileName` before any native call. Otherwise `open` is called
/// once, on that C string, and a null handle fails with `InvalidFile`.
pub fn open_with<H, F>(path: Option<&str>, open: F) -> (r: Result<H, FileError>) where
    F: FnOnce(Vec<u8>) -> Option<H>,

    requires
        native_name(path) matches Some(n) ==> forall|c: Vec<u8>|
            c@ == n ==> #[trigger] open.requires((c,)),
    ensures
        native_name(path) is None ==> r == Err::<H, FileError>(FileError::InvalidFileName),
        native_name(path) matches Some(n) ==> exists|c: Vec<u8>, raw: Option<H>|
            c@ == n && #[trigger] open.ensures((c,), raw) && r == open_outcome(raw),
{
    match file_name(path) {
        Err(e) => Err(e),
        Ok(c) => {
            let ghost name = c;
            let raw = open(c);
            assert(open.ensures((name,), raw));
            opened(raw)
        },
    }
}

} // verus!
