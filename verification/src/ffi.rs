//! The Android bridge's own logic: its errors, boolean conversions, and the
//! handles by which Java code refers to native values.

use vstd::prelude::*;
use std::collections::HashMap;
use crate::text::{cat3, concat, i64_decimal, owned, signed_decimal};

verus! {

/// Library name
pub const LIBRARY_NAME: &'static str = "StoryStream Android Bridge";

/// Library version
pub const VERSION: &'static str = "0.1.0";

/// FFI-safe error type that can cross the Rust/Java boundary
#[derive(Debug)]
pub enum FfiError {
    /// JNI operation failed
    JniError(String),
    /// Invalid UTF-8 string conversion
    Utf8Error(String),
    /// Handle not found or invalid
    InvalidHandle(String),
    /// General error
    General(String),
}

impl FfiError {
    /// The error as it is displayed.
    pub open spec fn text(&self) -> Seq<char> {
        match self {
            FfiError::JniError(m) => "JNI Error: "@ + m@,
            FfiError::Utf8Error(m) => "UTF-8 Error: "@ + m@,
            FfiError::InvalidHandle(m) => "Invalid Handle: "@ + m@,
            FfiError::General(m) => "Error: "@ + m@,
        }
    }

    /// The error as text, as it is displayed.
    pub fn to_string(&self) -> (r: String)
        ensures
            r@ == self.text(),
    {
        match self {
            FfiError::JniError(m) => concat("JNI Error: ", m.as_str()),
            FfiError::Utf8Error(m) => concat("UTF-8 Error: ", m.as_str()),
            FfiError::InvalidHandle(m) => concat("Invalid Handle: ", m.as_str()),
            FfiError::General(m) => concat("Error: ", m.as_str()),
        }
    }
}

/// Convert Rust bool to jboolean
pub fn bool_to_jboolean(b: bool) -> (r: u8)
    ensures
        r == (if b { 1u8 } else { 0u8 }),
{
    if b {
        1
    } else {
        0
    }
}

/// Convert jboolean to Rust bool: any value but 0 is true.
pub fn jboolean_to_bool(jb: u8) -> (r: bool)
    ensures
        r == (jb != 0),
{
    jb != 0
}

/// The message of the error for a handle that names nothing.
pub open spec fn missing_handle_message(handle: i64) -> Seq<char> {
    "Handle "@ + signed_decimal(handle as int) + " not found"@
}

/// The handle that follows `h`; the counter wraps around as an atomic
/// `fetch_add` does.
pub open spec fn next_after(h: i64) -> i64 {
    if h == i64::MAX {
        i64::MIN
    } else {
        (h + 1) as i64
    }
}

/// Handle manager for storing and retrieving typed values: each inserted
/// value gets a number by which it is found again.
pub struct HandleManager<T> {
    handles: HashMap<i64, T>,
    next_handle: i64,
    /// Whether the counter has passed `i64::MAX` and started over.
    wrapped: Ghost<bool>,
    /// Every handle given out so far, removed ones included.
    issued: Ghost<Set<i64>>,
}

impl<T> HandleManager<T> {
    /// Until the counter wraps around, every held handle was given out before
    /// the next one: all lie between 1 and the next handle.
    #[verifier::type_invariant]
    spec fn handles_in_order(&self) -> bool {
        &&& forall|h: i64| #[trigger] self.handles@.contains_key(h) ==> self.issued@.contains(h)
        &&& !self.wrapped@ ==> {
            &&& 1 <= self.next_handle
            &&& forall|h: i64| #[trigger] self.issued@.contains(h) ==> 1 <= h < self.next_handle
        }
    }

    /// The values held, by handle.
    pub closed spec fn values(&self) -> Map<i64, T> {
        self.handles@
    }

    /// The handle the next insertion gives out.
    pub closed spec fn next(&self) -> i64 {
        self.next_handle
    }

    /// Every handle given out so far, removed ones included.
    pub closed spec fn issued(&self) -> Set<i64> {
        self.issued@
    }

    /// Whether the counter has given out `i64::MAX` and started over from
    /// `i64::MIN`, as an atomic `fetch_add` does.
    pub closed spec fn wrapped(&self) -> bool {
        self.wrapped@
    }

    /// An empty manager; the first handle it gives out is 1.
    pub fn new() -> (r: Self)
        ensures
            r.values() == Map::<i64, T>::empty(),
            r.next() == 1,
            !r.wrapped(),
            r.issued() == Set::<i64>::empty(),
    {
        HandleManager {
            handles: HashMap::new(),
            next_handle: 1,
            wrapped: Ghost(false),
            issued: Ghost(Set::empty()),
        }
    }

    /// Stores a value under the next handle and returns that handle. Until
    /// the counter wraps around, the handle is positive and larger than every
    /// handle given out before, removed ones included: no handle is used
    /// twice.
    pub fn insert(&mut self, value: T) -> (handle: i64)
        ensures
            handle == old(self).next(),
            final(self).next() == next_after(old(self).next()),
            final(self).values() == old(self).values().insert(handle, value),
            final(self).wrapped() == (old(self).wrapped() || handle == i64::MAX),
            final(self).issued() == old(self).issued().insert(handle),
            !old(self).wrapped() ==> handle >= 1 && !old(self).issued().contains(handle)
                && !old(self).values().contains_key(handle),
            !old(self).wrapped() ==> forall|h: i64| #[trigger] old(self).issued().contains(h) ==> h < handle,
    {
        broadcast use vstd::std_specs::hash::group_hash_axioms;

        proof {
            use_type_invariant(&*self);
        }
        let handle = self.next_handle;
        let next = if handle == i64::MAX {
            i64::MIN
        } else {
            handle + 1
        };
        let ghost wrapped = self.wrapped@ || handle == i64::MAX;
        let ghost issued = self.issued@.insert(handle);
        let mut handles = HashMap::new();
        std::mem::swap(&mut handles, &mut self.handles);
        handles.insert(handle, value);
        *self = HandleManager {
            handles,
            next_handle: next,
            wrapped: Ghost(wrapped),
            issued: Ghost(issued),
        };
        handle
    }

    /// A copy of the value stored under a handle, or an invalid-handle error.
    pub fn get(&self, handle: i64) -> (r: Result<T, FfiError>)
        where
            T: Clone,
        ensures
            self.values().contains_key(handle) ==> (r matches Ok(v) && cloned(
                self.values()[handle],
                v,
            )),
            !self.values().contains_key(handle) ==> (r matches Err(FfiError::InvalidHandle(m))
                && m@ == missing_handle_message(handle)),
    {
        broadcast use vstd::std_specs::hash::group_hash_axioms;

        match self.handles.get(&handle) {
            Some(v) => Ok(v.clone()),
            None => Err(FfiError::InvalidHandle(missing_handle_text(handle))),
        }
    }

    /// Takes the value stored under a handle out of the manager, or gives an
    /// invalid-handle error and changes nothing.
    pub fn remove(&mut self, handle: i64) -> (r: Result<T, FfiError>)
        ensures
            final(self).next() == old(self).next(),
            final(self).wrapped() == old(self).wrapped(),
            final(self).issued() == old(self).issued(),
            final(self).values() == old(self).values().remove(handle),
            old(self).values().contains_key(handle) ==> r == Ok::<T, FfiError>(
                old(self).values()[handle],
            ),
            !old(self).values().contains_key(handle) ==> (r matches Err(
                FfiError::InvalidHandle(m),
            ) && m@ == missing_handle_message(handle)),
    {
        broadcast use vstd::std_specs::hash::group_hash_axioms;

        proof {
            use_type_invariant(&*self);
        }
        let mut handles = HashMap::new();
        std::mem::swap(&mut handles, &mut self.handles);
        let taken = handles.remove(&handle);
        let ghost wrapped = self.wrapped@;
        let ghost issued = self.issued@;
        *self = HandleManager {
            handles,
            next_handle: self.next_handle,
            wrapped: Ghost(wrapped),
            issued: Ghost(issued),
        };
        match taken {
            Some(v) => Ok(v),
            None => {
                proof {
                    assert(old(self).values().remove(handle) =~= old(self).values());
                }
                Err(FfiError::InvalidHandle(missing_handle_text(handle)))
            },
        }
    }

    /// Whether a value is stored under a handle.
    pub fn contains(&self, handle: i64) -> (r: bool)
        ensures
            r == self.values().contains_key(handle),
    {
        broadcast use vstd::std_specs::hash::group_hash_axioms;

        self.handles.contains_key(&handle)
    }
}

impl<T> Default for HandleManager<T> {
    fn default() -> (r: Self)
        ensures
            r.values() == Map::<i64, T>::empty(),
            r.next() == 1,
            !r.wrapped(),
            r.issued() == Set::<i64>::empty(),
    {
        Self::new()
    }
}

fn missing_handle_text(handle: i64) -> (r: String)
    ensures
        r@ == missing_handle_message(handle),
{
    proof {
        reveal_strlit("Handle ");
        reveal_strlit(" not found");
    }
    cat3("Handle ", i64_decimal(handle).as_str(), " not found")
}

/// A value inserted under a handle is found under that handle.
pub proof fn law_inserted_value_is_found<T>(m: HandleManager<T>, after: HandleManager<T>, value: T, h: i64)
    requires
        after.values() == m.values().insert(h, value),
    ensures
        after.values().contains_key(h),
        after.values()[h] == value,
{
}

/// What a handle names after it was removed: nothing.
pub proof fn law_removed_handles_name_nothing<T>(m: HandleManager<T>, after: HandleManager<T>, h: i64)
    requires
        after.values() == m.values().remove(h),
    ensures
        !after.values().contains_key(h),
        forall|k: i64| k != h ==> #[trigger] after.values().contains_key(k) == m.values().contains_key(k),
{
}

/// Library context holding state for a library instance
#[derive(Clone, Debug)]
pub struct LibraryContext {
    pub root_path: String,
    pub initialized: bool,
}

impl LibraryContext {
    /// A context for the library at `root_path`, marked initialized.
    pub fn new(root_path: String) -> (r: Self)
        ensures
            r.root_path == root_path,
            r.initialized,
    {
        LibraryContext { root_path, initialized: true }
    }
}

/// Opens a library at a root path: the path must not be empty; the library
/// gets a handle.
pub fn open_library(libraries: &mut HandleManager<LibraryContext>, root_path: String) -> (r: Result<
    i64,
    FfiError,
>)
    ensures
        root_path@.len() == 0 ==> (r matches Err(FfiError::General(m)) && m@
            == "Library root path cannot be empty"@) && *final(libraries) == *old(libraries),
        root_path@.len() > 0 ==> (r matches Ok(h) && h == old(libraries).next()
            && final(libraries).values() == old(libraries).values().insert(
            h,
            LibraryContext { root_path: root_path, initialized: true },
        ) && final(libraries).next() == next_after(old(libraries).next())),
{
    if root_path.as_str().unicode_len() == 0 {
        return Err(FfiError::General(owned("Library root path cannot be empty")));
    }
    let context = LibraryContext::new(root_path);
    Ok(libraries.insert(context))
}

} // verus!
