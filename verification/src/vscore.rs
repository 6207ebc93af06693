//! Core settings and plugin lookup: cache sizes in mebibytes, the thread
//! count, namespace and function names, and the plugin iterator.

use vstd::prelude::*;

verus! {

/// What went wrong with a core operation.
#[derive(PartialEq, Eq, Structural, Clone, Copy, Debug)]
pub enum CoreError {
    /// A negative thread count.
    NegativeThreadCount,
    /// A cache size that is not positive.
    NonPositiveCacheSize,
    /// A name holding a NUL character.
    InvalidName,
    /// No plugin is loaded under the namespace.
    NoSuchPlugin,
    /// The plugin has no function of that name.
    NoSuchFunction,
}

/// Bytes in a mebibyte.
pub const MIB: i64 = 1048576;

/// Converts a cache size in mebibytes to bytes.
pub fn mib_to_bytes(mb: i64) -> (bytes: i64)
    requires
        i64::MIN <= mb * 1048576 <= i64::MAX,
    ensures
        bytes == mb * 1048576,
{
    mb * MIB
}

/// The cache size a new core is built with: the requested mebibytes in bytes.
pub fn requested_cache_bytes(max_cache_size: Option<i64>) -> (r: Option<i64>)
    requires
        max_cache_size matches Some(mb) ==> i64::MIN <= mb * 1048576 <= i64::MAX,
    ensures
        r == match max_cache_size {
            Some(mb) => Some((mb * 1048576) as i64),
            None => None,
        },
{
    match max_cache_size {
        Some(mb) => Some(mib_to_bytes(mb)),
        None => None,
    }
}

/// A new maximum cache size in bytes; the size in mebibytes must be positive.
pub fn cache_limit_bytes(mb: i64) -> (r: Result<i64, CoreError>)
    requires
        mb > 0 ==> mb * 1048576 <= i64::MAX,
    ensures
        mb <= 0 ==> r == Err::<i64, CoreError>(CoreError::NonPositiveCacheSize),
        mb > 0 ==> r == Ok::<i64, CoreError>((mb * 1048576) as i64),
{
    if mb <= 0 {
        return Err(CoreError::NonPositiveCacheSize);
    }
    Ok(mib_to_bytes(mb))
}

/// Division rounding toward zero, as Rust's `/` on integers.
pub open spec fn trunc_div(a: int, b: int) -> int {
    if a >= 0 {
        a / b
    } else {
        -((-a) / b)
    }
}

/// The cache size in mebibytes, rounded up to whole mebibytes:
/// `(bytes + MiB - 1) / MiB` as Rust computes it.
pub fn bytes_to_mib_ceil(bytes: i64) -> (mb: i64)
    requires
        bytes <= i64::MAX - 1048575,
    ensures
        mb == trunc_div(bytes + 1048575, 1048576),
{
    let a = bytes + (MIB - 1);
    if a >= 0 {
        a / MIB
    } else {
        let neg: i64 = -a;
        -(neg / MIB)
    }
}

/// A cache size set in whole mebibytes reads back as the same number of
/// mebibytes.
pub proof fn cache_size_round_trip(mb: int)
    requires
        mb > 0,
    ensures
        trunc_div(mb * 1048576 + 1048575, 1048576) == mb,
{
    assert((mb * 1048576 + 1048575) / 1048576 == mb) by (nonlinear_arith)
        requires
            mb > 0,
    ;
}

/// Checks a new thread count: it must not be negative.
pub fn check_thread_count(value: i32) -> (r: Result<i32, CoreError>)
    ensures
        value < 0 ==> r == Err::<i32, CoreError>(CoreError::NegativeThreadCount),
        value >= 0 ==> r == Ok::<i32, CoreError>(value),
{
    if value < 0 {
        Err(CoreError::NegativeThreadCount)
    } else {
        Ok(value)
    }
}

/// Whether `name` can be passed to the core as a C string: it holds no NUL.
pub fn is_c_name(name: &str) -> (b: bool)
    ensures
        b == !name@.contains('\0'),
{
    let chars = crate::text::chars_of(name);
    let mut i: usize = 0;
    while i < chars.len()
        invariant
            chars@ == name@,
            i <= chars@.len(),
            forall|j: int| 0 <= j < i ==> chars@[j] != '\0',
        decreases chars@.len() - i,
    {
        if chars[i] == '\0' {
            return false;
        }
        i = i + 1;
    }
    true
}

/// Resolves an attribute of a core (a plugin namespace) or of a plugin (a
/// function): the name must be a valid C string, then the lookup must have
/// found it.
pub fn lookup_outcome(name_ok: bool, found: bool, missing: CoreError) -> (r: Result<(), CoreError>)
    ensures
        r == if !name_ok {
            Err(CoreError::InvalidName)
        } else if !found {
            Err(missing)
        } else {
            Ok::<(), CoreError>(())
        },
{
    if !name_ok {
        Err(CoreError::InvalidName)
    } else if !found {
        Err(missing)
    } else {
        Ok(())
    }
}

/// Iterates over the namespaces of the plugins a core had loaded when the
/// iterator was made.
pub struct PluginCursor {
    namespaces: Vec<String>,
    index: usize,
}

impl PluginCursor {
    /// The namespaces.
    pub closed spec fn spec_namespaces(&self) -> Seq<Seq<char>> {
        Seq::new(self.namespaces@.len(), |i: int| self.namespaces@[i]@)
    }

    /// How many namespaces were handed out.
    pub closed spec fn spec_index(&self) -> int {
        self.index as int
    }

    /// The cursor's invariant.
    pub closed spec fn wf(&self) -> bool {
        self.index <= self.namespaces@.len()
    }

    /// A cursor at the first of `namespaces`.
    pub fn new(namespaces: Vec<String>) -> (c: Self)
        ensures
            c.wf(),
            c.spec_namespaces() == Seq::new(namespaces@.len(), |i: int| namespaces@[i]@),
            c.spec_index() == 0,
    {
        PluginCursor { namespaces, index: 0 }
    }

    /// The next namespace, in order; `None` once all were handed out.
    pub fn next(&mut self) -> (r: Option<String>)
        requires
            old(self).wf(),
        ensures
            final(self).wf(),
            final(self).spec_namespaces() == old(self).spec_namespaces(),
            old(self).spec_index() < old(self).spec_namespaces().len() ==> {
                &&& r matches Some(ns)
                &&& ns@ == old(self).spec_namespaces()[old(self).spec_index()]
                &&& final(self).spec_index() == old(self).spec_index() + 1
            },
            old(self).spec_index() >= old(self).spec_namespaces().len() ==> {
                &&& r is None
                &&& final(self).spec_index() == old(self).spec_index()
            },
    {
        if self.index < self.namespaces.len() {
            let ns = self.namespaces[self.index].clone();
            self.index = self.index + 1;
            Some(ns)
        } else {
            None
        }
    }
}

} // verus!
