//! Search of the space-separated extension list that `eglQueryString` returns.

use vstd::prelude::*;

verus! {

/// The separator of the extension list.
pub const SPACE: u8 = 0x20;

/// The bytes of `EGL_KHR_create_context`, the extension that lets a context be
/// requested by major and minor version.
pub const CREATE_CONTEXT_EXTENSION: [u8; 22] = [
    0x45, 0x47, 0x4c, 0x5f, 0x4b, 0x48, 0x52, 0x5f, 0x63, 0x72, 0x65, 0x61, 0x74, 0x65, 0x5f,
    0x63, 0x6f, 0x6e, 0x74, 0x65, 0x78, 0x74,
];

/// `name` stands in `list` at `start` as a whole entry: bounded on each side by
/// a separator or by an end of the list.
pub open spec fn is_entry_at(list: Seq<u8>, name: Seq<u8>, start: int) -> bool {
    &&& 0 <= start
    &&& start + name.len() <= list.len()
    &&& list.subrange(start, start + name.len()) == name
    &&& (start == 0 || list[start - 1] == SPACE)
    &&& (start + name.len() == list.len() || list[start + name.len()] == SPACE)
}

/// No byte of `name` is the separator.
pub open spec fn is_single_entry(name: Seq<u8>) -> bool {
    forall|i: int| 0 <= i < name.len() ==> name[i] != SPACE
}

/// `name` is one of the entries of the space-separated `list`. A name that
/// holds a separator is an entry of no list.
pub open spec fn lists_extension(list: Seq<u8>, name: Seq<u8>) -> bool {
    is_single_entry(name) && exists|start: int| is_entry_at(list, name, start)
}

/// Whether the `name.len()` bytes of `list` from `start` on are those of `name`.
fn entry_equals(list: &[u8], start: usize, name: &[u8]) -> (same: bool)
    requires
        start + name@.len() <= list@.len(),
    ensures
        same == (list@.subrange(start as int, start + name@.len()) == name@),
{
    let n = name.len();
    let len = list.len();
    let mut i: usize = 0;
    while i < n
        invariant
            i <= n,
            n == name@.len(),
            len == list@.len(),
            start + n <= len,
            forall|j: int| 0 <= j < i ==> list@[start + j] == name@[j],
        decreases n - i,
    {
        if list[start + i] != name[i] {
            return false;
        }
        i += 1;
    }
    assert(list@.subrange(start as int, start + n) =~= name@);
    true
}

/// Whether the space-separated extension list names `name`.
pub fn has_extension(list: &[u8], name: &[u8]) -> (found: bool)
    ensures
        found == lists_extension(list@, name@),
{
    let n = name.len();
    let mut k: usize = 0;
    while k < n
        invariant
            k <= n,
            n == name@.len(),
            forall|i: int| 0 <= i < k ==> name@[i] != SPACE,
        decreases n - k,
    {
        if name[k] == SPACE {
            return false;
        }
        k += 1;
    }
    let len = list.len();
    let mut start: usize = 0;
    loop
        invariant
            n == name@.len(),
            len == list@.len(),
            is_single_entry(name@),
            start <= len,
            start == 0 || list@[start - 1] == SPACE,
            forall|s: int| 0 <= s < start ==> !is_entry_at(list@, name@, s),
        decreases len - start,
    {
        let mut end: usize = start;
        while end < len && list[end] != SPACE
            invariant
                len == list@.len(),
                start <= end <= len,
                forall|i: int| start <= i < end ==> list@[i] != SPACE,
            decreases len - end,
        {
            end += 1;
        }
        if end - start == n && entry_equals(list, start, name) {
            assert(is_entry_at(list@, name@, start as int));
            return true;
        }
        assert forall|s: int| start <= s <= end implies !is_entry_at(list@, name@, s) by {
            if s == start && is_entry_at(list@, name@, s) {
                if start + n > end {
                    assert(name@[end - start] == SPACE);
                }
            }
        }
        if end == len {
            return false;
        }
        start = end + 1;
    }
}

/// Whether the extension list names `EGL_KHR_create_context`.
pub fn has_create_context_extension(list: &[u8]) -> (found: bool)
    ensures
        found == lists_extension(list@, CREATE_CONTEXT_EXTENSION@),
{
    let name = CREATE_CONTEXT_EXTENSION;
    has_extension(list, name.as_slice())
}

} // verus!
