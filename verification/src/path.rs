//! File paths as the bytes that the operating system knows them by, with `/`
//! between their components.

use vstd::prelude::*;
use vstd::utf8::{decode_utf8, encode_utf8, valid_utf8};

verus! {

pub const SLASH: u8 = 0x2f;

pub const DOT: u8 = 0x2e;

/// `part` below `base`; an absolute `part` takes the place of `base`.
pub open spec fn joined(base: Seq<u8>, part: Seq<u8>) -> Seq<u8> {
    if part.len() > 0 && part[0] == SLASH {
        part
    } else if base.len() == 0 || base.last() == SLASH {
        base + part
    } else {
        base.push(SLASH) + part
    }
}

/// Where the last component of `path` begins: just behind its last slash.
pub open spec fn component_start(path: Seq<u8>) -> int
    decreases path.len(),
{
    if path.len() == 0 || path.last() == SLASH {
        path.len() as int
    } else {
        component_start(path.drop_last())
    }
}

/// The last component of `path`, components that are empty or `.` left aside.
/// There is none where that component is `..`, or where no other is left.
pub open spec fn file_name(path: Seq<u8>) -> Option<Seq<u8>>
    decreases path.len(),
    via file_name_decreases
{
    let start = component_start(path);
    let last = path.skip(start);
    if last == seq![DOT, DOT] {
        None
    } else if last.len() > 0 && last != seq![DOT] {
        Some(last)
    } else if start == 0 {
        None
    } else {
        file_name(path.take(start - 1))
    }
}

#[via_fn]
proof fn file_name_decreases(path: Seq<u8>) {
    lemma_component_start(path);
}

proof fn lemma_component_start(path: Seq<u8>)
    ensures
        0 <= component_start(path) <= path.len(),
        component_start(path) > 0 ==> path[component_start(path) - 1] == SLASH,
        forall|i: int| component_start(path) <= i < path.len() ==> path[i] != SLASH,
    decreases path.len(),
{
    if path.len() == 0 || path.last() == SLASH {
    } else {
        let init = path.drop_last();
        lemma_component_start(init);
        assert forall|i: int| component_start(path) <= i < path.len() implies path[i] != SLASH by {
            if i < init.len() {
                assert(path[i] == init[i]);
            }
        }
    }
}

/// A path that ends in a plain component has that component as its file name,
/// whatever directory it stands in.
pub proof fn file_name_of_joined(base: Seq<u8>, part: Seq<u8>)
    requires
        part.len() > 0,
        part != seq![DOT],
        part != seq![DOT, DOT],
        forall|i: int| 0 <= i < part.len() ==> part[i] != SLASH,
    ensures
        file_name(joined(base, part)) == Some(part),
{
    let whole = joined(base, part);
    let start = whole.len() - part.len();
    lemma_component_start(whole);
    assert(forall|i: int| 0 <= i < part.len() ==> whole[start + i] == part[i]);
    let found = component_start(whole);
    if found > start {
        assert(whole[found - 1] == part[found - 1 - start]);
    } else if found < start {
        assert(whole[start - 1] == SLASH);
    }
    assert(whole.skip(start) =~= part);
}

/// A relative part is put behind its base, with exactly one slash between the
/// two; an absolute part stands alone.
pub proof fn joined_paths_hold_both_parts(base: Seq<u8>, part: Seq<u8>)
    ensures
        part.len() > 0 && part[0] == 0x2f ==> joined(base, part) == part,
        !(part.len() > 0 && part[0] == 0x2f) && base.len() > 0 && base.last() != 0x2f ==> joined(
            base,
            part,
        ) == base + seq![0x2fu8] + part,
        !(part.len() > 0 && part[0] == 0x2f) && (base.len() == 0 || base.last() == 0x2f) ==> joined(
            base,
            part,
        ) == base + part,
{
    assert(base.push(0x2fu8) =~= base + seq![0x2fu8]);
}

/// A file name is never empty, `.` or `..`, and has no slash in it; a slash
/// behind a path does not change it, and what ends in `..` has none.
pub proof fn file_names_are_plain(path: Seq<u8>)
    ensures
        file_name(path) matches Some(name) ==> {
            &&& name.len() > 0
            &&& name != seq![0x2eu8]
            &&& name != seq![0x2eu8, 0x2eu8]
            &&& forall|i: int| 0 <= i < name.len() ==> name[i] != 0x2f
        },
        file_name(path.push(0x2f)) == file_name(path),
        file_name(path + seq![0x2fu8, 0x2eu8, 0x2eu8]) is None,
        file_name(path + seq![0x2fu8, 0x2eu8]) == file_name(path),
    decreases path.len(),
{
    lemma_component_start(path);
    let start = component_start(path);
    let last = path.skip(start);
    if last == seq![DOT, DOT] || (last.len() > 0 && last != seq![DOT]) || start == 0 {
    } else {
        file_names_are_plain(path.take(start - 1));
    }
    let slashed = path.push(0x2f);
    assert(component_start(slashed) == slashed.len());
    assert(slashed.skip(slashed.len() as int) =~= Seq::empty());
    assert(slashed.take(slashed.len() - 1) =~= path);
    let n = path.len() as int;
    let up = path + seq![0x2fu8, 0x2eu8, 0x2eu8];
    lemma_component_is(up, n + 1);
    assert(up.skip(n + 1) =~= seq![DOT, DOT]);
    let here = path + seq![0x2fu8, 0x2eu8];
    lemma_component_is(here, n + 1);
    assert(here.skip(n + 1) =~= seq![DOT]);
    assert(here.take(n) =~= path);
}

proof fn lemma_component_is(path: Seq<u8>, start: int)
    requires
        0 < start <= path.len(),
        path[start - 1] == SLASH,
        forall|i: int| start <= i < path.len() ==> path[i] != SLASH,
    ensures
        component_start(path) == start,
{
    lemma_component_start(path);
    let found = component_start(path);
    if found < start {
        assert(path[start - 1] != SLASH);
    } else if found > start {
        assert(path[found - 1] != SLASH);
    }
}

/// The path of `part` below `base`.
pub fn join(base: Vec<u8>, part: &str) -> (r: Vec<u8>)
    ensures
        r@ == joined(base@, encode_utf8(part@)),
{
    let bytes = part.as_bytes();
    let mut r: Vec<u8> = Vec::new();
    let absolute = bytes.len() > 0 && bytes[0] == SLASH;
    if !absolute {
        let n: usize = base.len();
        let bare = n == 0 || base[n - 1] == SLASH;
        r = base;
        if !bare {
            r.push(SLASH);
        }
    }
    r.extend_from_slice(bytes);
    assert(r@ =~= joined(base@, bytes@));
    r
}

/// What `String::from_utf8_lossy` returns: each malformed stretch of the bytes
/// replaced by U+FFFD.
pub uninterp spec fn utf8_lossy(bytes: Seq<u8>) -> Seq<char>;

/// `String::from_utf8_lossy` of the standard library. Its result depends on the
/// bytes alone; valid UTF-8 is decoded without a change.
#[verifier::external_body]
fn text_of_bytes(bytes: &[u8]) -> (r: String)
    ensures
        r@ == utf8_lossy(bytes@),
        valid_utf8(bytes@) ==> r@ == decode_utf8(bytes@),
{
    String::from_utf8_lossy(bytes).into_owned()
}

/// Is `name` the text of the bytes of a file name?
pub open spec fn is_text_of(name: Seq<char>, bytes: Seq<u8>) -> bool {
    &&& name == utf8_lossy(bytes)
    &&& valid_utf8(bytes) ==> name == decode_utf8(bytes)
}

/// The file name of `path` as text.
pub fn file_name_text(path: &[u8]) -> (r: Option<String>)
    ensures
        match (file_name(path@), r) {
            (Some(bytes), Some(name)) => is_text_of(name@, bytes),
            (None, None) => true,
            _ => false,
        },
{
    let mut end: usize = path.len();
    assert(path@.take(end as int) =~= path@);
    loop
        invariant
            end <= path@.len(),
            file_name(path@) == file_name(path@.take(end as int)),
        decreases end,
    {
        let ghost front = path@.take(end as int);
        assert(front.take(end as int) =~= front);
        let mut start: usize = end;
        while start > 0 && path[start - 1] != SLASH
            invariant
                start <= end <= path@.len(),
                front == path@.take(end as int),
                component_start(front) == component_start(front.take(start as int)),
            decreases start,
        {
            assert(front.take(start as int).drop_last() =~= front.take(start - 1));
            start -= 1;
        }
        assert(start == component_start(front));
        let last = vstd::slice::slice_subrange(path, start, end);
        assert(last@ =~= front.skip(start as int));
        if last.len() == 2 && last[0] == DOT && last[1] == DOT {
            assert(last@ =~= seq![DOT, DOT]);
            return None;
        }
        assert(last@ != seq![DOT, DOT]);
        if last.len() > 1 || (last.len() == 1 && last[0] != DOT) {
            assert(last@ != seq![DOT]);
            return Some(text_of_bytes(last));
        }
        proof {
            if last@.len() == 1 {
                assert(last@ =~= seq![DOT]);
            }
        }
        if start == 0 {
            return None;
        }
        assert(front.take(start - 1) =~= path@.take(start - 1));
        end = start - 1;
    }
}

} // verus!
