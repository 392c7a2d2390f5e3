use vstd::prelude::*;
use crate::search::join_url;
use crate::util::push_char;

verus! {

/// The longest package name that the registry accepts.
pub const MAX_NAME_LEN: usize = 64;

pub open spec fn is_ascii_char(c: char) -> bool {
    (c as u32) < 128
}

/// A name that may be looked up: not empty, at most 64 characters, all ASCII.
pub open spec fn name_ok(s: Seq<char>) -> bool {
    0 < s.len() <= MAX_NAME_LEN && forall|i: int| 0 <= i < s.len() ==> is_ascii_char(#[trigger] s[i])
}

pub open spec fn lower_char(c: char) -> char {
    if 'A' <= c && c <= 'Z' {
        ((c as u8) + 32) as u8 as char
    } else {
        c
    }
}

/// ASCII lowercasing, character by character.
pub open spec fn lowered(s: Seq<char>) -> Seq<char> {
    s.map_values(|c: char| lower_char(c))
}

/// The directory of the index that holds the entry of a lowercased name.
pub open spec fn bucket_of(l: Seq<char>) -> Seq<char> {
    if l.len() == 1 {
        seq!['1']
    } else if l.len() == 2 {
        seq!['2']
    } else if l.len() == 3 {
        seq!['3', '/', l[0]]
    } else {
        l.subrange(0, 2) + seq!['/'] + l.subrange(2, 4)
    }
}

/// The path of a name's entry in the index, or `None` for a name that
/// cannot exist there.
pub open spec fn index_path_of(s: Seq<char>) -> Option<Seq<char>> {
    if name_ok(s) {
        Some(bucket_of(lowered(s)) + seq!['/'] + lowered(s))
    } else {
        None
    }
}

fn check_ascii_char(c: char) -> (r: bool)
    ensures
        r == is_ascii_char(c),
{
    (c as u32) < 128
}

/// Tells whether `name` may be looked up at all.
pub fn valid_name(name: &str) -> (r: bool)
    ensures
        r == name_ok(name@),
{
    let mut count: usize = 0;
    for c in it: name.chars()
        invariant
            it.seq() == name@,
            count == it.index(),
            count <= MAX_NAME_LEN,
            forall|i: int| 0 <= i < count ==> is_ascii_char(#[trigger] name@[i]),
    {
        if !check_ascii_char(c) {
            return false;
        }
        count = count + 1;
        if count > MAX_NAME_LEN {
            return false;
        }
    }
    assert(count == name@.len());
    count > 0
}

pub fn to_lower_char(c: char) -> (r: char)
    ensures
        r == lower_char(c),
{
    if 'A' <= c && c <= 'Z' {
        ((c as u8) + 32) as char
    } else {
        c
    }
}

/// ASCII-lowercases a name.
pub fn lowercase_name(name: &str) -> (r: String)
    ensures
        r@ == lowered(name@),
{
    let mut out = String::new();
    for c in it: name.chars()
        invariant
            it.seq() == name@,
            out@ == lowered(name@.take(it.index() as int)),
    {
        proof {
            let i = it.index() as int;
            assert(lowered(name@.take(i + 1)) =~= lowered(name@.take(i)).push(lower_char(name@[i])));
        }
        push_char(&mut out, to_lower_char(c));
    }
    proof {
        assert(name@.take(name@.len() as int) =~= name@);
    }
    out
}

/// The path of `name`'s entry in the package index, from its lowercased
/// form: `1/a`, `2/at`, `3/t/top`, `g0/od/g0od`. `None` for a name that is
/// empty, longer than 64 characters or not ASCII, which no lookup is made for.
pub fn index_path(name: &str) -> (r: Option<String>)
    ensures
        match r {
            Some(p) => index_path_of(name@) == Some(p@),
            None => index_path_of(name@) is None,
        },
        !name_ok(name@) ==> r is None,
{
    if !valid_name(name) {
        return None;
    }
    let lower = lowercase_name(name);
    let l = lower.as_str();
    let n = l.unicode_len();
    let mut path = String::new();
    if n == 1 {
        push_char(&mut path, '1');
    } else if n == 2 {
        push_char(&mut path, '2');
    } else if n == 3 {
        push_char(&mut path, '3');
        push_char(&mut path, '/');
        push_char(&mut path, l.get_char(0));
    } else {
        push_char(&mut path, l.get_char(0));
        push_char(&mut path, l.get_char(1));
        push_char(&mut path, '/');
        push_char(&mut path, l.get_char(2));
        push_char(&mut path, l.get_char(3));
    }
    assert(path@ =~= bucket_of(lowered(name@)));
    push_char(&mut path, '/');
    path.append(l);
    assert(path@ =~= bucket_of(lowered(name@)) + seq!['/'] + lowered(name@));
    Some(path)
}

/// Names with the same lowercased form have the same index entry, and one of
/// them may be looked up exactly when the other may.
pub proof fn lemma_index_path_ignores_case(a: Seq<char>, b: Seq<char>)
    requires
        lowered(a) == lowered(b),
    ensures
        index_path_of(a) == index_path_of(b),
{
    assert(a.len() == lowered(a).len());
    assert(b.len() == lowered(b).len());
    assert forall|i: int| 0 <= i < a.len() implies (is_ascii_char(a[i]) <==> is_ascii_char(b[i])) by {
        assert(lowered(a)[i] == lower_char(a[i]));
        assert(lowered(b)[i] == lower_char(b[i]));
    }
    if name_ok(a) {
        assert forall|i: int| 0 <= i < b.len() implies is_ascii_char(#[trigger] b[i]) by {
            assert(is_ascii_char(a[i]));
        }
    }
    if name_ok(b) {
        assert forall|i: int| 0 <= i < a.len() implies is_ascii_char(#[trigger] a[i]) by {
            assert(is_ascii_char(b[i]));
        }
    }
}

/// A lookup of the index succeeded: the status is a 2xx.
pub fn index_entry_exists(status: u16) -> (r: bool)
    ensures
        r == (200 <= status < 300),
{
    200 <= status && status < 300
}

/// The URL of `name`'s entry under the index mirror at `index_base`, to be
/// fetched without a body; `None` for a name that cannot exist, which is
/// answered "no" without any fetch.
pub fn index_request(index_base: &str, name: &str) -> (r: Option<String>)
    ensures
        match r {
            Some(u) => index_path_of(name@) is Some && u@ == index_base@ + seq!['/']
                + index_path_of(name@)->0,
            None => index_path_of(name@) is None,
        },
{
    match index_path(name) {
        Some(path) => Some(join_url(index_base, path.as_str())),
        None => None,
    }
}

} // verus!
