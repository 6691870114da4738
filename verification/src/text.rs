//! Byte- and scalar-level rules on UTF-8 text shared by every public value.
use vstd::prelude::*;
use vstd::string::*;
use vstd::utf8::*;

verus! {

/// The UTF-8 encoding of a character sequence.
pub open spec fn utf8_bytes(s: Seq<char>) -> Seq<u8> {
    encode_utf8(s)
}

/// Distinct texts have distinct UTF-8 encodings.
pub proof fn lemma_utf8_injective(a: Seq<char>, b: Seq<char>)
    ensures
        utf8_bytes(a) == utf8_bytes(b) ==> a == b,
{
    encode_utf8_decode_utf8(a);
    encode_utf8_decode_utf8(b);
}

/// A lowercase ASCII letter.
pub open spec fn is_lower(b: u8) -> bool {
    97 <= b <= 122
}

/// An uppercase ASCII letter.
pub open spec fn is_upper(b: u8) -> bool {
    65 <= b <= 90
}

/// An ASCII decimal digit.
pub open spec fn is_digit(b: u8) -> bool {
    48 <= b <= 57
}

/// A byte that may appear inside a Harness ID slug.
pub open spec fn is_slug_byte(b: u8) -> bool {
    is_lower(b) || is_digit(b) || b == 45
}

/// A lowercase hexadecimal digit.
pub open spec fn is_lower_hex(b: u8) -> bool {
    is_digit(b) || 97 <= b <= 102
}

/// The text holds between 1 and `max_scalars` Unicode scalar values and at most `max_bytes`
/// UTF-8 bytes.
pub open spec fn text_within(s: Seq<char>, max_scalars: int, max_bytes: int) -> bool {
    &&& 0 < s.len() <= max_scalars
    &&& utf8_bytes(s).len() <= max_bytes
}

/// Whether two texts are equal.
pub fn str_equals(a: &str, b: &str) -> (same: bool)
    ensures
        same == (a@ == b@),
{
    a.to_owned() == b.to_owned()
}

/// Checks [`text_within`].
pub fn text_is_within(value: &str, max_scalars: usize, max_bytes: usize) -> (ok: bool)
    ensures
        ok == text_within(value@, max_scalars as int, max_bytes as int),
{
    let scalars = value.unicode_len();
    scalars != 0 && scalars <= max_scalars && value.as_bytes().len() <= max_bytes
}

} // verus!

verus! {

/// An absolute path of at most 4096 bytes.
pub open spec fn is_absolute_path(b: Seq<u8>) -> bool {
    &&& 0 < b.len() <= 4096
    &&& b[0] == 47
}

/// `b[i..j]` is one `/`-separated component of `b`.
pub open spec fn is_component(b: Seq<u8>, i: int, j: int) -> bool {
    &&& 0 <= i <= j <= b.len()
    &&& (i == 0 || b[i - 1] == 47)
    &&& (j == b.len() || b[j] == 47)
    &&& forall|k: int| i <= k < j ==> #[trigger] b[k] != 47
}

/// A component that a normalized repository-relative path may not hold: empty, `.`, `..`,
/// or `.git`.
pub open spec fn is_forbidden_component(c: Seq<u8>) -> bool {
    ||| c.len() == 0
    ||| c =~= seq![46u8]
    ||| c =~= seq![46u8, 46u8]
    ||| c =~= seq![46u8, 103u8, 105u8, 116u8]
}

/// Some component of `b` is forbidden.
pub open spec fn has_forbidden_component(b: Seq<u8>) -> bool {
    exists|i: int, j: int| is_component(b, i, j) && is_forbidden_component(#[trigger] b.subrange(i, j))
}

/// `b` contains the byte `x`.
pub open spec fn has_byte(b: Seq<u8>, x: u8) -> bool {
    exists|i: int| 0 <= i < b.len() && b[i] == x
}

/// A normalized repository-relative path: nonempty, at most 4096 bytes, not absolute, no
/// trailing separator, no backslash or NUL, and no empty, `.`, `..`, or `.git` component.
pub open spec fn is_relative_path(b: Seq<u8>) -> bool {
    &&& 0 < b.len() <= 4096
    &&& b[0] != 47
    &&& b.last() != 47
    &&& !has_byte(b, 92)
    &&& !has_byte(b, 0)
    &&& !has_forbidden_component(b)
}

/// A lowercase hexadecimal SHA-256 digest.
pub open spec fn is_sha256_hex(b: Seq<u8>) -> bool {
    &&& b.len() == 64
    &&& forall|i: int| 0 <= i < b.len() ==> is_lower_hex(#[trigger] b[i])
}

/// An environment variable name: 1 to 128 bytes of `_`, `A-Z`, or (after the first byte)
/// `0-9`.
pub open spec fn is_env_name(b: Seq<u8>) -> bool {
    &&& 0 < b.len() <= 128
    &&& forall|i: int|
        0 <= i < b.len() ==> (#[trigger] b[i] == 95 || is_upper(b[i]) || (i > 0 && is_digit(
            b[i],
        )))
}

/// Checks [`is_absolute_path`].
pub fn absolute_path_ok(text: &str) -> (ok: bool)
    ensures
        ok == is_absolute_path(utf8_bytes(text@)),
{
    let b = text.as_bytes();
    b.len() != 0 && b.len() <= 4096 && b[0] == 47
}

fn forbidden_component(b: &[u8], start: usize, end: usize) -> (bad: bool)
    requires
        start <= end <= b@.len(),
    ensures
        bad == is_forbidden_component(b@.subrange(start as int, end as int)),
{
    let len = end - start;
    let c = Ghost(b@.subrange(start as int, end as int));
    if len == 0 {
        true
    } else if len == 1 {
        let r = b[start] == 46;
        assert(r ==> c@ =~= seq![46u8]);
        assert(c@ =~= seq![46u8] ==> c@[0] == 46);
        r
    } else if len == 2 {
        let r = b[start] == 46 && b[start + 1] == 46;
        assert(r ==> c@ =~= seq![46u8, 46u8]);
        assert(c@ =~= seq![46u8, 46u8] ==> c@[0] == 46 && c@[1] == 46);
        r
    } else if len == 4 {
        let r = b[start] == 46 && b[start + 1] == 103 && b[start + 2] == 105 && b[start + 3]
            == 116;
        assert(r ==> c@ =~= seq![46u8, 103u8, 105u8, 116u8]);
        assert(c@ =~= seq![46u8, 103u8, 105u8, 116u8] ==> c@[0] == 46 && c@[1] == 103 && c@[2]
            == 105 && c@[3] == 116);
        r
    } else {
        assert(c@.len() == len);
        false
    }
}

/// Checks [`is_relative_path`].
pub fn relative_path_ok(text: &str) -> (ok: bool)
    ensures
        ok == is_relative_path(utf8_bytes(text@)),
{
    let b = text.as_bytes();
    let n = b.len();
    if n == 0 || n > 4096 || b[0] == 47 || b[n - 1] == 47 {
        return false;
    }
    let mut start: usize = 0;
    let mut i: usize = 0;
    while i < n
        invariant
            b@ == utf8_bytes(text@),
            n == b@.len(),
            0 < n,
            start <= i <= n,
            start == 0 || b@[start - 1] == 47,
            forall|k: int| start <= k < i ==> #[trigger] b@[k] != 47,
            forall|k: int| 0 <= k < i ==> #[trigger] b@[k] != 92 && b@[k] != 0,
            forall|a: int, c: int|
                c < i && is_component(b@, a, c) ==> !is_forbidden_component(
                    #[trigger] b@.subrange(a, c),
                ),
        decreases n - i,
    {
        if b[i] == 47 {
            proof {
                lemma_component_start(b@, start as int, i as int);
            }
            if forbidden_component(b, start, i) {
                assert(has_forbidden_component(b@));
                return false;
            }
            start = i + 1;
        } else if b[i] == 92 || b[i] == 0 {
            assert(has_byte(b@, 92) || has_byte(b@, 0));
            return false;
        }
        i = i + 1;
    }
    proof {
        lemma_component_start(b@, start as int, n as int);
    }
    if forbidden_component(b, start, n) {
        assert(has_forbidden_component(b@));
        return false;
    }
    assert(!has_byte(b@, 92));
    assert(!has_byte(b@, 0));
    assert forall|a: int, c: int| is_component(b@, a, c) implies !is_forbidden_component(
        #[trigger] b@.subrange(a, c),
    ) by {
        if c == n {
            assert(a == start);
        }
    }
    true
}

/// The component of `b` that ends at `j` starts right after the last separator before `j`.
proof fn lemma_component_start(b: Seq<u8>, start: int, j: int)
    requires
        0 <= start <= j <= b.len(),
        start == 0 || b[start - 1] == 47,
        j == b.len() || b[j] == 47,
        forall|k: int| start <= k < j ==> #[trigger] b[k] != 47,
    ensures
        is_component(b, start, j),
        forall|a: int| is_component(b, a, j) ==> a == start,
{
    assert forall|a: int| is_component(b, a, j) implies a == start by {
        if a < start {
            assert(b[start - 1] == 47);
        } else if a > start {
            assert(b[a - 1] == 47);
        }
    }
}

/// Checks [`is_sha256_hex`].
pub fn sha256_hex_ok(text: &str) -> (ok: bool)
    ensures
        ok == is_sha256_hex(utf8_bytes(text@)),
{
    let b = text.as_bytes();
    if b.len() != 64 {
        return false;
    }
    let mut i: usize = 0;
    while i < 64
        invariant
            b@ == utf8_bytes(text@),
            b@.len() == 64,
            i <= 64,
            forall|k: int| 0 <= k < i ==> is_lower_hex(#[trigger] b@[k]),
        decreases 64 - i,
    {
        let x = b[i];
        if !((48 <= x && x <= 57) || (97 <= x && x <= 102)) {
            assert(!is_lower_hex(b@[i as int]));
            return false;
        }
        i = i + 1;
    }
    true
}

/// Checks [`is_env_name`].
pub fn env_name_ok(text: &str) -> (ok: bool)
    ensures
        ok == is_env_name(utf8_bytes(text@)),
{
    let b = text.as_bytes();
    let n = b.len();
    if n == 0 || n > 128 {
        return false;
    }
    let mut i: usize = 0;
    while i < n
        invariant
            b@ == utf8_bytes(text@),
            n == b@.len(),
            i <= n,
            forall|k: int|
                0 <= k < i ==> (#[trigger] b@[k] == 95 || is_upper(b@[k]) || (k > 0 && is_digit(
                    b@[k],
                ))),
        decreases n - i,
    {
        let x = b[i];
        if !(x == 95 || (65 <= x && x <= 90) || (i > 0 && 48 <= x && x <= 57)) {
            return false;
        }
        i = i + 1;
    }
    true
}

/// A bare executable name, found through `PATH`: 1 to 4096 bytes with no `/` and no NUL.
pub open spec fn is_bare_executable(b: Seq<u8>) -> bool {
    &&& 0 < b.len() <= 4096
    &&& !has_byte(b, 47)
    &&& !has_byte(b, 0)
}

/// Checks [`is_bare_executable`].
pub fn bare_executable_ok(text: &str) -> (ok: bool)
    ensures
        ok == is_bare_executable(utf8_bytes(text@)),
{
    let b = text.as_bytes();
    if b.len() == 0 || b.len() > 4096 {
        return false;
    }
    let mut i: usize = 0;
    while i < b.len()
        invariant
            b@ == utf8_bytes(text@),
            i <= b@.len(),
            forall|k: int| 0 <= k < i ==> b@[k] != 47 && b@[k] != 0,
        decreases b@.len() - i,
    {
        if b[i] == 47 || b[i] == 0 {
            return false;
        }
        i = i + 1;
    }
    true
}

} // verus!
