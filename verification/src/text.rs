//! Byte-text helpers.
//!
//! The side channels (the detach signal, the drag payload) and the
//! configuration values are plain text. This module gives the engine its
//! notion of trimming and of ASCII case-insensitive matching over the raw
//! bytes of that text.

use vstd::prelude::*;

verus! {

/// ASCII whitespace, as trimming understands it: tab through carriage
/// return, and space.
pub open spec fn is_space(b: u8) -> bool {
    b == 32 || (9 <= b && b <= 13)
}

/// Lower-cases one ASCII byte; other bytes pass through.
pub open spec fn lower(b: u8) -> u8 {
    if 65 <= b && b <= 90 {
        (b + 32) as u8
    } else {
        b
    }
}

/// Lower-cases a byte string, ASCII-wise.
pub open spec fn lower_seq(s: Seq<u8>) -> Seq<u8> {
    s.map_values(|b: u8| lower(b))
}

/// `s` without leading whitespace.
pub open spec fn trim_start(s: Seq<u8>) -> Seq<u8>
    decreases s.len(),
{
    if s.len() > 0 && is_space(s[0]) {
        trim_start(s.drop_first())
    } else {
        s
    }
}

/// `s` without trailing whitespace.
pub open spec fn trim_end(s: Seq<u8>) -> Seq<u8>
    decreases s.len(),
{
    if s.len() > 0 && is_space(s.last()) {
        trim_end(s.drop_last())
    } else {
        s
    }
}

/// `s` without leading and trailing whitespace.
pub open spec fn trimmed(s: Seq<u8>) -> Seq<u8> {
    trim_end(trim_start(s))
}

/// The text reads as true: `1`, `true`, `yes` or `y`, case-insensitively.
pub open spec fn spec_truthy(s: Seq<u8>) -> bool {
    ||| lower_seq(s) == seq![49u8]
    ||| lower_seq(s) == seq![116u8, 114u8, 117u8, 101u8]
    ||| lower_seq(s) == seq![121u8, 101u8, 115u8]
    ||| lower_seq(s) == seq![121u8]
}

/// The configured mode selects the sync engine: `sync`, case-insensitively.
pub open spec fn spec_sync_mode(s: Seq<u8>) -> bool {
    lower_seq(s) == seq![115u8, 121u8, 110u8, 99u8]
}

/// The detach side file asks for detached mode: its trimmed contents are
/// `1`, or `true` case-insensitively.
pub open spec fn spec_detach_request(s: Seq<u8>) -> bool {
    ||| trimmed(s) == seq![49u8]
    ||| lower_seq(trimmed(s)) == seq![116u8, 114u8, 117u8, 101u8]
}

/// Trimming the front of a byte string keeps the suffix that starts at its
/// first non-whitespace byte.
pub proof fn lemma_trim_start_is_subrange(s: Seq<u8>, i: int)
    requires
        0 <= i <= s.len(),
        forall|k: int| 0 <= k < i ==> is_space(s[k]),
        i == s.len() || !is_space(s[i]),
    ensures
        trim_start(s) == s.subrange(i, s.len() as int),
    decreases i,
{
    if i == 0 {
        assert(s.subrange(0, s.len() as int) =~= s);
    } else {
        let t = s.drop_first();
        assert(forall|k: int| 0 <= k < i - 1 ==> is_space(t[k]));
        lemma_trim_start_is_subrange(t, i - 1);
        assert(t.subrange(i - 1, t.len() as int) =~= s.subrange(i, s.len() as int));
    }
}

/// Trimming the back of a byte string keeps the prefix that ends after its
/// last non-whitespace byte.
pub proof fn lemma_trim_end_is_subrange(s: Seq<u8>, j: int)
    requires
        0 <= j <= s.len(),
        forall|k: int| j <= k < s.len() ==> is_space(s[k]),
        j == 0 || !is_space(s[j - 1]),
    ensures
        trim_end(s) == s.subrange(0, j),
    decreases s.len(),
{
    if j == s.len() {
        assert(s.subrange(0, j) =~= s);
    } else {
        let t = s.drop_last();
        assert(is_space(s.last()));
        lemma_trim_end_is_subrange(t, j);
        assert(t.subrange(0, j) =~= s.subrange(0, j));
    }
}

/// Byte strings of different lengths differ.
proof fn lemma_ne_len(a: Seq<u8>, b: Seq<u8>)
    requires
        a.len() != b.len(),
    ensures
        a != b,
{
}

/// A one-byte string equals the literal exactly when its byte does.
proof fn lemma_eq1(a: Seq<u8>, x0: u8)
    requires
        a.len() == 1,
    ensures
        (a == seq![x0]) == (a[0] == x0),
{
    if a[0] == x0 {
        assert(a =~= seq![x0]);
    } else {
        assert(seq![x0][0] == x0);
    }
}

/// A three-byte string equals the literal exactly when its bytes do.
proof fn lemma_eq3(a: Seq<u8>, x0: u8, x1: u8, x2: u8)
    requires
        a.len() == 3,
    ensures
        (a == seq![x0, x1, x2]) == (a[0] == x0 && a[1] == x1 && a[2] == x2),
{
    if a[0] == x0 && a[1] == x1 && a[2] == x2 {
        assert(a =~= seq![x0, x1, x2]);
    } else {
        assert(seq![x0, x1, x2][0] == x0);
        assert(seq![x0, x1, x2][1] == x1);
        assert(seq![x0, x1, x2][2] == x2);
    }
}

/// A four-byte string equals the literal exactly when its bytes do.
proof fn lemma_eq4(a: Seq<u8>, x0: u8, x1: u8, x2: u8, x3: u8)
    requires
        a.len() == 4,
    ensures
        (a == seq![x0, x1, x2, x3]) == (a[0] == x0 && a[1] == x1 && a[2] == x2 && a[3] == x3),
{
    if a[0] == x0 && a[1] == x1 && a[2] == x2 && a[3] == x3 {
        assert(a =~= seq![x0, x1, x2, x3]);
    } else {
        assert(seq![x0, x1, x2, x3][0] == x0);
        assert(seq![x0, x1, x2, x3][1] == x1);
        assert(seq![x0, x1, x2, x3][2] == x2);
        assert(seq![x0, x1, x2, x3][3] == x3);
    }
}

/// Whether `b` counts as whitespace for trimming.
pub fn is_space_byte(b: u8) -> (r: bool)
    ensures
        r == is_space(b),
{
    b == 32 || (9 <= b && b <= 13)
}

/// Lower-cases one ASCII byte.
pub fn lower_byte(b: u8) -> (r: u8)
    ensures
        r == lower(b),
{
    if 65 <= b && b <= 90 {
        b + 32
    } else {
        b
    }
}

/// Index of the first non-whitespace byte of `s`, or its length.
fn first_non_space(s: &[u8]) -> (i: usize)
    ensures
        i <= s@.len(),
        forall|k: int| 0 <= k < i ==> is_space(s@[k]),
        i == s@.len() || !is_space(s@[i as int]),
{
    let n = s.len();
    let mut i: usize = 0;
    while i < n
        invariant
            i <= n,
            n == s@.len(),
            forall|k: int| 0 <= k < i ==> is_space(s@[k]),
        decreases n - i,
    {
        if !is_space_byte(s[i]) {
            return i;
        }
        i = i + 1;
    }
    i
}

/// One past the index of the last non-whitespace byte of `s` at or after
/// `from`, or `from` when everything there is whitespace.
fn last_non_space_end(s: &[u8], from: usize) -> (j: usize)
    requires
        from <= s@.len(),
    ensures
        from <= j <= s@.len(),
        forall|k: int| j <= k < s@.len() ==> is_space(s@[k]),
        j == from || !is_space(s@[j - 1]),
{
    let mut j: usize = s.len();
    while j > from
        invariant
            from <= j <= s@.len(),
            forall|k: int| j <= k < s@.len() ==> is_space(s@[k]),
        decreases j,
    {
        if !is_space_byte(s[j - 1]) {
            return j;
        }
        j = j - 1;
    }
    j
}

/// The bytes of `s` with leading and trailing whitespace removed.
pub fn trim_bytes(s: &[u8]) -> (r: Vec<u8>)
    ensures
        r@ == trimmed(s@),
{
    let i = first_non_space(s);
    let j = last_non_space_end(s, i);
    let mut r: Vec<u8> = Vec::new();
    let mut k = i;
    while k < j
        invariant
            i <= k <= j <= s@.len(),
            r@ == s@.subrange(i as int, k as int),
        decreases j - k,
    {
        r.push(s[k]);
        assert(r@ =~= s@.subrange(i as int, k + 1 as int));
        k = k + 1;
    }
    proof {
        lemma_trim_start_is_subrange(s@, i as int);
        let t = s@.subrange(i as int, s@.len() as int);
        lemma_trim_end_is_subrange(t, j - i);
        assert(t.subrange(0, j - i) =~= s@.subrange(i as int, j as int));
    }
    r
}

/// Whether the text reads as true (`1`, `true`, `yes`, `y`, any case).
/// Drives the diagnostic-logging configuration switch.
pub fn is_truthy(s: &[u8]) -> (r: bool)
    ensures
        r == spec_truthy(s@),
{
    let ghost l = lower_seq(s@);
    let n = s.len();
    proof {
        assert(l.len() == s@.len());
        assert(forall|i: int| 0 <= i < s@.len() ==> l[i] == lower(s@[i]));
    }
    if n == 1 {
        let c = lower_byte(s[0]);
        proof {
            lemma_eq1(l, 49u8);
            lemma_eq1(l, 121u8);
            lemma_ne_len(l, seq![116u8, 114u8, 117u8, 101u8]);
            lemma_ne_len(l, seq![121u8, 101u8, 115u8]);
        }
        c == 49u8 || c == 121u8
    } else if n == 3 {
        proof {
            lemma_eq3(l, 121u8, 101u8, 115u8);
            lemma_ne_len(l, seq![49u8]);
            lemma_ne_len(l, seq![116u8, 114u8, 117u8, 101u8]);
            lemma_ne_len(l, seq![121u8]);
        }
        lower_byte(s[0]) == 121u8 && lower_byte(s[1]) == 101u8 && lower_byte(s[2]) == 115u8
    } else if n == 4 {
        proof {
            lemma_eq4(l, 116u8, 114u8, 117u8, 101u8);
            lemma_ne_len(l, seq![49u8]);
            lemma_ne_len(l, seq![121u8, 101u8, 115u8]);
            lemma_ne_len(l, seq![121u8]);
        }
        lower_byte(s[0]) == 116u8 && lower_byte(s[1]) == 114u8 && lower_byte(s[2]) == 117u8
            && lower_byte(s[3]) == 101u8
    } else {
        proof {
            lemma_ne_len(l, seq![49u8]);
            lemma_ne_len(l, seq![116u8, 114u8, 117u8, 101u8]);
            lemma_ne_len(l, seq![121u8, 101u8, 115u8]);
            lemma_ne_len(l, seq![121u8]);
        }
        false
    }
}

/// Whether the configured mode enables the sync engine (`sync`, any case).
pub fn is_sync_mode(s: &[u8]) -> (r: bool)
    ensures
        r == spec_sync_mode(s@),
{
    let ghost l = lower_seq(s@);
    let n = s.len();
    proof {
        assert(l.len() == s@.len());
        assert(forall|i: int| 0 <= i < s@.len() ==> l[i] == lower(s@[i]));
    }
    if n == 4 {
        proof {
            lemma_eq4(l, 115u8, 121u8, 110u8, 99u8);
        }
        lower_byte(s[0]) == 115u8 && lower_byte(s[1]) == 121u8 && lower_byte(s[2]) == 110u8
            && lower_byte(s[3]) == 99u8
    } else {
        proof {
            lemma_ne_len(l, seq![115u8, 121u8, 110u8, 99u8]);
        }
        false
    }
}

/// Whether the detach side file's contents ask for detached mode.
pub fn is_detach_request(s: &[u8]) -> (r: bool)
    ensures
        r == spec_detach_request(s@),
{
    let t = trim_bytes(s);
    let ghost l = lower_seq(t@);
    let n = t.len();
    proof {
        assert(l.len() == t@.len());
        assert(forall|i: int| 0 <= i < t@.len() ==> l[i] == lower(t@[i]));
    }
    if n == 1 {
        proof {
            lemma_eq1(t@, 49u8);
            lemma_ne_len(l, seq![116u8, 114u8, 117u8, 101u8]);
        }
        t[0] == 49u8
    } else if n == 4 {
        proof {
            lemma_eq4(l, 116u8, 114u8, 117u8, 101u8);
            lemma_ne_len(t@, seq![49u8]);
        }
        lower_byte(t[0]) == 116u8 && lower_byte(t[1]) == 114u8 && lower_byte(t[2]) == 117u8
            && lower_byte(t[3]) == 101u8
    } else {
        proof {
            lemma_ne_len(t@, seq![49u8]);
            lemma_ne_len(l, seq![116u8, 114u8, 117u8, 101u8]);
        }
        false
    }
}

/// The detach signal for one tick: what the side file read, or attached
/// when the file was absent or unreadable.
pub fn detach_signal(contents: Option<&[u8]>) -> (r: bool)
    ensures
        r == match contents {
            Some(s) => spec_detach_request(s@),
            None => false,
        },
{
    match contents {
        Some(s) => is_detach_request(s),
        None => false,
    }
}

} // verus!
