//! Which responses raise a server-error alert, and the detail it carries.
//! Health probes are polled by uptime monitors, which alert on their own, so
//! they never raise one.
use vstd::prelude::*;
use crate::text::{starts_with_seq, to_chars, eq_str, starts_with, string_of, push_str};

verus! {

/// Longest detail, in bytes, before it is cut.
pub const MAX_ALERT_DETAIL_BYTES: usize = 1000;

/// `/health`, anything under `/health/`, and `/v1/health`.
pub open spec fn spec_is_health_path(p: Seq<char>) -> bool {
    p == "/health"@ || starts_with_seq(p, "/health/"@) || p == "/v1/health"@
}

/// Whether a request path is a health probe.
pub fn is_health_path(path: &str) -> (r: bool)
    ensures
        r == spec_is_health_path(path@),
{
    let v = to_chars(path);
    eq_str(&v, "/health") || starts_with(&v, "/health/") || eq_str(&v, "/v1/health")
}

/// A response raises an alert when its status is a server error (5xx) and
/// its path is no health probe.
pub fn should_alert(path: &str, status: u16) -> (r: bool)
    ensures
        r == (!spec_is_health_path(path@) && 500 <= status <= 599),
{
    500 <= status && status <= 599 && !is_health_path(path)
}

/// Bytes taken by a character in UTF-8.
pub open spec fn char_width(c: char) -> nat {
    if (c as u32) < 0x80 {
        1
    } else if (c as u32) < 0x800 {
        2
    } else if (c as u32) < 0x10000 {
        3
    } else {
        4
    }
}

/// Bytes taken by a text in UTF-8.
pub open spec fn utf8_len(s: Seq<char>) -> nat
    decreases s.len(),
{
    if s.len() == 0 {
        0
    } else {
        utf8_len(s.drop_last()) + char_width(s.last())
    }
}

/// Whether the first `n` bytes of `s` end on a character boundary.
pub open spec fn is_byte_boundary(s: Seq<char>, n: nat) -> bool {
    exists|k: int| 0 <= k <= s.len() && #[trigger] utf8_len(s.take(k)) == n
}

/// The characters that fill the first `n` bytes of `s`.
pub open spec fn byte_prefix(s: Seq<char>, n: nat) -> Seq<char> {
    s.take(choose|k: int| 0 <= k <= s.len() && #[trigger] utf8_len(s.take(k)) == n)
}

/// The detail of an alert: the status line when the body is empty, else
/// the body, cut after its first thousand bytes with `...` appended.
pub open spec fn spec_error_detail(status_text: Seq<char>, body_text: Seq<char>) -> Seq<char> {
    if body_text.len() == 0 {
        status_text
    } else if utf8_len(body_text) > MAX_ALERT_DETAIL_BYTES {
        byte_prefix(body_text, MAX_ALERT_DETAIL_BYTES as nat) + "..."@
    } else {
        body_text
    }
}

proof fn lemma_prefix_step(s: Seq<char>, k: int)
    requires
        0 <= k < s.len(),
    ensures
        utf8_len(s.take(k + 1)) == utf8_len(s.take(k)) + char_width(s[k]),
{
    assert(s.take(k + 1).drop_last() == s.take(k));
}

proof fn lemma_prefix_grows(s: Seq<char>, j: int, k: int)
    requires
        0 <= j < k <= s.len(),
    ensures
        utf8_len(s.take(j)) < utf8_len(s.take(k)),
    decreases k - j,
{
    lemma_prefix_step(s, k - 1);
    if j < k - 1 {
        lemma_prefix_grows(s, j, k - 1);
    }
}

/// Bytes taken by `c` in UTF-8.
fn char_width_of(c: char) -> (r: usize)
    ensures
        r == char_width(c),
{
    let u = c as u32;
    if u < 0x80 {
        1
    } else if u < 0x800 {
        2
    } else if u < 0x10000 {
        3
    } else {
        4
    }
}

/// The detail of a server-error alert, from the status line and the
/// response body read as text. The cut must fall on a character boundary.
pub fn error_detail(status_text: &str, body_text: &str) -> (r: String)
    requires
        utf8_len(body_text@) <= MAX_ALERT_DETAIL_BYTES
            || is_byte_boundary(body_text@, MAX_ALERT_DETAIL_BYTES as nat),
    ensures
        r@ == spec_error_detail(status_text@, body_text@),
{
    let chars = to_chars(body_text);
    if chars.len() == 0 {
        return status_text.to_string();
    }
    let mut k: usize = 0;
    let mut acc: usize = 0;
    while k < chars.len() && acc < MAX_ALERT_DETAIL_BYTES
        invariant
            0 <= k <= chars.len(),
            chars@ == body_text@,
            acc == utf8_len(chars@.take(k as int)),
            k > 0 ==> utf8_len(chars@.take(k - 1)) < MAX_ALERT_DETAIL_BYTES,
        decreases chars.len() - k,
    {
        proof {
            lemma_prefix_step(chars@, k as int);
        }
        acc = acc + char_width_of(chars[k]);
        k = k + 1;
    }
    proof {
        assert(chars@.take(chars@.len() as int) == chars@);
    }
    if acc < MAX_ALERT_DETAIL_BYTES || k == chars.len() {
        proof {
            if k < chars.len() {
                assert(false);
            }
            if acc > MAX_ALERT_DETAIL_BYTES {
                let b = choose|b: int| 0 <= b <= chars@.len() && #[trigger] utf8_len(chars@.take(b)) == MAX_ALERT_DETAIL_BYTES;
                if b < k {
                    lemma_prefix_grows(chars@, b, k as int);
                    if b < k - 1 {
                        lemma_prefix_grows(chars@, b, k - 1);
                    }
                }
                assert(false);
            }
        }
        return string_of(&chars, 0, chars.len());
    }
    // The first prefix that reaches the limit fills it exactly: the cut.
    proof {
        let b = choose|b: int| 0 <= b <= chars@.len() && #[trigger] utf8_len(chars@.take(b)) == MAX_ALERT_DETAIL_BYTES;
        lemma_prefix_grows(chars@, k as int, chars@.len() as int);
        if b < k {
            if b < k - 1 {
                lemma_prefix_grows(chars@, b, k - 1);
            }
            assert(false);
        }
        if b > k {
            lemma_prefix_grows(chars@, k as int, b);
        }
        assert(b == k);
    }
    let mut r = string_of(&chars, 0, k);
    push_str(&mut r, "...");
    r
}

proof fn lemma_utf8_len_concat(a: Seq<char>, b: Seq<char>)
    ensures
        utf8_len(a + b) == utf8_len(a) + utf8_len(b),
    decreases b.len(),
{
    if b.len() == 0 {
        assert(a + b == a);
    } else {
        assert((a + b).drop_last() == a + b.drop_last());
        assert((a + b).last() == b.last());
        lemma_utf8_len_concat(a, b.drop_last());
    }
}

/// Law: the detail of an alert for a non-empty body is never longer than
/// the first thousand bytes of the body and the three dots after them.
pub proof fn lemma_detail_is_bounded(status_text: Seq<char>, body_text: Seq<char>)
    requires
        body_text.len() > 0,
        utf8_len(body_text) <= MAX_ALERT_DETAIL_BYTES || is_byte_boundary(body_text, MAX_ALERT_DETAIL_BYTES as nat),
    ensures
        utf8_len(spec_error_detail(status_text, body_text)) <= MAX_ALERT_DETAIL_BYTES + 3,
{
    if utf8_len(body_text) > MAX_ALERT_DETAIL_BYTES {
        let k = choose|k: int| 0 <= k <= body_text.len() && #[trigger] utf8_len(body_text.take(k)) == MAX_ALERT_DETAIL_BYTES as nat;
        lemma_utf8_len_concat(body_text.take(k), "..."@);
        reveal_strlit("...");
        assert("..."@.drop_last().drop_last().drop_last() == Seq::<char>::empty());
        assert(utf8_len("..."@) == 3) by {
            reveal_with_fuel(utf8_len, 4);
        }
    }
}

} // verus!
