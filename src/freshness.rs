use vstd::prelude::*;
use crate::decimal::{decimal_of, lemma_parse_decimal, parse_u32, parse_u32_spec, all_digits, lemma_decimal_of};

verus! {

/// The text after the last `:` of `s`, or all of `s` when it holds none.
pub open spec fn last_segment(s: Seq<char>) -> Seq<char>
    decreases s.len(),
{
    if s.len() == 0 {
        s
    } else if s.last() == ':' {
        Seq::empty()
    } else {
        last_segment(s.drop_last()).push(s.last())
    }
}

/// The expiry instant that a username carries, if its last field is a 32-bit number.
pub open spec fn embedded_expiry(username: Seq<char>) -> Option<u32> {
    parse_u32_spec(last_segment(username))
}

/// A username is fresh at `now` when it carries an expiry instant later than `now`.
pub open spec fn fresh_at(username: Seq<char>, now: u32) -> bool {
    match embedded_expiry(username) {
        Some(expiry) => expiry > now,
        None => false,
    }
}

/// `label:expires_at`.
pub open spec fn stamped(label: Seq<char>, expires_at: u32) -> Seq<char> {
    label + seq![':'] + decimal_of(expires_at as nat)
}

/// Where `j` is the last `:` of `s` (or -1 where there is none), the last
/// segment is what follows it.
proof fn lemma_last_segment_after(s: Seq<char>, j: int)
    requires
        -1 <= j < s.len(),
        j >= 0 ==> s[j] == ':',
        forall|k: int| j < k < s.len() ==> s[k] != ':',
    ensures
        last_segment(s) == s.subrange(j + 1, s.len() as int),
    decreases s.len(),
{
    if s.len() == j + 1 {
        assert(s.subrange(j + 1, s.len() as int) =~= Seq::<char>::empty());
    } else {
        lemma_last_segment_after(s.drop_last(), j);
        assert(s.subrange(j + 1, s.len() as int) =~= s.drop_last().subrange(
            j + 1,
            s.len() - 1,
        ).push(s.last()));
    }
}

/// A stamped username carries the stamp as its expiry instant.
pub proof fn lemma_stamped_expiry(label: Seq<char>, expires_at: u32)
    ensures
        embedded_expiry(stamped(label, expires_at)) == Some(expires_at),
        embedded_expiry(decimal_of(expires_at as nat)) == Some(expires_at),
{
    let d = decimal_of(expires_at as nat);
    let s = stamped(label, expires_at);
    lemma_decimal_of(expires_at as nat);
    assert forall|k: int| 0 <= k < d.len() implies d[k] != ':' by {
        assert(all_digits(d));
    }
    lemma_last_segment_after(s, label.len() as int);
    assert(s.subrange(label.len() as int + 1, s.len() as int) =~= d);
    lemma_last_segment_after(d, -1);
    assert(d.subrange(0, d.len() as int) =~= d);
    lemma_parse_decimal(expires_at);
}

/// The text after the last `:` of `s`.
pub fn timestamp_field(s: &str) -> (r: &str)
    ensures
        r@ == last_segment(s@),
{
    let n = s.unicode_len();
    let mut i: usize = n;
    while i > 0
        invariant
            i <= n,
            n == s@.len(),
            forall|k: int| i <= k < n ==> s@[k] != ':',
        decreases i,
    {
        if s.get_char(i - 1) == ':' {
            proof {
                lemma_last_segment_after(s@, i - 1);
            }
            return s.substring_char(i, n);
        }
        i -= 1;
    }
    proof {
        lemma_last_segment_after(s@, -1);
        assert(s@.subrange(0, n as int) =~= s@);
    }
    s
}

/// Relies on `std::time::SystemTime::now` and `duration_since(UNIX_EPOCH)`:
/// whole seconds since the epoch, or `None` where the clock reads earlier.
#[verifier::external_body]
fn seconds_since_epoch() -> (r: Option<u64>) {
    std::time::SystemTime::now().duration_since(std::time::UNIX_EPOCH).ok().map(|d| d.as_secs())
}

/// What `seconds_to_u32` returns.
pub open spec fn seconds_to_u32_spec(secs: Option<u64>) -> u32 {
    match secs {
        Some(s) => (s % 0x1_0000_0000) as u32,
        None => 0u32,
    }
}

/// A clock reading in seconds since the epoch, truncated to 32 bits; 0
/// where the clock could not be read.
pub fn seconds_to_u32(secs: Option<u64>) -> (r: u32)
    ensures
        r == seconds_to_u32_spec(secs),
{
    match secs {
        Some(s) => (s % 0x1_0000_0000) as u32,
        None => 0,
    }
}

/// Wall-clock seconds since the epoch, truncated to 32 bits; 0 where the clock cannot be read.
pub fn now_unix() -> (r: u32)
    ensures
        exists|secs: Option<u64>| r == #[trigger] seconds_to_u32_spec(secs),
{
    let secs = seconds_since_epoch();
    let r = seconds_to_u32(secs);
    assert(r == seconds_to_u32_spec(secs));
    r
}

/// Whether `username` carries an expiry instant later than `now`.
pub fn username_is_fresh_at(username: &str, now: u32) -> (r: bool)
    ensures
        r == fresh_at(username@, now),
{
    match parse_u32(timestamp_field(username)) {
        Some(expiry) => expiry > now,
        None => false,
    }
}

/// Whether `username` carries an expiry instant later than the current time.
pub fn username_is_fresh(username: &str) -> (r: bool)
    ensures
        embedded_expiry(username@) is None ==> !r,
        r ==> (embedded_expiry(username@) matches Some(e) && e > 0),
{
    username_is_fresh_at(username, now_unix())
}

} // verus!
