//! Device and session identifiers.

use vstd::prelude::*;

verus! {

/// Unique identifier for a device (host or client).
#[derive(Debug, Clone, PartialEq, Eq, Hash)]
pub struct DeviceId(pub String);

impl View for DeviceId {
    type V = Seq<char>;

    open spec fn view(&self) -> Seq<char> {
        self.0@
    }
}

impl DeviceId {
    /// Wraps the given text as a device identifier.
    pub fn new(id: String) -> (r: Self)
        ensures
            r@ == id@,
    {
        DeviceId(id)
    }

    /// The identifier's text.
    pub fn as_str(&self) -> (r: &str)
        ensures
            r@ == self@,
    {
        self.0.as_str()
    }

    /// The identifier's text as an owned string (what `Display` shows).
    pub fn to_string(&self) -> (r: String)
        ensures
            r@ == self@,
    {
        self.0.clone()
    }
}

/// Mask of the version nibble and the two variant bits of a UUID held as a
/// big-endian 128-bit value.
pub open spec fn uuid_version_variant_mask() -> u128 {
    0x0000_0000_0000_F000_C000_0000_0000_0000u128
}

/// Version 4 (random) with the RFC 4122 variant, under the mask above.
pub open spec fn uuid_v4_marks() -> u128 {
    0x0000_0000_0000_4000_8000_0000_0000_0000u128
}

/// Whether `v` is a version 4, RFC 4122 variant UUID.
pub open spec fn is_random_uuid(v: u128) -> bool {
    v & uuid_version_variant_mask() == uuid_v4_marks()
}

/// The `k`-th hexadecimal digit (0 = most significant) of the 128-bit value.
pub open spec fn uuid_nibble(v: u128, k: int) -> int {
    (v as int / vstd::arithmetic::power2::pow2((124 - 4 * k) as nat) as int) % 16
}

/// Lower-case hexadecimal digit for 0..16.
pub open spec fn hex_digit(n: int) -> char {
    if n < 10 {
        (48 + n) as char
    } else {
        (87 + n) as char
    }
}

/// Position among the 32 hex digits of character `i` of the hyphenated form.
pub open spec fn uuid_digit_at(i: int) -> int {
    if i < 8 {
        i
    } else if i < 13 {
        i - 1
    } else if i < 18 {
        i - 2
    } else if i < 23 {
        i - 3
    } else {
        i - 4
    }
}

/// The hyphenated lower-case text of a UUID: 8-4-4-4-12 hex digits.
pub open spec fn uuid_text(v: u128) -> Seq<char> {
    Seq::new(
        36,
        |i: int|
            if i == 8 || i == 13 || i == 18 || i == 23 {
                '-'
            } else {
                hex_digit(uuid_nibble(v, uuid_digit_at(i)))
            },
    )
}

/// Calls `uuid::Uuid::new_v4`: a fresh random UUID, returned as its 128-bit
/// big-endian value. The uuid crate masks a random value so that the version
/// nibble reads 4 and the variant bits read `10`; nothing else is known of it.
#[verifier::external_body]
fn random_uuid() -> (v: u128)
    ensures
        is_random_uuid(v),
{
    uuid::Uuid::new_v4().as_u128()
}

/// Calls `Display` of `uuid::Uuid` (its lower-case hyphenated form) on the
/// UUID whose big-endian value is `v`: 36 characters, the 32 hex digits from
/// the most significant one, with hyphens after the 8th, 12th, 16th and 20th.
#[verifier::external_body]
fn uuid_hyphenated(v: u128) -> (s: String)
    ensures
        s@ == uuid_text(v),
{
    uuid::Uuid::from_u128(v).to_string()
}

/// Unique identifier for a remote desktop session: a UUID held as its
/// 128-bit big-endian value.
#[derive(Debug, Clone, Copy, PartialEq, Eq, Hash)]
pub struct SessionId(pub u128);

impl SessionId {
    /// A fresh random (version 4) session identifier.
    pub fn new() -> (r: Self)
        ensures
            is_random_uuid(r.0),
    {
        SessionId(random_uuid())
    }

    /// The UUID's 128-bit big-endian value.
    pub fn as_uuid(&self) -> (r: u128)
        ensures
            r == self.0,
    {
        self.0
    }

    /// The hyphenated lower-case text of the UUID (what `Display` shows).
    pub fn to_string(&self) -> (r: String)
        ensures
            r@ == uuid_text(self.0),
    {
        uuid_hyphenated(self.0)
    }
}

impl Default for SessionId {
    fn default() -> (r: Self)
        ensures
            is_random_uuid(r.0),
    {
        SessionId::new()
    }
}

/// The text of a session identifier is 36 characters long, with hyphens at
/// positions 8, 13, 18 and 23 and lower-case hex digits everywhere else.
pub proof fn session_text_shape(v: u128)
    ensures
        uuid_text(v).len() == 36,
        uuid_text(v)[8] == '-' && uuid_text(v)[13] == '-' && uuid_text(v)[18] == '-'
            && uuid_text(v)[23] == '-',
        forall|i: int|
            0 <= i < 36 && i != 8 && i != 13 && i != 18 && i != 23 ==> {
                let c = #[trigger] uuid_text(v)[i];
                ('0' <= c <= '9') || ('a' <= c <= 'f')
            },
{
    assert forall|i: int|
        0 <= i < 36 && i != 8 && i != 13 && i != 18 && i != 23 implies {
            let c = #[trigger] uuid_text(v)[i];
            ('0' <= c <= '9') || ('a' <= c <= 'f')
        } by {
        let k = uuid_digit_at(i);
        let p = vstd::arithmetic::power2::pow2((124 - 4 * k) as nat) as int;
        vstd::arithmetic::power2::lemma_pow2_pos((124 - 4 * k) as nat);
        let n = uuid_nibble(v, k);
        assert(0 <= n < 16);
    }
}

/// Different digits are written differently.
proof fn lemma_hex_digit_injective(n: int, m: int)
    requires
        0 <= n < 16,
        0 <= m < 16,
        hex_digit(n) == hex_digit(m),
    ensures
        n == m,
{
    let cn = hex_digit(n);
    let cm = hex_digit(m);
    assert(cn as int == if n < 10 { 48 + n } else { 87 + n });
    assert(cm as int == if m < 10 { 48 + m } else { 87 + m });
}

/// The value of the `t` most significant hex digits of `v`.
spec fn uuid_top(v: u128, t: nat) -> int {
    v as int / vstd::arithmetic::power2::pow2((128 - 4 * t) as nat) as int
}

/// Each further hex digit extends the value of the digits before it.
proof fn lemma_uuid_top_step(v: u128, t: nat)
    requires
        1 <= t <= 32,
    ensures
        uuid_top(v, t) == uuid_top(v, (t - 1) as nat) * 16 + uuid_nibble(v, t - 1),
        0 <= uuid_nibble(v, t - 1) < 16,
{
    let n = (128 - 4 * t) as nat;
    let p = vstd::arithmetic::power2::pow2(n) as int;
    vstd::arithmetic::power2::lemma_pow2_pos(n);
    vstd::arithmetic::power2::lemma_pow2_adds(n, 4);
    vstd::arithmetic::power2::lemma2_to64();
    assert((128 - 4 * (t - 1)) as nat == n + 4);
    assert(124 - 4 * (t - 1) == n);
    let x = v as int / p;
    assert(x >= 0) by (nonlinear_arith)
        requires
            v as int >= 0,
            p > 0,
            x == v as int / p,
    ;
    vstd::arithmetic::div_mod::lemma_div_denominator(v as int, p, 16);
    vstd::arithmetic::div_mod::lemma_fundamental_div_mod(x, 16);
    vstd::arithmetic::div_mod::lemma_mod_pos_bound(x, 16);
    assert(uuid_top(v, (t - 1) as nat) == x / 16);
    assert(uuid_top(v, t) == x);
    assert(uuid_nibble(v, t - 1) == x % 16);
}

/// Two values whose first `t` hex digits agree agree on their top `t`
/// digits' value.
proof fn lemma_uuid_top_equal(a: u128, b: u128, t: nat)
    requires
        t <= 32,
        forall|k: int| 0 <= k < t ==> uuid_nibble(a, k) == uuid_nibble(b, k),
    ensures
        uuid_top(a, t) == uuid_top(b, t),
    decreases t,
{
    if t == 0 {
        vstd::arithmetic::power2::lemma_pow2_adds(64, 64);
        vstd::arithmetic::power2::lemma2_to64();
        let p = vstd::arithmetic::power2::pow2(128) as int;
        assert(p == 0x10000000000000000 * 0x10000000000000000);
        vstd::arithmetic::div_mod::lemma_basic_div(a as int, p);
        vstd::arithmetic::div_mod::lemma_basic_div(b as int, p);
    } else {
        lemma_uuid_top_equal(a, b, (t - 1) as nat);
        lemma_uuid_top_step(a, t);
        lemma_uuid_top_step(b, t);
    }
}

/// The text of a session identifier determines it: two identifiers with the
/// same text are the same identifier, so the text can be read back.
pub proof fn session_text_identifies_session(a: u128, b: u128)
    requires
        uuid_text(a) == uuid_text(b),
    ensures
        a == b,
{
    assert forall|k: int| 0 <= k < 32 implies uuid_nibble(a, k) == uuid_nibble(b, k) by {
        let i = if k < 8 {
            k
        } else if k < 12 {
            k + 1
        } else if k < 16 {
            k + 2
        } else if k < 20 {
            k + 3
        } else {
            k + 4
        };
        assert(uuid_digit_at(i) == k);
        assert(uuid_text(a)[i] == uuid_text(b)[i]);
        assert(i != 8 && i != 13 && i != 18 && i != 23 && 0 <= i < 36);
        assert(uuid_text(a)[i] == hex_digit(uuid_nibble(a, k)));
        assert(uuid_text(b)[i] == hex_digit(uuid_nibble(b, k)));
        lemma_uuid_top_step(a, (k + 1) as nat);
        lemma_uuid_top_step(b, (k + 1) as nat);
        lemma_hex_digit_injective(uuid_nibble(a, k), uuid_nibble(b, k));
    }
    lemma_uuid_top_equal(a, b, 32);
    vstd::arithmetic::power2::lemma2_to64();
    let z = (128 - 4 * 32nat) as nat;
    assert(z == 0);
    assert(vstd::arithmetic::power2::pow2(z) == 1);
    assert(uuid_top(a, 32) == a as int / vstd::arithmetic::power2::pow2(z) as int);
    vstd::arithmetic::div_mod::lemma_div_basics(a as int);
    vstd::arithmetic::div_mod::lemma_div_basics(b as int);
    assert(uuid_top(a, 32) == a as int);
    assert(uuid_top(b, 32) == b as int);
}

} // verus!
