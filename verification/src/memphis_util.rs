//! Name canonicalisation: lowercasing with an optional random suffix, the
//! broker-internal form of a name, and the partition hash.

use vstd::prelude::*;
use crate::text::push_char;

verus! {

/// What `str::to_lowercase` returns for the given characters.
pub uninterp spec fn lower_of(s: Seq<char>) -> Seq<char>;

/// What `murmur3::murmur3_32` returns for the given characters and seed.
pub uninterp spec fn murmur3_of(key: Seq<char>, seed: u32) -> u32;

/// Relies on str::to_lowercase: the result is a function of the characters
/// alone; the empty string stays empty.
#[verifier::external_body]
fn to_lowercase(s: &str) -> (r: String)
    ensures
        r@ == lower_of(s@),
        s@.len() == 0 ==> r@.len() == 0,
{
    s.to_lowercase()
}

/// Relies on rand::random: draws one machine word of randomness. Nothing is
/// promised of the value.
#[verifier::external_body]
fn random_word() -> u64 {
    rand::random::<u64>()
}

/// Relies on murmur3::murmur3_32: a pure digest of the key and the seed.
/// Reading from an in-memory cursor cannot fail, so the digest itself is
/// returned; a failed read would fall back to zero.
#[verifier::external_body]
fn murmur3_digest(key: &str, seed: u32) -> (r: u32)
    ensures
        r == murmur3_of(key@, seed),
{
    murmur3::murmur3_32(&mut std::io::Cursor::new(key), seed).unwrap_or(0)
}

/// The broker-internal form of a name: every `.` replaced by `#`, because
/// dots collide with the transport's subject syntax.
pub open spec fn internal_of(s: Seq<char>) -> Seq<char> {
    s.map_values(|c: char| if c == '.' { '#' } else { c })
}

/// A lowercase hex character.
pub open spec fn is_hex_char(c: char) -> bool {
    ('0' <= c && c <= '9') || ('a' <= c && c <= 'f')
}

/// Replaces every `.` with `#`.
pub fn get_internal_name(name: &str) -> (r: String)
    ensures
        r@ == internal_of(name@),
{
    let len = name.unicode_len();
    let mut out = String::new();
    let mut i: usize = 0;
    while i < len
        invariant
            i <= len,
            len == name@.len(),
            out@ == internal_of(name@.take(i as int)),
        decreases len - i,
    {
        let c = name.get_char(i);
        if c == '.' {
            push_char(&mut out, '#');
        } else {
            push_char(&mut out, c);
        }
        proof {
            assert(out@ =~= internal_of(name@.take(i + 1)));
        }
        i = i + 1;
    }
    proof {
        assert(name@.take(len as int) =~= name@);
    }
    out
}

/// A key of `size` random lowercase hex characters (empty for sizes below
/// one).
pub fn get_unique_key(size: i32) -> (k: String)
    ensures
        k@.len() == if size <= 0 { 0int } else { size as int },
        forall|i: int| 0 <= i < k@.len() ==> is_hex_char(#[trigger] k@[i]),
{
    let mut k = String::new();
    if size <= 0 {
        return k;
    }
    let n: u32 = size as u32;
    let mut i: u32 = 0;
    while i < n
        invariant
            i <= n,
            k@.len() == i as int,
            forall|j: int| 0 <= j < k@.len() ==> is_hex_char(#[trigger] k@[j]),
        decreases n - i,
    {
        let w = random_word();
        let c = crate::text::hex_to_char((w % 16) as u8);
        proof {
            assert(is_hex_char(c));
        }
        push_char(&mut k, c);
        i = i + 1;
    }
    k
}

/// Lowercases the name in place and, on request, appends `_` and eight
/// random hex characters so that the name is unique among clients.
pub fn sanitize_name(name: &mut String, generate_suffix: bool)
    ensures
        !generate_suffix ==> final(name)@ == lower_of(old(name)@),
        generate_suffix ==> {
            let lowered = lower_of(old(name)@);
            &&& final(name)@.len() == lowered.len() + 9
            &&& final(name)@.take(lowered.len() as int) == lowered
            &&& final(name)@[lowered.len() as int] == '_'
            &&& forall|i: int|
                lowered.len() + 1 <= i < final(name)@.len() ==> is_hex_char(#[trigger] final(name)@[i])
        },
{
    let lowered = to_lowercase(name.as_str());
    *name = lowered;
    if generate_suffix {
        push_char(name, '_');
        let key = get_unique_key(8);
        name.append(key.as_str());
        proof {
            let lowered_view = lower_of(old(name)@);
            assert(name@.take(lowered_view.len() as int) =~= lowered_view);
        }
    }
}

/// The partition a key is routed to: the murmur3 digest with seed 31, taken
/// modulo the partition count.
pub fn get_partition_key(key: &str, partition_count: u32) -> (r: u32)
    requires
        partition_count >= 1,
    ensures
        r == murmur3_of(key@, 31) % partition_count,
{
    murmur3_digest(key, 31) % partition_count
}

} // verus!
