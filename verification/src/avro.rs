//! Primitives of the compact binary record encoding used by alert packets:
//! zig-zag varint integers, little-endian scalars carried as raw bit patterns,
//! length-prefixed byte buffers and strings, and nullable unions.
//!
//! The specification functions `dec_*` define the format: each reads one value
//! at position `i` of a byte sequence and yields the value with the position
//! just past it, or `None` on a structural mismatch. The executable readers
//! return exactly what the specification decoders define, and the executable
//! writers emit exactly the `enc_*` sequences, which the `lemma_read_*` lemmas
//! prove decode back to the written value.

use vstd::prelude::*;

verus! {

use vstd::utf8::{valid_utf8, decode_utf8, encode_utf8};

broadcast use vstd::seq::group_seq_axioms;

/// Splits `s.skip(i) == a + b` into the two bordering facts a reader needs:
/// `a` sits at position `i` and `b` begins right after it.
pub proof fn lemma_skip_split(s: Seq<u8>, i: int, a: Seq<u8>, b: Seq<u8>)
    requires
        0 <= i <= s.len(),
        s.skip(i) == a + b,
    ensures
        i + a.len() + b.len() == s.len(),
        s.subrange(i, i + a.len()) == a,
        s.skip(i + a.len()) == b,
{
    assert(s.skip(i).len() == s.len() - i);
    assert forall|k: int| 0 <= k < b.len() implies s.skip(i + a.len())[k] == b[k] by {
        assert((a + b)[a.len() + k] == b[k]);
        assert(s.skip(i)[a.len() + k] == s[i + a.len() + k]);
        assert(s.skip(i + a.len())[k] == s[i + a.len() + k]);
    }
    assert(s.skip(i + a.len()) =~= b);
    assert forall|k: int| 0 <= k < a.len() implies s.subrange(i, i + a.len())[k] == a[k] by {
        assert((a + b)[k] == a[k]);
        assert(s.skip(i)[k] == s[i + k]);
        assert(s.subrange(i, i + a.len())[k] == s[i + k]);
    }
    assert(s.subrange(i, i + a.len()) =~= a);
}

/// A push is a concatenation with a singleton.
pub proof fn lemma_push_concat<A>(s: Seq<A>, x: A)
    ensures
        s.push(x) == s + seq![x],
{
    assert(s.push(x) =~= s + seq![x]);
}

/// Reassociates a concatenation hypothesis one step to the right.
pub proof fn lemma_concat_assoc<A>(a: Seq<A>, b: Seq<A>, c: Seq<A>)
    ensures
        (a + b) + c == a + (b + c),
{
    assert((a + b) + c =~= a + (b + c));
}

// ---------------------------------------------------------------------------
// zig-zag mapping between signed and unsigned 64-bit integers
// ---------------------------------------------------------------------------

/// Zig-zag image of a signed integer: non-negative n maps to 2n, negative n to -2n - 1.
pub open spec fn zigzag(n: i64) -> u64 {
    if n >= 0 {
        (2 * (n as int)) as u64
    } else {
        ((-2 * (n as int)) - 1) as u64
    }
}

/// Inverse of the zig-zag mapping.
pub open spec fn unzigzag(z: u64) -> i64 {
    if z % 2 == 0 {
        ((z / 2) as int) as i64
    } else {
        (-(((z as int) + 1) / 2)) as i64
    }
}

pub proof fn lemma_unzigzag_zigzag(n: i64)
    ensures
        unzigzag(zigzag(n)) == n,
{
}

// ---------------------------------------------------------------------------
// base-128 varints
// ---------------------------------------------------------------------------

/// Little-endian base-128 encoding with a continuation bit on every byte but the last.
pub open spec fn enc_varint(x: u64) -> Seq<u8>
    decreases x,
{
    if x < 128 {
        seq![x as u8]
    } else {
        seq![(x % 128 + 128) as u8] + enc_varint(x / 128)
    }
}

/// Reads a varint; accepts non-minimal encodings, rejects values over 64 bits.
pub open spec fn dec_varint(s: Seq<u8>, i: int) -> Option<(u64, int)>
    decreases s.len() - i,
{
    if i < 0 || i >= s.len() {
        None
    } else {
        let b = s[i];
        if b < 128 {
            Some((b as u64, i + 1))
        } else {
            match dec_varint(s, i + 1) {
                None => None,
                Some((v, j)) => {
                    let val = (b - 128) + 128 * v;
                    if val <= u64::MAX {
                        Some((val as u64, j))
                    } else {
                        None
                    }
                },
            }
        }
    }
}

/// A successful varint read lands strictly past `i` and within the sequence.
pub proof fn lemma_dec_varint_range(s: Seq<u8>, i: int)
    ensures
        dec_varint(s, i) matches Some((v, j)) ==> i < j <= s.len(),
    decreases s.len() - i,
{
    if 0 <= i < s.len() {
        if s[i] >= 128 {
            lemma_dec_varint_range(s, i + 1);
        }
    }
}


/// Every varint takes at least one byte.
pub proof fn lemma_enc_varint_len(x: u64)
    ensures
        enc_varint(x).len() >= 1,
{
}

pub proof fn lemma_read_varint(x: u64, s: Seq<u8>, i: int, rest: Seq<u8>)
    requires
        0 <= i <= s.len(),
        s.skip(i) == enc_varint(x) + rest,
    ensures
        i + enc_varint(x).len() <= s.len(),
        dec_varint(s, i) == Some((x, i + enc_varint(x).len())),
        s.skip(i + enc_varint(x).len()) == rest,
    decreases x,
{
    if x < 128 {
        lemma_skip_split(s, i, seq![x as u8], rest);
        assert(s[i] == s.subrange(i, i + 1)[0]);
    } else {
        lemma_concat_assoc(seq![(x % 128 + 128) as u8], enc_varint(x / 128), rest);
        lemma_skip_split(s, i, seq![(x % 128 + 128) as u8], enc_varint(x / 128) + rest);
        assert(s[i] == s.subrange(i, i + 1)[0]);
        lemma_read_varint(x / 128, s, i + 1, rest);
        assert((s[i] - 128) + 128 * (x / 128) == x);
    }
}

/// Reads one varint from `bytes` starting at `pos`.
pub fn read_varint(bytes: &[u8], pos: usize) -> (r: Option<(u64, usize)>)
    ensures
        match r {
            Some((v, j)) => dec_varint(bytes@, pos as int) == Some((v, j as int)),
            None => dec_varint(bytes@, pos as int) is None,
        },
    decreases bytes@.len() - pos,
{
    if pos >= bytes.len() {
        return None;
    }
    let b = bytes[pos];
    if b < 128 {
        Some((b as u64, pos + 1))
    } else {
        match read_varint(bytes, pos + 1) {
            None => None,
            Some((v, j)) => {
                let lo: u64 = (b - 128) as u64;
                if v <= (u64::MAX - lo) / 128 {
                    proof {
                        assert(lo + 128 * v <= u64::MAX);
                    }
                    Some((lo + 128 * v, j))
                } else {
                    proof {
                        assert(lo + 128 * v > u64::MAX);
                    }
                    None
                }
            },
        }
    }
}

/// Appends the varint encoding of `x` to `out`.
pub fn write_varint(out: &mut Vec<u8>, x: u64)
    ensures
        final(out)@ == old(out)@ + enc_varint(x),
    decreases x,
{
    if x < 128 {
        out.push(x as u8);
        assert(out@ =~= old(out)@ + enc_varint(x));
    } else {
        out.push((x % 128 + 128) as u8);
        write_varint(out, x / 128);
        assert(out@ =~= old(out)@ + enc_varint(x));
    }
}

// ---------------------------------------------------------------------------
// long (zig-zag varint) and int
// ---------------------------------------------------------------------------

pub open spec fn enc_long(n: i64) -> Seq<u8> {
    enc_varint(zigzag(n))
}

pub open spec fn dec_long(s: Seq<u8>, i: int) -> Option<(i64, int)> {
    match dec_varint(s, i) {
        None => None,
        Some((z, j)) => Some((unzigzag(z), j)),
    }
}

pub proof fn lemma_read_long(n: i64, s: Seq<u8>, i: int, rest: Seq<u8>)
    requires
        0 <= i <= s.len(),
        s.skip(i) == enc_long(n) + rest,
    ensures
        i + enc_long(n).len() <= s.len(),
        dec_long(s, i) == Some((n, i + enc_long(n).len())),
        s.skip(i + enc_long(n).len()) == rest,
{
    lemma_read_varint(zigzag(n), s, i, rest);
    lemma_unzigzag_zigzag(n);
}

pub fn read_long(bytes: &[u8], pos: usize) -> (r: Option<(i64, usize)>)
    ensures
        match r {
            Some((v, j)) => dec_long(bytes@, pos as int) == Some((v, j as int)),
            None => dec_long(bytes@, pos as int) is None,
        },
{
    match read_varint(bytes, pos) {
        None => None,
        Some((z, j)) => {
            let v: i64 = if z % 2 == 0 {
                (z / 2) as i64
            } else {
                let half: u64 = z / 2;
                proof {
                    assert(-(((z as int) + 1) / 2) == -(half as int) - 1);
                }
                (-((half) as i64)) - 1
            };
            Some((v, j))
        },
    }
}

pub fn write_long(out: &mut Vec<u8>, n: i64)
    ensures
        final(out)@ == old(out)@ + enc_long(n),
{
    let z: u64 = if n >= 0 {
        2 * (n as u64)
    } else {
        let m: u64 = (-(n + 1)) as u64;
        2 * m + 1
    };
    proof {
        assert(z == zigzag(n));
    }
    write_varint(out, z);
}

/// 32-bit integers use the same wire form as longs, restricted to the i32 range.
pub open spec fn enc_int(n: i32) -> Seq<u8> {
    enc_long(n as i64)
}

pub open spec fn dec_int(s: Seq<u8>, i: int) -> Option<(i32, int)> {
    match dec_long(s, i) {
        None => None,
        Some((v, j)) => if i32::MIN <= v <= i32::MAX {
            Some((v as i32, j))
        } else {
            None
        },
    }
}

pub proof fn lemma_read_int(n: i32, s: Seq<u8>, i: int, rest: Seq<u8>)
    requires
        0 <= i <= s.len(),
        s.skip(i) == enc_int(n) + rest,
    ensures
        i + enc_int(n).len() <= s.len(),
        dec_int(s, i) == Some((n, i + enc_int(n).len())),
        s.skip(i + enc_int(n).len()) == rest,
{
    lemma_read_long(n as i64, s, i, rest);
}

pub fn read_int(bytes: &[u8], pos: usize) -> (r: Option<(i32, usize)>)
    ensures
        match r {
            Some((v, j)) => dec_int(bytes@, pos as int) == Some((v, j as int)),
            None => dec_int(bytes@, pos as int) is None,
        },
{
    match read_long(bytes, pos) {
        None => None,
        Some((v, j)) => {
            if i32::MIN as i64 <= v && v <= i32::MAX as i64 {
                Some((v as i32, j))
            } else {
                None
            }
        },
    }
}

pub fn write_int(out: &mut Vec<u8>, n: i32)
    ensures
        final(out)@ == old(out)@ + enc_int(n),
{
    write_long(out, n as i64);
}

// ---------------------------------------------------------------------------
// fixed-width little-endian scalars, carried as raw bit patterns
// ---------------------------------------------------------------------------

pub open spec fn pow256(n: nat) -> int
    decreases n,
{
    if n == 0 {
        1
    } else {
        256 * pow256((n - 1) as nat)
    }
}

/// Little-endian bytes of the `n` low-order base-256 digits of `x`.
pub open spec fn le_bytes(x: int, n: nat) -> Seq<u8>
    decreases n,
{
    if n == 0 {
        seq![]
    } else {
        seq![(x % 256) as u8] + le_bytes(x / 256, (n - 1) as nat)
    }
}

/// Value of `n` little-endian bytes of `s` starting at `i`.
pub open spec fn le_val(s: Seq<u8>, i: int, n: nat) -> int
    decreases n,
{
    if n == 0 {
        0
    } else {
        s[i] + 256 * le_val(s, i + 1, (n - 1) as nat)
    }
}

pub proof fn lemma_le_val_bound(s: Seq<u8>, i: int, n: nat)
    ensures
        0 <= le_val(s, i, n) < pow256(n),
    decreases n,
{
    if n == 0 {
    } else {
        lemma_le_val_bound(s, i + 1, (n - 1) as nat);
    }
}

pub proof fn lemma_read_le(x: int, s: Seq<u8>, i: int, n: nat, rest: Seq<u8>)
    requires
        0 <= i <= s.len(),
        0 <= x < pow256(n),
        s.skip(i) == le_bytes(x, n) + rest,
    ensures
        le_bytes(x, n).len() == n,
        i + n <= s.len(),
        le_val(s, i, n) == x,
        s.skip(i + n) == rest,
    decreases n,
{
    if n == 0 {
        assert(s.skip(i) =~= rest);
    } else {
        lemma_concat_assoc(seq![(x % 256) as u8], le_bytes(x / 256, (n - 1) as nat), rest);
        lemma_skip_split(s, i, seq![(x % 256) as u8], le_bytes(x / 256, (n - 1) as nat) + rest);
        assert(s[i] == s.subrange(i, i + 1)[0]);
        assert(s[i] == (x % 256) as u8);
        lemma_read_le(x / 256, s, i + 1, (n - 1) as nat, rest);
        assert(le_val(s, i, n) == s[i] + 256 * (x / 256));
    }
}

/// An 8-byte scalar: the bit pattern of a 64-bit floating-point value.
pub open spec fn enc_double(bits: u64) -> Seq<u8> {
    le_bytes(bits as int, 8)
}

pub open spec fn dec_double(s: Seq<u8>, i: int) -> Option<(u64, int)> {
    if 0 <= i && i + 8 <= s.len() {
        Some((le_val(s, i, 8) as u64, i + 8))
    } else {
        None
    }
}

/// A 4-byte scalar: the bit pattern of a 32-bit floating-point value.
pub open spec fn enc_single(bits: u32) -> Seq<u8> {
    le_bytes(bits as int, 4)
}

pub open spec fn dec_single(s: Seq<u8>, i: int) -> Option<(u32, int)> {
    if 0 <= i && i + 4 <= s.len() {
        Some((le_val(s, i, 4) as u32, i + 4))
    } else {
        None
    }
}

pub proof fn lemma_pow256_values()
    ensures
        pow256(4) == 0x1_0000_0000,
        pow256(8) == 0x1_0000_0000_0000_0000,
{
    reveal_with_fuel(pow256, 9);
}

pub proof fn lemma_read_double(bits: u64, s: Seq<u8>, i: int, rest: Seq<u8>)
    requires
        0 <= i <= s.len(),
        s.skip(i) == enc_double(bits) + rest,
    ensures
        enc_double(bits).len() == 8,
        i + 8 <= s.len(),
        dec_double(s, i) == Some((bits, i + 8)),
        s.skip(i + 8) == rest,
{
    lemma_pow256_values();
    lemma_read_le(bits as int, s, i, 8, rest);
    lemma_le_val_bound(s, i, 8);
}

pub proof fn lemma_read_single(bits: u32, s: Seq<u8>, i: int, rest: Seq<u8>)
    requires
        0 <= i <= s.len(),
        s.skip(i) == enc_single(bits) + rest,
    ensures
        enc_single(bits).len() == 4,
        i + 4 <= s.len(),
        dec_single(s, i) == Some((bits, i + 4)),
        s.skip(i + 4) == rest,
{
    lemma_pow256_values();
    lemma_read_le(bits as int, s, i, 4, rest);
    lemma_le_val_bound(s, i, 4);
}

pub fn read_double(bytes: &[u8], pos: usize) -> (r: Option<(u64, usize)>)
    ensures
        match r {
            Some((v, j)) => dec_double(bytes@, pos as int) == Some((v, j as int)),
            None => dec_double(bytes@, pos as int) is None,
        },
{
    if pos < bytes.len() && bytes.len() - pos >= 8 {
        let b0: u64 = bytes[pos] as u64;
        let b1: u64 = bytes[pos + 1] as u64;
        let b2: u64 = bytes[pos + 2] as u64;
        let b3: u64 = bytes[pos + 3] as u64;
        let b4: u64 = bytes[pos + 4] as u64;
        let b5: u64 = bytes[pos + 5] as u64;
        let b6: u64 = bytes[pos + 6] as u64;
        let b7: u64 = bytes[pos + 7] as u64;
        let v: u64 = b0 + 256 * (b1 + 256 * (b2 + 256 * (b3 + 256 * (b4 + 256 * (b5 + 256 * (b6
            + 256 * b7))))));
        proof {
            reveal_with_fuel(le_val, 9);
            assert(le_val(bytes@, pos as int, 8) == v);
        }
        Some((v, pos + 8))
    } else {
        None
    }
}

pub fn read_single(bytes: &[u8], pos: usize) -> (r: Option<(u32, usize)>)
    ensures
        match r {
            Some((v, j)) => dec_single(bytes@, pos as int) == Some((v, j as int)),
            None => dec_single(bytes@, pos as int) is None,
        },
{
    if pos < bytes.len() && bytes.len() - pos >= 4 {
        let b0: u32 = bytes[pos] as u32;
        let b1: u32 = bytes[pos + 1] as u32;
        let b2: u32 = bytes[pos + 2] as u32;
        let b3: u32 = bytes[pos + 3] as u32;
        let v: u32 = b0 + 256 * (b1 + 256 * (b2 + 256 * b3));
        proof {
            reveal_with_fuel(le_val, 5);
            assert(le_val(bytes@, pos as int, 4) == v);
        }
        Some((v, pos + 4))
    } else {
        None
    }
}

pub fn write_double(out: &mut Vec<u8>, bits: u64)
    ensures
        final(out)@ == old(out)@ + enc_double(bits),
{
    let mut x: u64 = bits;
    out.push((x % 256) as u8);
    x = x / 256;
    out.push((x % 256) as u8);
    x = x / 256;
    out.push((x % 256) as u8);
    x = x / 256;
    out.push((x % 256) as u8);
    x = x / 256;
    out.push((x % 256) as u8);
    x = x / 256;
    out.push((x % 256) as u8);
    x = x / 256;
    out.push((x % 256) as u8);
    x = x / 256;
    out.push((x % 256) as u8);
    proof {
        reveal_with_fuel(le_bytes, 9);
        assert(out@ =~= old(out)@ + enc_double(bits));
    }
}

pub fn write_single(out: &mut Vec<u8>, bits: u32)
    ensures
        final(out)@ == old(out)@ + enc_single(bits),
{
    let mut x: u32 = bits;
    out.push((x % 256) as u8);
    x = x / 256;
    out.push((x % 256) as u8);
    x = x / 256;
    out.push((x % 256) as u8);
    x = x / 256;
    out.push((x % 256) as u8);
    proof {
        reveal_with_fuel(le_bytes, 5);
        assert(out@ =~= old(out)@ + enc_single(bits));
    }
}

// ---------------------------------------------------------------------------
// booleans
// ---------------------------------------------------------------------------

pub open spec fn enc_bool(b: bool) -> Seq<u8> {
    seq![if b { 1u8 } else { 0u8 }]
}

pub open spec fn dec_bool(s: Seq<u8>, i: int) -> Option<(bool, int)> {
    if 0 <= i < s.len() {
        if s[i] == 0 {
            Some((false, i + 1))
        } else if s[i] == 1 {
            Some((true, i + 1))
        } else {
            None
        }
    } else {
        None
    }
}

pub proof fn lemma_read_bool(b: bool, s: Seq<u8>, i: int, rest: Seq<u8>)
    requires
        0 <= i <= s.len(),
        s.skip(i) == enc_bool(b) + rest,
    ensures
        i + 1 <= s.len(),
        dec_bool(s, i) == Some((b, i + 1)),
        s.skip(i + 1) == rest,
{
    lemma_skip_split(s, i, enc_bool(b), rest);
    assert(s[i] == s.subrange(i, i + 1)[0]);
}

pub fn read_bool(bytes: &[u8], pos: usize) -> (r: Option<(bool, usize)>)
    ensures
        match r {
            Some((v, j)) => dec_bool(bytes@, pos as int) == Some((v, j as int)),
            None => dec_bool(bytes@, pos as int) is None,
        },
{
    if pos < bytes.len() {
        let b = bytes[pos];
        if b == 0 {
            Some((false, pos + 1))
        } else if b == 1 {
            Some((true, pos + 1))
        } else {
            None
        }
    } else {
        None
    }
}

pub fn write_bool(out: &mut Vec<u8>, b: bool)
    ensures
        final(out)@ == old(out)@ + enc_bool(b),
{
    out.push(if b { 1u8 } else { 0u8 });
    assert(out@ =~= old(out)@ + enc_bool(b));
}

// ---------------------------------------------------------------------------
// byte buffers and strings (length-prefixed)
// ---------------------------------------------------------------------------

pub open spec fn enc_bytes(b: Seq<u8>) -> Seq<u8> {
    enc_long(b.len() as i64) + b
}

pub open spec fn dec_bytes(s: Seq<u8>, i: int) -> Option<(Seq<u8>, int)> {
    match dec_long(s, i) {
        None => None,
        Some((n, j)) => if n < 0 {
            None
        } else if j + n <= s.len() {
            Some((s.subrange(j, j + n), j + n))
        } else {
            None
        },
    }
}

pub proof fn lemma_read_bytes(b: Seq<u8>, s: Seq<u8>, i: int, rest: Seq<u8>)
    requires
        0 <= i <= s.len(),
        b.len() <= i64::MAX,
        s.skip(i) == enc_bytes(b) + rest,
    ensures
        i + enc_bytes(b).len() <= s.len(),
        dec_bytes(s, i) == Some((b, i + enc_bytes(b).len())),
        s.skip(i + enc_bytes(b).len()) == rest,
{
    let n = b.len() as i64;
    lemma_concat_assoc(enc_long(n), b, rest);
    lemma_read_long(n, s, i, b + rest);
    let j = i + enc_long(n).len();
    lemma_skip_split(s, j, b, rest);
}

pub fn read_bytes(bytes: &[u8], pos: usize) -> (r: Option<(Vec<u8>, usize)>)
    ensures
        match r {
            Some((v, j)) => dec_bytes(bytes@, pos as int) == Some((v@, j as int)),
            None => dec_bytes(bytes@, pos as int) is None,
        },
{
    match read_long(bytes, pos) {
        None => None,
        Some((n, j)) => {
            proof {
                lemma_dec_varint_range(bytes@, pos as int);
            }
            if n < 0 {
                return None;
            }
            if (n as u64) <= (bytes.len() - j) as u64 {
                let end: usize = j + (n as usize);
                let mut v: Vec<u8> = Vec::new();
                let mut k: usize = j;
                while k < end
                    invariant
                        j <= k <= end <= bytes.len(),
                        v@ =~= bytes@.subrange(j as int, k as int),
                    decreases end - k,
                {
                    v.push(bytes[k]);
                    assert(v@ =~= bytes@.subrange(j as int, k + 1 as int));
                    k = k + 1;
                }
                assert(v@ =~= bytes@.subrange(j as int, j + n as int));
                Some((v, end))
            } else {
                None
            }
        },
    }
}

pub fn write_bytes(out: &mut Vec<u8>, b: &[u8])
    requires
        b@.len() <= i64::MAX,
    ensures
        final(out)@ == old(out)@ + enc_bytes(b@),
{
    write_long(out, b.len() as i64);
    let ghost mid = out@;
    let mut k: usize = 0;
    while k < b.len()
        invariant
            k <= b@.len(),
            out@ =~= mid + b@.subrange(0, k as int),
    decreases b@.len() - k,
    {
        out.push(b[k]);
        assert(out@ =~= mid + b@.subrange(0, k + 1 as int));
        k = k + 1;
    }
    assert(out@ =~= old(out)@ + enc_bytes(b@));
}

/// A string is a length-prefixed UTF-8 byte buffer.
pub open spec fn enc_string(c: Seq<char>) -> Seq<u8> {
    enc_bytes(encode_utf8(c))
}

pub open spec fn dec_string(s: Seq<u8>, i: int) -> Option<(Seq<char>, int)> {
    match dec_bytes(s, i) {
        None => None,
        Some((b, j)) => if valid_utf8(b) {
            Some((decode_utf8(b), j))
        } else {
            None
        },
    }
}

pub proof fn lemma_read_string(c: Seq<char>, s: Seq<u8>, i: int, rest: Seq<u8>)
    requires
        0 <= i <= s.len(),
        encode_utf8(c).len() <= i64::MAX,
        s.skip(i) == enc_string(c) + rest,
    ensures
        i + enc_string(c).len() <= s.len(),
        dec_string(s, i) == Some((c, i + enc_string(c).len())),
        s.skip(i + enc_string(c).len()) == rest,
{
    lemma_read_bytes(encode_utf8(c), s, i, rest);
    vstd::utf8::encode_utf8_valid_utf8(c);
    vstd::utf8::encode_utf8_decode_utf8(c);
}

/// Relies on String::from_utf8: succeeds exactly on valid UTF-8 input and
/// yields the decoding of those bytes.
#[verifier::external_body]
fn utf8_to_string(b: Vec<u8>) -> (r: Option<String>)
    ensures
        match r {
            Some(s) => valid_utf8(b@) && s@ == decode_utf8(b@),
            None => !valid_utf8(b@),
        },
{
    match String::from_utf8(b) {
        Ok(s) => Some(s),
        Err(_) => None,
    }
}

pub fn read_string(bytes: &[u8], pos: usize) -> (r: Option<(String, usize)>)
    ensures
        match r {
            Some((v, j)) => dec_string(bytes@, pos as int) == Some((v@, j as int)),
            None => dec_string(bytes@, pos as int) is None,
        },
{
    match read_bytes(bytes, pos) {
        None => None,
        Some((b, j)) => match utf8_to_string(b) {
            None => None,
            Some(s) => Some((s, j)),
        },
    }
}

pub fn write_string(out: &mut Vec<u8>, s: &str)
    requires
        encode_utf8(s@).len() <= i64::MAX,
    ensures
        final(out)@ == old(out)@ + enc_string(s@),
{
    let b = s.as_bytes();
    write_bytes(out, b);
}

// ---------------------------------------------------------------------------
// nullable unions: index 0 is null, index 1 carries the value
// ---------------------------------------------------------------------------

pub open spec fn enc_opt_long(v: Option<i64>) -> Seq<u8> {
    match v {
        None => seq![0u8],
        Some(x) => seq![2u8] + enc_long(x),
    }
}

pub open spec fn dec_opt_long(s: Seq<u8>, i: int) -> Option<(Option<i64>, int)> {
    match dec_varint(s, i) {
        None => None,
        Some((tag, j)) => if tag == 0 {
            Some((Option::<i64>::None, j))
        } else if tag == 2 {
            match dec_long(s, j) {
                None => None,
                Some((x, k)) => Some((Some(x), k)),
            }
        } else {
            None
        },
    }
}

pub proof fn lemma_read_opt_long(v: Option<i64>, s: Seq<u8>, i: int, rest: Seq<u8>)
    requires
        0 <= i <= s.len(),
        s.skip(i) == enc_opt_long(v) + rest,
    ensures
        i + enc_opt_long(v).len() <= s.len(),
        dec_opt_long(s, i) == Some((v, i + enc_opt_long(v).len())),
        s.skip(i + enc_opt_long(v).len()) == rest,
{
    match v {
        None => {
            assert(enc_opt_long(v) =~= enc_varint(0u64));
            lemma_read_varint(0u64, s, i, rest);
        },
        Some(x) => {
            assert(seq![2u8] =~= enc_varint(2u64));
            lemma_concat_assoc(seq![2u8], enc_long(x), rest);
            lemma_read_varint(2u64, s, i, enc_long(x) + rest);
            lemma_read_long(x, s, i + 1, rest);
        },
    }
}

pub fn read_opt_long(bytes: &[u8], pos: usize) -> (r: Option<(Option<i64>, usize)>)
    ensures
        match r {
            Some((v, j)) => dec_opt_long(bytes@, pos as int) == Some((v, j as int)),
            None => dec_opt_long(bytes@, pos as int) is None,
        },
{
    match read_varint(bytes, pos) {
        None => None,
        Some((tag, j)) => {
            if tag == 0 {
                Some((None, j))
            } else if tag == 2 {
                match read_long(bytes, j) {
                    None => None,
                    Some((x, k)) => Some((Some(x), k)),
                }
            } else {
                None
            }
        },
    }
}

pub fn write_opt_long(out: &mut Vec<u8>, v: Option<i64>)
    ensures
        final(out)@ == old(out)@ + enc_opt_long(v),
{
    match v {
        None => {
            out.push(0u8);
            assert(out@ =~= old(out)@ + enc_opt_long(v));
        },
        Some(x) => {
            out.push(2u8);
            write_long(out, x);
            assert(out@ =~= old(out)@ + enc_opt_long(v));
        },
    }
}

pub open spec fn enc_opt_int(v: Option<i32>) -> Seq<u8> {
    match v {
        None => seq![0u8],
        Some(x) => seq![2u8] + enc_int(x),
    }
}

pub open spec fn dec_opt_int(s: Seq<u8>, i: int) -> Option<(Option<i32>, int)> {
    match dec_varint(s, i) {
        None => None,
        Some((tag, j)) => if tag == 0 {
            Some((Option::<i32>::None, j))
        } else if tag == 2 {
            match dec_int(s, j) {
                None => None,
                Some((x, k)) => Some((Some(x), k)),
            }
        } else {
            None
        },
    }
}

pub proof fn lemma_read_opt_int(v: Option<i32>, s: Seq<u8>, i: int, rest: Seq<u8>)
    requires
        0 <= i <= s.len(),
        s.skip(i) == enc_opt_int(v) + rest,
    ensures
        i + enc_opt_int(v).len() <= s.len(),
        dec_opt_int(s, i) == Some((v, i + enc_opt_int(v).len())),
        s.skip(i + enc_opt_int(v).len()) == rest,
{
    match v {
        None => {
            assert(enc_opt_int(v) =~= enc_varint(0u64));
            lemma_read_varint(0u64, s, i, rest);
        },
        Some(x) => {
            assert(seq![2u8] =~= enc_varint(2u64));
            lemma_concat_assoc(seq![2u8], enc_int(x), rest);
            lemma_read_varint(2u64, s, i, enc_int(x) + rest);
            lemma_read_int(x, s, i + 1, rest);
        },
    }
}

pub fn read_opt_int(bytes: &[u8], pos: usize) -> (r: Option<(Option<i32>, usize)>)
    ensures
        match r {
            Some((v, j)) => dec_opt_int(bytes@, pos as int) == Some((v, j as int)),
            None => dec_opt_int(bytes@, pos as int) is None,
        },
{
    match read_varint(bytes, pos) {
        None => None,
        Some((tag, j)) => {
            if tag == 0 {
                Some((None, j))
            } else if tag == 2 {
                match read_int(bytes, j) {
                    None => None,
                    Some((x, k)) => Some((Some(x), k)),
                }
            } else {
                None
            }
        },
    }
}

pub fn write_opt_int(out: &mut Vec<u8>, v: Option<i32>)
    ensures
        final(out)@ == old(out)@ + enc_opt_int(v),
{
    match v {
        None => {
            out.push(0u8);
            assert(out@ =~= old(out)@ + enc_opt_int(v));
        },
        Some(x) => {
            out.push(2u8);
            write_int(out, x);
            assert(out@ =~= old(out)@ + enc_opt_int(v));
        },
    }
}

pub open spec fn enc_opt_double(v: Option<u64>) -> Seq<u8> {
    match v {
        None => seq![0u8],
        Some(x) => seq![2u8] + enc_double(x),
    }
}

pub open spec fn dec_opt_double(s: Seq<u8>, i: int) -> Option<(Option<u64>, int)> {
    match dec_varint(s, i) {
        None => None,
        Some((tag, j)) => if tag == 0 {
            Some((Option::<u64>::None, j))
        } else if tag == 2 {
            match dec_double(s, j) {
                None => None,
                Some((x, k)) => Some((Some(x), k)),
            }
        } else {
            None
        },
    }
}

pub proof fn lemma_read_opt_double(v: Option<u64>, s: Seq<u8>, i: int, rest: Seq<u8>)
    requires
        0 <= i <= s.len(),
        s.skip(i) == enc_opt_double(v) + rest,
    ensures
        i + enc_opt_double(v).len() <= s.len(),
        dec_opt_double(s, i) == Some((v, i + enc_opt_double(v).len())),
        s.skip(i + enc_opt_double(v).len()) == rest,
{
    match v {
        None => {
            assert(enc_opt_double(v) =~= enc_varint(0u64));
            lemma_read_varint(0u64, s, i, rest);
        },
        Some(x) => {
            assert(seq![2u8] =~= enc_varint(2u64));
            lemma_concat_assoc(seq![2u8], enc_double(x), rest);
            lemma_read_varint(2u64, s, i, enc_double(x) + rest);
            lemma_read_double(x, s, i + 1, rest);
        },
    }
}

pub fn read_opt_double(bytes: &[u8], pos: usize) -> (r: Option<(Option<u64>, usize)>)
    ensures
        match r {
            Some((v, j)) => dec_opt_double(bytes@, pos as int) == Some((v, j as int)),
            None => dec_opt_double(bytes@, pos as int) is None,
        },
{
    match read_varint(bytes, pos) {
        None => None,
        Some((tag, j)) => {
            if tag == 0 {
                Some((None, j))
            } else if tag == 2 {
                match read_double(bytes, j) {
                    None => None,
                    Some((x, k)) => Some((Some(x), k)),
                }
            } else {
                None
            }
        },
    }
}

pub fn write_opt_double(out: &mut Vec<u8>, v: Option<u64>)
    ensures
        final(out)@ == old(out)@ + enc_opt_double(v),
{
    match v {
        None => {
            out.push(0u8);
            assert(out@ =~= old(out)@ + enc_opt_double(v));
        },
        Some(x) => {
            out.push(2u8);
            write_double(out, x);
            assert(out@ =~= old(out)@ + enc_opt_double(v));
        },
    }
}

pub open spec fn enc_opt_single(v: Option<u32>) -> Seq<u8> {
    match v {
        None => seq![0u8],
        Some(x) => seq![2u8] + enc_single(x),
    }
}

pub open spec fn dec_opt_single(s: Seq<u8>, i: int) -> Option<(Option<u32>, int)> {
    match dec_varint(s, i) {
        None => None,
        Some((tag, j)) => if tag == 0 {
            Some((Option::<u32>::None, j))
        } else if tag == 2 {
            match dec_single(s, j) {
                None => None,
                Some((x, k)) => Some((Some(x), k)),
            }
        } else {
            None
        },
    }
}

pub proof fn lemma_read_opt_single(v: Option<u32>, s: Seq<u8>, i: int, rest: Seq<u8>)
    requires
        0 <= i <= s.len(),
        s.skip(i) == enc_opt_single(v) + rest,
    ensures
        i + enc_opt_single(v).len() <= s.len(),
        dec_opt_single(s, i) == Some((v, i + enc_opt_single(v).len())),
        s.skip(i + enc_opt_single(v).len()) == rest,
{
    match v {
        None => {
            assert(enc_opt_single(v) =~= enc_varint(0u64));
            lemma_read_varint(0u64, s, i, rest);
        },
        Some(x) => {
            assert(seq![2u8] =~= enc_varint(2u64));
            lemma_concat_assoc(seq![2u8], enc_single(x), rest);
            lemma_read_varint(2u64, s, i, enc_single(x) + rest);
            lemma_read_single(x, s, i + 1, rest);
        },
    }
}

pub fn read_opt_single(bytes: &[u8], pos: usize) -> (r: Option<(Option<u32>, usize)>)
    ensures
        match r {
            Some((v, j)) => dec_opt_single(bytes@, pos as int) == Some((v, j as int)),
            None => dec_opt_single(bytes@, pos as int) is None,
        },
{
    match read_varint(bytes, pos) {
        None => None,
        Some((tag, j)) => {
            if tag == 0 {
                Some((None, j))
            } else if tag == 2 {
                match read_single(bytes, j) {
                    None => None,
                    Some((x, k)) => Some((Some(x), k)),
                }
            } else {
                None
            }
        },
    }
}

pub fn write_opt_single(out: &mut Vec<u8>, v: Option<u32>)
    ensures
        final(out)@ == old(out)@ + enc_opt_single(v),
{
    match v {
        None => {
            out.push(0u8);
            assert(out@ =~= old(out)@ + enc_opt_single(v));
        },
        Some(x) => {
            out.push(2u8);
            write_single(out, x);
            assert(out@ =~= old(out)@ + enc_opt_single(v));
        },
    }
}

pub open spec fn enc_opt_bool(v: Option<bool>) -> Seq<u8> {
    match v {
        None => seq![0u8],
        Some(x) => seq![2u8] + enc_bool(x),
    }
}

pub open spec fn dec_opt_bool(s: Seq<u8>, i: int) -> Option<(Option<bool>, int)> {
    match dec_varint(s, i) {
        None => None,
        Some((tag, j)) => if tag == 0 {
            Some((Option::<bool>::None, j))
        } else if tag == 2 {
            match dec_bool(s, j) {
                None => None,
                Some((x, k)) => Some((Some(x), k)),
            }
        } else {
            None
        },
    }
}

pub proof fn lemma_read_opt_bool(v: Option<bool>, s: Seq<u8>, i: int, rest: Seq<u8>)
    requires
        0 <= i <= s.len(),
        s.skip(i) == enc_opt_bool(v) + rest,
    ensures
        i + enc_opt_bool(v).len() <= s.len(),
        dec_opt_bool(s, i) == Some((v, i + enc_opt_bool(v).len())),
        s.skip(i + enc_opt_bool(v).len()) == rest,
{
    match v {
        None => {
            assert(enc_opt_bool(v) =~= enc_varint(0u64));
            lemma_read_varint(0u64, s, i, rest);
        },
        Some(x) => {
            assert(seq![2u8] =~= enc_varint(2u64));
            lemma_concat_assoc(seq![2u8], enc_bool(x), rest);
            lemma_read_varint(2u64, s, i, enc_bool(x) + rest);
            lemma_read_bool(x, s, i + 1, rest);
        },
    }
}

pub fn read_opt_bool(bytes: &[u8], pos: usize) -> (r: Option<(Option<bool>, usize)>)
    ensures
        match r {
            Some((v, j)) => dec_opt_bool(bytes@, pos as int) == Some((v, j as int)),
            None => dec_opt_bool(bytes@, pos as int) is None,
        },
{
    match read_varint(bytes, pos) {
        None => None,
        Some((tag, j)) => {
            if tag == 0 {
                Some((None, j))
            } else if tag == 2 {
                match read_bool(bytes, j) {
                    None => None,
                    Some((x, k)) => Some((Some(x), k)),
                }
            } else {
                None
            }
        },
    }
}

pub fn write_opt_bool(out: &mut Vec<u8>, v: Option<bool>)
    ensures
        final(out)@ == old(out)@ + enc_opt_bool(v),
{
    match v {
        None => {
            out.push(0u8);
            assert(out@ =~= old(out)@ + enc_opt_bool(v));
        },
        Some(x) => {
            out.push(2u8);
            write_bool(out, x);
            assert(out@ =~= old(out)@ + enc_opt_bool(v));
        },
    }
}

pub open spec fn view_opt_string(v: Option<String>) -> Option<Seq<char>> {
    match v {
        None => None,
        Some(s) => Some(s@),
    }
}

pub open spec fn view_opt_bytes(v: Option<Vec<u8>>) -> Option<Seq<u8>> {
    match v {
        None => None,
        Some(b) => Some(b@),
    }
}

pub open spec fn enc_opt_string(v: Option<Seq<char>>) -> Seq<u8> {
    match v {
        None => seq![0u8],
        Some(c) => seq![2u8] + enc_string(c),
    }
}

pub open spec fn dec_opt_string(s: Seq<u8>, i: int) -> Option<(Option<Seq<char>>, int)> {
    match dec_varint(s, i) {
        None => None,
        Some((tag, j)) => if tag == 0 {
            Some((Option::<Seq<char>>::None, j))
        } else if tag == 2 {
            match dec_string(s, j) {
                None => None,
                Some((x, k)) => Some((Some(x), k)),
            }
        } else {
            None
        },
    }
}

pub proof fn lemma_read_opt_string(v: Option<Seq<char>>, s: Seq<u8>, i: int, rest: Seq<u8>)
    requires
        0 <= i <= s.len(),
        s.skip(i) == enc_opt_string(v) + rest,
        match v {
            Some(c) => encode_utf8(c).len() <= i64::MAX,
            None => true,
        },
    ensures
        i + enc_opt_string(v).len() <= s.len(),
        dec_opt_string(s, i) == Some((v, i + enc_opt_string(v).len())),
        s.skip(i + enc_opt_string(v).len()) == rest,
{
    match v {
        None => {
            assert(enc_opt_string(v) =~= enc_varint(0u64));
            lemma_read_varint(0u64, s, i, rest);
        },
        Some(c) => {
            assert(seq![2u8] =~= enc_varint(2u64));
            lemma_concat_assoc(seq![2u8], enc_string(c), rest);
            lemma_read_varint(2u64, s, i, enc_string(c) + rest);
            lemma_read_string(c, s, i + 1, rest);
        },
    }
}

pub fn read_opt_string(bytes: &[u8], pos: usize) -> (r: Option<(Option<String>, usize)>)
    ensures
        match r {
            Some((v, j)) => dec_opt_string(bytes@, pos as int) == Some((view_opt_string(v), j as int)),
            None => dec_opt_string(bytes@, pos as int) is None,
        },
{
    match read_varint(bytes, pos) {
        None => None,
        Some((tag, j)) => {
            if tag == 0 {
                Some((None, j))
            } else if tag == 2 {
                match read_string(bytes, j) {
                    None => None,
                    Some((x, k)) => Some((Some(x), k)),
                }
            } else {
                None
            }
        },
    }
}

pub fn write_opt_string(out: &mut Vec<u8>, v: &Option<String>)
    requires
        match v {
            Some(s) => encode_utf8(s@).len() <= i64::MAX,
            None => true,
        },
    ensures
        final(out)@ == old(out)@ + enc_opt_string(view_opt_string(*v)),
{
    match v {
        None => {
            out.push(0u8);
            assert(out@ =~= old(out)@ + enc_opt_string(view_opt_string(*v)));
        },
        Some(s) => {
            out.push(2u8);
            write_string(out, s.as_str());
            assert(out@ =~= old(out)@ + enc_opt_string(view_opt_string(*v)));
        },
    }
}

pub open spec fn enc_opt_bytes(v: Option<Seq<u8>>) -> Seq<u8> {
    match v {
        None => seq![0u8],
        Some(b) => seq![2u8] + enc_bytes(b),
    }
}

pub open spec fn dec_opt_bytes(s: Seq<u8>, i: int) -> Option<(Option<Seq<u8>>, int)> {
    match dec_varint(s, i) {
        None => None,
        Some((tag, j)) => if tag == 0 {
            Some((Option::<Seq<u8>>::None, j))
        } else if tag == 2 {
            match dec_bytes(s, j) {
                None => None,
                Some((x, k)) => Some((Some(x), k)),
            }
        } else {
            None
        },
    }
}

pub proof fn lemma_read_opt_bytes(v: Option<Seq<u8>>, s: Seq<u8>, i: int, rest: Seq<u8>)
    requires
        0 <= i <= s.len(),
        s.skip(i) == enc_opt_bytes(v) + rest,
        match v {
            Some(b) => b.len() <= i64::MAX,
            None => true,
        },
    ensures
        i + enc_opt_bytes(v).len() <= s.len(),
        dec_opt_bytes(s, i) == Some((v, i + enc_opt_bytes(v).len())),
        s.skip(i + enc_opt_bytes(v).len()) == rest,
{
    match v {
        None => {
            assert(enc_opt_bytes(v) =~= enc_varint(0u64));
            lemma_read_varint(0u64, s, i, rest);
        },
        Some(b) => {
            assert(seq![2u8] =~= enc_varint(2u64));
            lemma_concat_assoc(seq![2u8], enc_bytes(b), rest);
            lemma_read_varint(2u64, s, i, enc_bytes(b) + rest);
            lemma_read_bytes(b, s, i + 1, rest);
        },
    }
}

pub fn read_opt_bytes(bytes: &[u8], pos: usize) -> (r: Option<(Option<Vec<u8>>, usize)>)
    ensures
        match r {
            Some((v, j)) => dec_opt_bytes(bytes@, pos as int) == Some((view_opt_bytes(v), j as int)),
            None => dec_opt_bytes(bytes@, pos as int) is None,
        },
{
    match read_varint(bytes, pos) {
        None => None,
        Some((tag, j)) => {
            if tag == 0 {
                Some((None, j))
            } else if tag == 2 {
                match read_bytes(bytes, j) {
                    None => None,
                    Some((x, k)) => Some((Some(x), k)),
                }
            } else {
                None
            }
        },
    }
}

pub fn write_opt_bytes(out: &mut Vec<u8>, v: &Option<Vec<u8>>)
    requires
        match v {
            Some(b) => b@.len() <= i64::MAX,
            None => true,
        },
    ensures
        final(out)@ == old(out)@ + enc_opt_bytes(view_opt_bytes(*v)),
{
    match v {
        None => {
            out.push(0u8);
            assert(out@ =~= old(out)@ + enc_opt_bytes(view_opt_bytes(*v)));
        },
        Some(b) => {
            out.push(2u8);
            write_bytes(out, b.as_slice());
            assert(out@ =~= old(out)@ + enc_opt_bytes(view_opt_bytes(*v)));
        },
    }
}

/// Range facts for every primitive reader: success lands strictly past `i`
/// and within the sequence.
pub proof fn lemma_dec_long_range(s: Seq<u8>, i: int)
    ensures
        dec_long(s, i) matches Some((v, j)) ==> i < j <= s.len(),
{
    lemma_dec_varint_range(s, i);
}

pub proof fn lemma_dec_bytes_range(s: Seq<u8>, i: int)
    ensures
        dec_bytes(s, i) matches Some((v, j)) ==> i < j <= s.len(),
{
    lemma_dec_varint_range(s, i);
}

pub proof fn lemma_dec_string_range(s: Seq<u8>, i: int)
    ensures
        dec_string(s, i) matches Some((v, j)) ==> i < j <= s.len(),
{
    lemma_dec_bytes_range(s, i);
}

pub proof fn lemma_dec_opt_long_range(s: Seq<u8>, i: int)
    ensures
        dec_opt_long(s, i) matches Some((v, j)) ==> i < j <= s.len(),
{
    lemma_dec_varint_range(s, i);
    match dec_varint(s, i) {
        Some((tag, j)) => {
            lemma_dec_varint_range(s, j);
        },
        None => {},
    }
}

pub proof fn lemma_dec_opt_int_range(s: Seq<u8>, i: int)
    ensures
        dec_opt_int(s, i) matches Some((v, j)) ==> i < j <= s.len(),
{
    lemma_dec_varint_range(s, i);
    match dec_varint(s, i) {
        Some((tag, j)) => {
            lemma_dec_varint_range(s, j);
        },
        None => {},
    }
}

pub proof fn lemma_dec_opt_double_range(s: Seq<u8>, i: int)
    ensures
        dec_opt_double(s, i) matches Some((v, j)) ==> i < j <= s.len(),
{
    lemma_dec_varint_range(s, i);
}

pub proof fn lemma_dec_opt_single_range(s: Seq<u8>, i: int)
    ensures
        dec_opt_single(s, i) matches Some((v, j)) ==> i < j <= s.len(),
{
    lemma_dec_varint_range(s, i);
}

pub proof fn lemma_dec_opt_bool_range(s: Seq<u8>, i: int)
    ensures
        dec_opt_bool(s, i) matches Some((v, j)) ==> i < j <= s.len(),
{
    lemma_dec_varint_range(s, i);
}

pub proof fn lemma_dec_opt_string_range(s: Seq<u8>, i: int)
    ensures
        dec_opt_string(s, i) matches Some((v, j)) ==> i < j <= s.len(),
{
    lemma_dec_varint_range(s, i);
    match dec_varint(s, i) {
        Some((tag, j)) => {
            lemma_dec_string_range(s, j);
        },
        None => {},
    }
}

pub proof fn lemma_dec_opt_bytes_range(s: Seq<u8>, i: int)
    ensures
        dec_opt_bytes(s, i) matches Some((v, j)) ==> i < j <= s.len(),
{
    lemma_dec_varint_range(s, i);
    match dec_varint(s, i) {
        Some((tag, j)) => {
            lemma_dec_bytes_range(s, j);
        },
        None => {},
    }
}

pub proof fn lemma_dec_int_range(s: Seq<u8>, i: int)
    ensures
        dec_int(s, i) matches Some((v, j)) ==> i < j <= s.len(),
{
    lemma_dec_varint_range(s, i);
}

pub proof fn lemma_dec_double_range(s: Seq<u8>, i: int)
    ensures
        dec_double(s, i) matches Some((v, j)) ==> i < j <= s.len(),
{
}

pub proof fn lemma_dec_single_range(s: Seq<u8>, i: int)
    ensures
        dec_single(s, i) matches Some((v, j)) ==> i < j <= s.len(),
{
}

pub proof fn lemma_dec_bool_range(s: Seq<u8>, i: int)
    ensures
        dec_bool(s, i) matches Some((v, j)) ==> i < j <= s.len(),
{
}

} // verus!
