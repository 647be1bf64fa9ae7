//! Values shared by every program: account keys, 32-byte digests, and the
//! shape of an instruction's outcome.
use vstd::prelude::*;

verus! {

/// An account address, held as its 32 bytes.
#[derive(Clone, Copy, Debug, PartialEq, Eq)]
pub struct Pubkey {
    pub bytes: [u8; 32],
}

/// Two keys name the same account.
pub open spec fn same_key(a: Pubkey, b: Pubkey) -> bool {
    a.bytes@ == b.bytes@
}

/// Byte-wise equality of two 32-byte arrays.
pub fn bytes32_eq(a: &[u8; 32], b: &[u8; 32]) -> (r: bool)
    ensures
        r == (a@ == b@),
{
    let mut i: usize = 0;
    while i < 32
        invariant
            0 <= i <= 32,
            a@.len() == 32,
            b@.len() == 32,
            forall|j: int| 0 <= j < i ==> a@[j] == b@[j],
        decreases 32 - i,
    {
        if a[i] != b[i] {
            assert(a@[i as int] != b@[i as int]);
            return false;
        }
        i = i + 1;
    }
    assert(a@ =~= b@);
    true
}

impl Pubkey {
    /// The two keys name the same account.
    pub fn key_eq(&self, other: &Pubkey) -> (r: bool)
        ensures
            r == same_key(*self, *other),
    {
        bytes32_eq(&self.bytes, &other.bytes)
    }
}

/// The default key: 32 zero bytes.
pub open spec fn is_default_key(k: Pubkey) -> bool {
    forall|i: int| 0 <= i < 32 ==> k.bytes@[i] == 0
}

impl Pubkey {
    /// The key is the default one, all of whose bytes are zero.
    pub fn is_default(&self) -> (r: bool)
        ensures
            r == is_default_key(*self),
    {
        let mut i: usize = 0;
        while i < 32
            invariant
                0 <= i <= 32,
                self.bytes@.len() == 32,
                forall|j: int| 0 <= j < i ==> self.bytes@[j] == 0,
            decreases 32 - i,
        {
            if self.bytes[i] != 0 {
                return false;
            }
            i = i + 1;
        }
        true
    }
}

/// An instruction that updates `before` in place and returns nothing: on
/// success the state is the expected one, on failure it is left untouched
/// (a failed instruction leaves no trace on chain).
pub open spec fn applied<S, E>(r: Result<(), E>, before: S, after: S, expected: Result<S, E>) -> bool {
    match expected {
        Ok(s) => r is Ok && after == s,
        Err(e) => r == Err::<(), E>(e) && after == before,
    }
}

/// As `applied`, for an instruction that also returns a value.
pub open spec fn applied_with<S, T, E>(
    r: Result<T, E>,
    before: S,
    after: S,
    expected: Result<(S, T), E>,
) -> bool {
    match expected {
        Ok(st) => r == Ok::<T, E>(st.1) && after == st.0,
        Err(e) => r == Err::<T, E>(e) && after == before,
    }
}

} // verus!

verus! {

/// The number whose little-endian bytes are `s`.
pub open spec fn le_value(s: Seq<u8>) -> nat
    decreases s.len(),
{
    if s.len() == 0 {
        0
    } else {
        s[0] as nat + 256 * le_value(s.drop_first())
    }
}

/// The value of eight little-endian bytes, written out.
proof fn lemma_le_value_eight(s: Seq<u8>)
    requires
        s.len() == 8,
    ensures
        le_value(s) == s[0] + 256 * (s[1] + 256 * (s[2] + 256 * (s[3] + 256 * (s[4] + 256 * (s[5] + 256 * (s[6]
            + 256 * s[7])))))),
{
    let s1 = s.drop_first();
    let s2 = s1.drop_first();
    let s3 = s2.drop_first();
    let s4 = s3.drop_first();
    let s5 = s4.drop_first();
    let s6 = s5.drop_first();
    let s7 = s6.drop_first();
    let s8 = s7.drop_first();
    assert(le_value(s8) == 0);
    assert(s7[0] == s[7] && s6[0] == s[6] && s5[0] == s[5] && s4[0] == s[4] && s3[0] == s[3] && s2[0] == s[2]
        && s1[0] == s[1]);
    assert(le_value(s7) == s[7]);
    assert(le_value(s6) == s[6] + 256 * s[7]);
    assert(le_value(s5) == s[5] + 256 * (s[6] + 256 * s[7]));
    assert(le_value(s4) == s[4] + 256 * (s[5] + 256 * (s[6] + 256 * s[7])));
    assert(le_value(s3) == s[3] + 256 * (s[4] + 256 * (s[5] + 256 * (s[6] + 256 * s[7]))));
    assert(le_value(s2) == s[2] + 256 * (s[3] + 256 * (s[4] + 256 * (s[5] + 256 * (s[6] + 256 * s[7])))));
    assert(le_value(s1) == s[1] + 256 * (s[2] + 256 * (s[3] + 256 * (s[4] + 256 * (s[5] + 256 * (s[6] + 256
        * s[7]))))));
}

/// Reads eight bytes as a little-endian number, as `u64::from_le_bytes`
/// does.
pub(crate) fn u64_from_le(bytes: [u8; 8]) -> (r: u64)
    ensures
        r as nat == le_value(bytes@),
{
    proof {
        lemma_le_value_eight(bytes@);
    }
    (bytes[0] as u64) + 256 * ((bytes[1] as u64) + 256 * ((bytes[2] as u64) + 256 * ((bytes[3] as u64) + 256 * (
    (bytes[4] as u64) + 256 * ((bytes[5] as u64) + 256 * ((bytes[6] as u64) + 256 * (bytes[7] as u64)))))))
}

/// The eight little-endian bytes of a number, as `u64::to_le_bytes` gives
/// them.
pub(crate) fn u64_to_le(x: u64) -> (r: [u8; 8])
    ensures
        le_value(r@) == x as nat,
{
    let q1 = x / 256;
    let q2 = q1 / 256;
    let q3 = q2 / 256;
    let q4 = q3 / 256;
    let q5 = q4 / 256;
    let q6 = q5 / 256;
    let q7 = q6 / 256;
    let r: [u8; 8] = [
        (x % 256) as u8,
        (q1 % 256) as u8,
        (q2 % 256) as u8,
        (q3 % 256) as u8,
        (q4 % 256) as u8,
        (q5 % 256) as u8,
        (q6 % 256) as u8,
        (q7 % 256) as u8,
    ];
    proof {
        lemma_le_value_eight(r@);
        assert(q7 < 256);
    }
    r
}

/// Replaces the eight bytes of `data` that start at `offset` with `bytes`.
pub fn write_bytes8(data: &mut Vec<u8>, offset: usize, bytes: [u8; 8])
    requires
        offset + 8 <= old(data)@.len(),
    ensures
        final(data)@ == old(data)@.subrange(0, offset as int) + bytes@ + old(data)@.subrange(
            offset + 8,
            old(data)@.len() as int,
        ),
{
    let len = data.len();
    let mut i: usize = 0;
    while i < 8
        invariant
            0 <= i <= 8,
            len == old(data)@.len(),
            offset + 8 <= len,
            data@.len() == old(data)@.len(),
            bytes@.len() == 8,
            forall|j: int| 0 <= j < offset ==> data@[j] == old(data)@[j],
            forall|j: int| offset + 8 <= j < data@.len() ==> data@[j] == old(data)@[j],
            forall|j: int| offset + i <= j < offset + 8 ==> data@[j] == old(data)@[j],
            forall|j: int| 0 <= j < i ==> data@[offset + j] == bytes@[j],
        decreases 8 - i,
    {
        data.set(offset + i, bytes[i]);
        i = i + 1;
    }
    assert(data@ =~= old(data)@.subrange(0, offset as int) + bytes@ + old(data)@.subrange(
        offset + 8,
        old(data)@.len() as int,
    ));
}

} // verus!

verus! {

/// The little-endian number held in the eight bytes of `data` that start at
/// `offset`.
pub fn read_u64_le(data: &Vec<u8>, offset: usize) -> (v: u64)
    requires
        offset + 8 <= data@.len(),
    ensures
        v as nat == le_value(data@.subrange(offset as int, offset + 8)),
{
    assert(data@.len() == data.len());
    let bytes: [u8; 8] = [
        data[offset],
        data[offset + 1],
        data[offset + 2],
        data[offset + 3],
        data[offset + 4],
        data[offset + 5],
        data[offset + 6],
        data[offset + 7],
    ];
    assert(bytes@ =~= data@.subrange(offset as int, offset + 8));
    u64_from_le(bytes)
}

/// The key held in the 32 bytes of `data` that start at `offset`.
pub fn read_key(data: &Vec<u8>, offset: usize) -> (k: Pubkey)
    requires
        offset + 32 <= data@.len(),
    ensures
        k.bytes@ == data@.subrange(offset as int, offset + 32),
{
    assert(data@.len() == data.len());
    let mut bytes = [0u8; 32];
    let mut i: usize = 0;
    while i < 32
        invariant
            0 <= i <= 32,
            offset + 32 <= data@.len(),
            data@.len() == data.len(),
            bytes@.len() == 32,
            forall|j: int| 0 <= j < i ==> bytes@[j] == data@[offset + j],
        decreases 32 - i,
    {
        bytes[i] = data[offset + i];
        i = i + 1;
    }
    assert(bytes@ =~= data@.subrange(offset as int, offset + 32));
    Pubkey { bytes }
}

} // verus!
