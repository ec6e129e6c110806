//! The ownership adapter for byte buffers crossing the native boundary.
//!
//! Every transfer of text between host and native code goes through here.
//! Outbound, a host string becomes a nul-terminated buffer, rejected when
//! it holds an interior nul byte.  Inbound, a buffer that the native side
//! allocated is read up to its first nul byte, decoded with the lossy
//! UTF-8 policy, and never touched past the terminator; a null pointer
//! becomes a typed error, never a dereference.  The same discipline covers
//! the native convention of a pointer array ended by a null entry.

use crate::error::ErrorKind;
use crate::error::ReadlineError;
use vstd::prelude::*;
use vstd::string::StrSliceExecFns;
use vstd::string::StringSliceAdditionalSpecFns;
use vstd::utf8::decode_utf8;
use vstd::utf8::encode_utf8;
use vstd::utf8::encode_utf8_decode_utf8;
use vstd::utf8::encode_utf8_valid_utf8;
use vstd::utf8::valid_utf8;

verus! {

/// Whether the byte sequence holds a nul byte anywhere.
pub open spec fn has_nul(b: Seq<u8>) -> bool {
    exists|i: int| 0 <= i < b.len() && b[i] == 0u8
}

/// The bytes before the first nul byte: what a reader of a C string sees.
/// A sequence without a nul byte is read whole.
pub open spec fn take_until_nul(b: Seq<u8>) -> Seq<u8>
    decreases b.len(),
{
    if b.len() == 0 {
        b
    } else if b[0] == 0u8 {
        Seq::empty()
    } else {
        seq![b[0]] + take_until_nul(b.drop_first())
    }
}

/// A sequence without a nul byte is read whole.
pub proof fn lemma_take_until_nul_whole(b: Seq<u8>)
    requires
        !has_nul(b),
    ensures
        take_until_nul(b) == b,
    decreases b.len(),
{
    if b.len() == 0 {
    } else {
        assert(b[0] != 0u8);
        assert(!has_nul(b.drop_first())) by {
            assert(forall|i: int|
                0 <= i < b.drop_first().len() ==> b.drop_first()[i] == b[i + 1]);
        }
        lemma_take_until_nul_whole(b.drop_first());
        assert(seq![b[0]] + b.drop_first() =~= b);
    }
}

/// Reading stops exactly at the first nul byte: when the bytes before
/// index `i` are all non-nul and index `i` ends the data (a nul byte, or
/// the end of the sequence), the first `i` bytes are read.
pub proof fn lemma_take_until_nul_prefix(b: Seq<u8>, i: int)
    requires
        0 <= i <= b.len(),
        forall|j: int| 0 <= j < i ==> b[j] != 0u8,
        i < b.len() ==> b[i] == 0u8,
    ensures
        take_until_nul(b) == b.take(i),
    decreases b.len(),
{
    if i == 0 {
        if b.len() == 0 {
            assert(b.take(0) =~= b);
        } else {
            assert(b.take(0) =~= Seq::<u8>::empty());
        }
    } else {
        assert(b[0] != 0u8);
        let d = b.drop_first();
        assert(forall|j: int| 0 <= j < i - 1 ==> d[j] == b[j + 1]);
        lemma_take_until_nul_prefix(d, i - 1);
        assert(seq![b[0]] + d.take(i - 1) =~= b.take(i));
    }
}

/// Round trip at the byte level: a buffer built from nul-free bytes and a
/// terminator is read back as exactly those bytes.
pub proof fn lemma_terminated_round_trip(b: Seq<u8>)
    requires
        !has_nul(b),
    ensures
        take_until_nul(b + seq![0u8]) == b,
{
    let t = b + seq![0u8];
    assert(forall|j: int| 0 <= j < b.len() ==> t[j] == b[j] && t[j] != 0u8);
    assert(t[b.len() as int] == 0u8);
    lemma_take_until_nul_prefix(t, b.len() as int);
    assert(t.take(b.len() as int) =~= b);
}

/// Round-trip string conversion: a host string whose encoding holds no nul
/// byte, rendered as a nul-terminated buffer and read back as the native
/// side would, decodes to the very same string.
pub proof fn lemma_to_foreign_round_trip(s: Seq<char>)
    requires
        !has_nul(encode_utf8(s)),
    ensures
        valid_utf8(take_until_nul(encode_utf8(s) + seq![0u8])),
        decode_utf8(take_until_nul(encode_utf8(s) + seq![0u8])) == s,
{
    lemma_terminated_round_trip(encode_utf8(s));
    encode_utf8_valid_utf8(s);
    encode_utf8_decode_utf8(s);
}

/// A scalar's encoding holds a nul byte exactly when the scalar is nul:
/// a multi-byte encoding never produces a zero byte.
proof fn lemma_encode_scalar_nul(v: u32)
    requires
        vstd::utf8::is_scalar(v),
    ensures
        has_nul(vstd::utf8::encode_scalar(v)) <==> v == 0,
{
    let e = vstd::utf8::encode_scalar(v);
    if vstd::utf8::has_width_1_encoding(v) {
        assert((v & 0x7F) == v) by (bit_vector)
            requires
                v <= 0x7F,
        ;
        if v == 0 {
            assert(e[0] == 0u8);
            assert(has_nul(e));
        } else {
            assert(e[0] != 0u8);
            assert(!has_nul(e));
        }
    } else if vstd::utf8::has_width_2_encoding(v) {
        assert(0xC0u8 | (((v >> 6) & 0x1F) as u8) != 0u8) by (bit_vector);
        assert(0x80u8 | ((v & 0x3F) as u8) != 0u8) by (bit_vector);
        assert(e[0] != 0u8 && e[1] != 0u8);
        assert(!has_nul(e));
        assert(v != 0);
    } else if vstd::utf8::has_width_3_encoding(v) {
        assert(0xE0u8 | (((v >> 12) & 0x0F) as u8) != 0u8) by (bit_vector);
        assert(0x80u8 | (((v >> 6) & 0x3F) as u8) != 0u8) by (bit_vector);
        assert(0x80u8 | ((v & 0x3F) as u8) != 0u8) by (bit_vector);
        assert(e[0] != 0u8 && e[1] != 0u8 && e[2] != 0u8);
        assert(!has_nul(e));
        assert(v != 0);
    } else {
        assert(0xF0u8 | (((v >> 18) & 0x7) as u8) != 0u8) by (bit_vector);
        assert(0x80u8 | (((v >> 12) & 0x3F) as u8) != 0u8) by (bit_vector);
        assert(0x80u8 | (((v >> 6) & 0x3F) as u8) != 0u8) by (bit_vector);
        assert(0x80u8 | ((v & 0x3F) as u8) != 0u8) by (bit_vector);
        assert(e[0] != 0u8 && e[1] != 0u8 && e[2] != 0u8 && e[3] != 0u8);
        assert(!has_nul(e));
        assert(v != 0);
    }
}

/// A string's encoding holds a nul byte exactly when the string holds
/// the nul character: the byte-level and the character-level readings of
/// "no embedded nul" agree.
pub proof fn lemma_nul_byte_iff_nul_char(s: Seq<char>)
    ensures
        has_nul(encode_utf8(s)) <==> s.contains('\u{0}'),
    decreases s.len(),
{
    if s.len() == 0 {
        assert(!has_nul(encode_utf8(s)));
        assert(!s.contains('\u{0}'));
    } else {
        vstd::utf8::char_is_scalar(s[0]);
        lemma_encode_scalar_nul(s[0] as u32);
        lemma_nul_byte_iff_nul_char(s.drop_first());
        let a = vstd::utf8::encode_scalar(s[0] as u32);
        let b = encode_utf8(s.drop_first());
        assert(encode_utf8(s) == a + b);
        assert(has_nul(a + b) <==> has_nul(a) || has_nul(b)) by {
            if has_nul(a) {
                let i = choose|i: int| 0 <= i < a.len() && a[i] == 0u8;
                assert((a + b)[i] == 0u8);
            }
            if has_nul(b) {
                let i = choose|i: int| 0 <= i < b.len() && b[i] == 0u8;
                assert((a + b)[a.len() + i] == 0u8);
            }
            if has_nul(a + b) {
                let i = choose|i: int| 0 <= i < (a + b).len() && (a + b)[i] == 0u8;
                if i < a.len() {
                    assert(a[i] == 0u8);
                } else {
                    assert(b[i - a.len()] == 0u8);
                }
            }
        }
        if s[0] as u32 == 0 {
            vstd::utf8::char_u32_cast(s[0], 0);
            assert(s[0] == '\u{0}');
            assert(s.contains('\u{0}'));
        }
        if s.contains('\u{0}') {
            let i = choose|i: int| 0 <= i < s.len() && s[i] == '\u{0}';
            if i > 0 {
                assert(s.drop_first()[i - 1] == '\u{0}');
                assert(s.drop_first().contains('\u{0}'));
            }
        }
        if s.drop_first().contains('\u{0}') {
            let i = choose|i: int| 0 <= i < s.drop_first().len() && s.drop_first()[i] == '\u{0}';
            assert(s[i + 1] == '\u{0}');
            assert(s.contains('\u{0}'));
        }
    }
}

/// A host-owned, nul-terminated byte buffer, ready to cross the boundary
/// as a C string: exactly one nul byte, at the end.
#[derive(Debug)]
pub struct OwnedCString {
    bytes: Vec<u8>,
}

impl View for OwnedCString {
    type V = Seq<u8>;

    closed spec fn view(&self) -> Seq<u8> {
        self.bytes@
    }
}

impl OwnedCString {
    /// The shape every value of this type has: non-empty, terminated by
    /// its only nul byte.
    pub open spec fn wf(self) -> bool {
        &&& self@.len() >= 1
        &&& self@[self@.len() - 1] == 0u8
        &&& forall|i: int| 0 <= i < self@.len() - 1 ==> self@[i] != 0u8
    }

    /// The buffer, terminator included.
    pub fn as_bytes_with_nul(&self) -> (r: &[u8])
        ensures
            r@ == self@,
    {
        self.bytes.as_slice()
    }

    /// Give up the buffer, terminator included.
    pub fn into_bytes(self) -> (r: Vec<u8>)
        ensures
            r@ == self@,
    {
        self.bytes
    }
}

/// Whether the encoding of this string holds a nul byte, which would make
/// it unusable as a C string.
pub fn str_has_nul(s: &str) -> (r: bool)
    ensures
        r == has_nul(s.spec_bytes()),
{
    let b = s.as_bytes();
    let n = b.len();
    let mut i: usize = 0;
    while i < n
        invariant
            n == b@.len(),
            b@ == s.spec_bytes(),
            i <= n,
            forall|j: int| 0 <= j < i ==> b@[j] != 0u8,
        decreases n - i,
    {
        if b[i] == 0 {
            assert(has_nul(s.spec_bytes())) by {
                assert(s.spec_bytes()[i as int] == 0u8);
            }
            return true;
        }
        i += 1;
    }
    false
}

/// Render a host string as a nul-terminated buffer for a native call.
/// A string whose encoding holds a nul byte cannot cross the boundary and
/// is rejected whole: no truncated buffer is ever produced.
pub fn to_foreign(s: &str) -> (r: Result<OwnedCString, ReadlineError>)
    ensures
        r is Ok <==> !has_nul(s.spec_bytes()),
        r matches Ok(c) ==> c.wf() && c@ == s.spec_bytes() + seq![0u8],
        r matches Err(e) ==> e.kind == ErrorKind::NulByteInString,
{
    if str_has_nul(s) {
        return Err(
            ReadlineError::new(ErrorKind::NulByteInString, "string holds an interior nul byte"),
        );
    }
    let mut v = s.as_bytes_vec();
    v.push(0);
    Ok(OwnedCString { bytes: v })
}

/// Relies on String's FromIterator of char: collecting characters yields
/// the string of exactly those characters, in order.
#[verifier::external_body]
pub(crate) fn string_of_chars(v: &Vec<char>) -> (r: String)
    ensures
        r@ == v@,
{
    v.iter().collect()
}

/// What a native byte buffer, once read, decodes to: the result of the
/// lossy UTF-8 policy on those bytes.
pub uninterp spec fn lossy_of(b: Seq<u8>) -> Seq<char>;

/// Relies on String::from_utf8_lossy: the result depends on the bytes
/// alone, and bytes that already form valid UTF-8 decode to exactly the
/// characters they encode.
#[verifier::external_body]
fn decode_lossy(b: &[u8]) -> (r: String)
    ensures
        r@ == lossy_of(b@),
        valid_utf8(b@) ==> r@ == decode_utf8(b@),
{
    String::from_utf8_lossy(b).into_owned()
}

/// Copy the bytes before the first nul byte, consuming the buffer.
fn truncate_at_nul(b: Vec<u8>) -> (r: Vec<u8>)
    ensures
        r@ == take_until_nul(b@),
{
    let n = b.len();
    let mut out: Vec<u8> = Vec::new();
    let mut i: usize = 0;
    while i < n
        invariant
            n == b@.len(),
            i <= n,
            out@ == b@.take(i as int),
            forall|j: int| 0 <= j < i ==> b@[j] != 0u8,
        decreases n - i,
    {
        if b[i] == 0 {
            proof {
                lemma_take_until_nul_prefix(b@, i as int);
            }
            return out;
        }
        out.push(b[i]);
        i += 1;
        assert(out@ =~= b@.take(i as int));
    }
    proof {
        lemma_take_until_nul_prefix(b@, n as int);
        assert(b@.take(n as int) =~= b@);
    }
    out
}

/// Consume a buffer that the native side allocated and handed over: `None`
/// stands for a null pointer and is a typed error; otherwise the bytes up
/// to the first nul are decoded under the lossy UTF-8 policy.  This is the
/// single sanctioned way to turn a native-owned string into a host value.
pub fn from_foreign_owned(buf: Option<Vec<u8>>, detail: &str) -> (r: Result<String, ReadlineError>)
    ensures
        buf is None ==> (r matches Err(e) && e.kind == ErrorKind::NullPointer && e.detail@
            == detail@),
        buf matches Some(b) ==> (r matches Ok(s) && s@ == lossy_of(take_until_nul(b@)) && (
        valid_utf8(take_until_nul(b@)) ==> s@ == decode_utf8(take_until_nul(b@)))),
{
    match buf {
        None => Err(ReadlineError::new(ErrorKind::NullPointer, detail)),
        Some(b) => {
            let t = truncate_at_nul(b);
            Ok(decode_lossy(t.as_slice()))
        },
    }
}

/// What iterating a null-terminated pointer array yields: the entries
/// before the first absent one, in order.
pub open spec fn collected(a: Seq<Option<String>>) -> Seq<String>
    decreases a.len(),
{
    if a.len() == 0 {
        Seq::empty()
    } else {
        match a[0] {
            Option::None => Seq::empty(),
            Option::Some(s) => seq![s] + collected(a.drop_first()),
        }
    }
}

/// While no entry is absent, each present entry is collected in order.
pub proof fn lemma_collected_present_prefix(a: Seq<Option<String>>, i: int)
    requires
        0 <= i <= a.len(),
        forall|j: int| 0 <= j < i ==> a[j] is Some,
    ensures
        collected(a.take(i)) == Seq::new(i as nat, |k: int| a[k]->0),
    decreases i,
{
    if i == 0 {
        assert(a.take(0) =~= Seq::<Option<String>>::empty());
    } else {
        let t = a.take(i);
        assert(t[0] == a[0]);
        let d = a.drop_first();
        assert(forall|j: int| 0 <= j < i - 1 ==> d[j] == a[j + 1]);
        lemma_collected_present_prefix(d, i - 1);
        assert(t.drop_first() =~= d.take(i - 1));
        assert(seq![a[0]->0] + Seq::new((i - 1) as nat, |k: int| d[k]->0) =~= Seq::new(
            i as nat,
            |k: int| a[k]->0,
        ));
    }
}

/// Null-array termination safety: when the first absent entry stands at
/// index `k`, exactly the `k` entries before it are collected; what stands
/// at index `k + 1` or beyond has no effect on the result.
pub proof fn lemma_collect_stops_at_null(a: Seq<Option<String>>, k: int)
    requires
        0 <= k < a.len(),
        a[k] is None,
        forall|j: int| 0 <= j < k ==> a[j] is Some,
    ensures
        collected(a) == Seq::new(k as nat, |i: int| a[i]->0),
    decreases k,
{
    if k == 0 {
    } else {
        let d = a.drop_first();
        assert(forall|j: int| 0 <= j < d.len() ==> d[j] == a[j + 1]);
        lemma_collect_stops_at_null(d, k - 1);
        assert(seq![a[0]->0] + Seq::new((k - 1) as nat, |i: int| d[i]->0) =~= Seq::new(
            k as nat,
            |i: int| a[i]->0,
        ));
    }
}

/// Walk a null-terminated pointer array: `None` for the outer pointer is a
/// typed error; otherwise the entries before the first absent entry are
/// collected, and nothing past that entry is ever read.
pub fn collect_null_terminated_array(arr: Option<Vec<Option<String>>>) -> (r: Result<
    Vec<String>,
    ReadlineError,
>)
    ensures
        arr is None ==> (r matches Err(e) && e.kind == ErrorKind::NullPointer),
        arr matches Some(a) ==> (r matches Ok(v) && v@ == collected(a@)),
{
    match arr {
        None => Err(
            ReadlineError::new(ErrorKind::NullPointer, "null pointer in place of an array"),
        ),
        Some(a) => {
            let n = a.len();
            let mut out: Vec<String> = Vec::new();
            let mut i: usize = 0;
            while i < n
                invariant
                    arr == Option::Some(a),
                    n == a@.len(),
                    i <= n,
                    forall|j: int| 0 <= j < i ==> a@[j] is Some,
                    out@ == Seq::new(i as nat, |k: int| a@[k]->0),
                decreases n - i,
            {
                match &a[i] {
                    Option::None => {
                        proof {
                            lemma_collect_stops_at_null(a@, i as int);
                            assert(out@ =~= collected(a@));
                        }
                        return Ok(out);
                    },
                    Option::Some(s) => {
                        out.push(s.clone());
                        i += 1;
                        assert(out@ =~= Seq::new(i as nat, |k: int| a@[k]->0));
                    },
                }
            }
            proof {
                lemma_collected_present_prefix(a@, n as int);
                assert(a@.take(n as int) =~= a@);
                assert(out@ =~= collected(a@));
            }
            Ok(out)
        },
    }
}

/// Require a native pointer to be present: the common guard every wrapper
/// applies before touching a returned handle.
pub fn check_non_null(non_null: bool, detail: &str) -> (r: Result<(), ReadlineError>)
    ensures
        r is Ok <==> non_null,
        r matches Err(e) ==> e.kind == ErrorKind::NullPointer && e.detail@ == detail@,
{
    if non_null {
        Ok(())
    } else {
        Err(ReadlineError::new(ErrorKind::NullPointer, detail))
    }
}

} // verus!
