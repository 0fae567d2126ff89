use vstd::prelude::*;
use vstd::string::StringSliceAdditionalSpecFns;
use vstd::utf8::*;

verus! {

/// The value of a numeric tag field: the native library writes 0 for "unset".
pub open spec fn numeric_field(n: u32) -> Option<u32> {
    if n == 0 {
        None
    } else {
        Some(n)
    }
}

/// What `String::from_utf8_lossy` makes of a sequence of bytes.
pub uninterp spec fn lossy_decode(bytes: Seq<u8>) -> Seq<char>;

/// The text that `String::from_utf8_lossy` makes of `bytes`: valid UTF-8
/// decodes as it stands.
pub open spec fn utf8_text(bytes: Seq<u8>) -> Seq<char> {
    if valid_utf8(bytes) {
        decode_utf8(bytes)
    } else {
        lossy_decode(bytes)
    }
}

/// The value of a text tag field, given what the native library returned:
/// no string at all (a null pointer) or the bytes before its terminator.
/// Both a missing and an empty string mean "unset".
pub open spec fn text_field(raw: Option<Seq<u8>>) -> Option<Seq<char>> {
    match raw {
        None => None,
        Some(bytes) => if bytes.len() == 0 {
            None
        } else {
            Some(utf8_text(bytes))
        },
    }
}

/// The bytes held by an optional borrowed slice.
pub open spec fn raw_bytes(raw: Option<&[u8]>) -> Option<Seq<u8>> {
    match raw {
        None => None,
        Some(b) => Some(b@),
    }
}

/// The characters held by an optional string.
pub open spec fn text_of(s: Option<String>) -> Option<Seq<char>> {
    match s {
        None => None,
        Some(t) => Some(t@),
    }
}

/// Whether a byte sequence holds a NUL byte, which would end a C string early.
pub open spec fn has_nul(bytes: Seq<u8>) -> bool {
    bytes.contains(0u8)
}

/// Relies on `String::from_utf8_lossy`: valid UTF-8 is decoded as it stands,
/// every other input gets U+FFFD in place of each invalid sequence, so no
/// byte is lost without a character standing for it.
#[verifier::external_body]
fn decode_lossy(bytes: &[u8]) -> (r: String)
    ensures
        r@ == lossy_decode(bytes@),
        valid_utf8(bytes@) ==> r@ == decode_utf8(bytes@),
        bytes@.len() > 0 ==> r@.len() > 0,
{
    String::from_utf8_lossy(bytes).into_owned()
}

/// Turns a numeric tag field as the native library reports it (year, track
/// number) into an optional value: 0 is absent.
pub fn u32_to_option(n: u32) -> (r: Option<u32>)
    ensures
        r == numeric_field(n),
        r is None <==> n == 0,
{
    if n == 0 {
        None
    } else {
        Some(n)
    }
}

/// Turns a text tag field as the native library reports it into an optional
/// string. `raw` is `None` for a null pointer, else the bytes before the
/// terminator. A null pointer and an empty string are both absent; other
/// bytes are decoded as UTF-8, with U+FFFD for each invalid sequence.
pub fn c_str_to_str(raw: Option<&[u8]>) -> (r: Option<String>)
    ensures
        text_of(r) == text_field(raw_bytes(raw)),
        r is None <==> (raw is None || raw->0@.len() == 0),
        r matches Some(s) ==> s@.len() > 0,
{
    match raw {
        None => None,
        Some(bytes) => {
            if bytes.len() == 0 {
                None
            } else {
                Some(decode_lossy(bytes))
            }
        },
    }
}

/// The C string the native library is handed for `s`: its UTF-8 bytes and a
/// NUL terminator. There is none when `s` holds a NUL character, which would
/// cut the string short.
pub fn c_string(s: &str) -> (r: Option<Vec<u8>>)
    ensures
        r is None <==> has_nul(s.spec_bytes()),
        r matches Some(c) ==> c@ == s.spec_bytes().push(0u8),
{
    let bytes = s.as_bytes();
    let mut out: Vec<u8> = Vec::new();
    let mut i: usize = 0;
    while i < bytes.len()
        invariant
            bytes@ == s.spec_bytes(),
            i <= bytes@.len(),
            out@ == bytes@.subrange(0, i as int),
            !has_nul(bytes@.subrange(0, i as int)),
        decreases bytes@.len() - i,
    {
        if bytes[i] == 0 {
            assert(bytes@[i as int] == 0u8);
            return None;
        }
        out.push(bytes[i]);
        i = i + 1;
        assert(bytes@.subrange(0, i as int) == bytes@.subrange(0, i - 1 as int).push(bytes@[i - 1]));
    }
    assert(bytes@.subrange(0, i as int) == bytes@);
    out.push(0u8);
    Some(out)
}

/// A boolean as the native library reports it: every value but 0 is true.
pub fn native_bool(v: i32) -> (r: bool)
    ensures
        r == (v != 0),
{
    v != 0
}

/// An audio property (length, bit rate, sample rate, channel count) as the
/// native library reports it, read as unsigned.
pub fn property_value(v: i32) -> (r: u32)
    ensures
        r == v as u32,
        v >= 0 ==> r == v,
{
    v as u32
}

/// Text written through a tag setter reads back unchanged: the C string
/// handed to the native library for a nonempty text without NUL, read back
/// up to its terminator, is that text again. (An empty text reads back as
/// absent.)
pub proof fn lemma_text_round_trip(s: &str)
    requires
        !has_nul(s.spec_bytes()),
        s@.len() > 0,
    ensures
        ({
            let written = s.spec_bytes().push(0u8);
            text_field(Some(written.subrange(0, written.len() - 1))) == Some(s@)
        }),
{
    let written = s.spec_bytes().push(0u8);
    assert(written.subrange(0, written.len() - 1) =~= s.spec_bytes());
    encode_utf8_valid_utf8(s@);
    encode_utf8_decode_utf8(s@);
    if s.spec_bytes().len() == 0 {
        assert(decode_utf8(s.spec_bytes()) =~= Seq::<char>::empty());
    }
}

/// A number written through a tag setter reads back unchanged unless it is
/// 0, which the native library keeps as "unset" and reads back as absent.
pub proof fn lemma_number_round_trip(n: u32)
    ensures
        n != 0 ==> numeric_field(n) == Some(n),
        n == 0 ==> numeric_field(n) is None,
{
}

} // verus!
