//! Text fields: a length-prefixed byte string decoded as UTF-8 or UTF-16LE.

use vstd::prelude::*;
use vstd::utf8::{decode_utf8, valid_utf8};

use super::model::PmxTextEncoding;
use super::reader::{
    PRes, PmxParser, bind, done, le_u16, spec_bytes, spec_len, step_view,
};
use crate::error::{PmxError, PmxResult};

verus! {

/// UTF-16 decoding: surrogate pairs combine into one scalar value; an unpaired
/// surrogate makes the whole sequence invalid.
pub open spec fn spec_utf16_decode(u: Seq<u16>) -> Option<Seq<char>>
    decreases u.len(),
{
    if u.len() == 0 {
        Some(Seq::empty())
    } else {
        let a = u[0];
        if a < 0xD800 || a > 0xDFFF {
            match spec_utf16_decode(u.drop_first()) {
                Some(rest) => Some(seq![(a as u32) as char] + rest),
                None => None,
            }
        } else if a <= 0xDBFF && u.len() >= 2 && 0xDC00 <= u[1] && u[1] <= 0xDFFF {
            let c: int = 0x10000 + (a - 0xD800) * 0x400 + (u[1] - 0xDC00);
            match spec_utf16_decode(u.subrange(2, u.len() as int)) {
                Some(rest) => Some(seq![(c as u32) as char] + rest),
                None => None,
            }
        } else {
            None
        }
    }
}

/// Little-endian 16-bit code units of an even-length byte sequence.
pub open spec fn le_units(b: Seq<u8>) -> Seq<u16> {
    Seq::new((b.len() / 2) as nat, |i: int| le_u16(b[2 * i], b[2 * i + 1]))
}

/// Decoding of the bytes of a text field in the given encoding.
pub open spec fn spec_decode_text(encoding: PmxTextEncoding, b: Seq<u8>) -> Result<Seq<char>, PmxError> {
    match encoding {
        PmxTextEncoding::Utf8 => if valid_utf8(b) {
            Ok(decode_utf8(b))
        } else {
            Err(PmxError::InvalidFormat("invalid UTF-8 text"))
        },
        PmxTextEncoding::Utf16Le => if b.len() % 2 != 0 {
            Err(PmxError::InvalidFormat("UTF-16LE text byte length must be even"))
        } else {
            match spec_utf16_decode(le_units(b)) {
                Some(cs) => Ok(cs),
                None => Err(PmxError::InvalidFormat("invalid UTF-16LE text")),
            }
        },
    }
}

/// A text field: a length, then that many bytes in the document's encoding.
pub open spec fn spec_text(encoding: PmxTextEncoding, s: Seq<u8>, p: int) -> PRes<Seq<char>> {
    bind(spec_len(s, p), |n: usize, q: int|
    bind(spec_bytes(s, q, n as int), |b: Seq<u8>, r: int|
        match spec_decode_text(encoding, b) {
            Ok(cs) => done(cs, r),
            Err(e) => Err(e),
        }))
}

/// `String::from_utf8`: the string when the bytes are valid UTF-8.
#[verifier::external_body]
pub(crate) fn string_from_utf8(bytes: Vec<u8>) -> (r: Option<String>)
    ensures
        r is Some <==> valid_utf8(bytes@),
        r matches Some(s) ==> s@ == decode_utf8(bytes@),
{
    String::from_utf8(bytes).ok()
}

/// `String::from_utf16`: the string when the code units are valid UTF-16.
#[verifier::external_body]
fn string_from_utf16(units: &[u16]) -> (r: Option<String>)
    ensures
        match spec_utf16_decode(units@) {
            Some(cs) => r matches Some(s) && s@ == cs,
            None => r is None,
        },
{
    String::from_utf16(units).ok()
}

/// Decodes the bytes of a PMX text field.
pub fn decode_text(encoding: PmxTextEncoding, bytes: Vec<u8>) -> (r: PmxResult<String>)
    ensures
        match spec_decode_text(encoding, bytes@) {
            Ok(cs) => r matches Ok(s) && s@ == cs,
            Err(e) => r == Err::<String, PmxError>(e),
        },
{
    match encoding {
        PmxTextEncoding::Utf8 => match string_from_utf8(bytes) {
            Some(s) => Ok(s),
            None => Err(PmxError::InvalidFormat("invalid UTF-8 text")),
        },
        PmxTextEncoding::Utf16Le => {
            if bytes.len() % 2 != 0 {
                return Err(PmxError::InvalidFormat("UTF-16LE text byte length must be even"));
            }
            let n = bytes.len() / 2;
            let mut units: Vec<u16> = Vec::new();
            let mut i: usize = 0;
            while i < n
                invariant
                    n == bytes@.len() / 2,
                    2 * n == bytes.len(),
                    i <= n,
                    units@ == le_units(bytes@).take(i as int),
                decreases n - i,
            {
                let j: usize = 2 * i;
                let b0: u8 = bytes[j];
                let b1: u8 = bytes[j + 1];
                let u: u16 = b0 as u16 + (b1 as u16) * 256;
                units.push(u);
                assert(le_units(bytes@).take(i + 1) =~= le_units(bytes@).take(i as int).push(u));
                i = i + 1;
            }
            assert(le_units(bytes@).take(n as int) =~= le_units(bytes@));
            match string_from_utf16(units.as_slice()) {
                Some(s) => Ok(s),
                None => Err(PmxError::InvalidFormat("invalid UTF-16LE text")),
            }
        },
    }
}

impl<'a> PmxParser<'a> {
    pub(crate) fn read_text(&mut self, encoding: PmxTextEncoding) -> (r: PmxResult<String>)
        requires
            old(self).wf(),
        ensures
            old(self).same_input(final(self)),
            step_view(r, spec_text(encoding, old(self).bytes@, old(self).pos as int), final(self).pos as int),
    {
        let len = self.read_len()?;
        let bytes = self.read_bytes(len)?;
        decode_text(encoding, bytes)
    }
}

} // verus!
