//! Secure status of a device and XAP protocol versions.
use vstd::prelude::*;

use crate::error::XapError;
use crate::request::XapResponse;
use crate::text::{
    chars_to_string, lemma_hex_digits_push_byte, push_hex_byte_upper, push_str, spec_hex_byte_upper,
    spec_hex_digits_value, spec_parse_hex,
};

verus! {

/// Whether the secure routes of a device may be used.
#[derive(Debug, Clone, Copy, PartialEq, Eq, Structural)]
pub enum XapSecureStatus {
    Locked,
    Unlocking,
    Unlocked,
}

impl XapSecureStatus {
    /// The status a raw status byte stands for: 1 is unlocking, 2 is
    /// unlocked and every other value is read as locked.
    pub open spec fn spec_from_u8(value: u8) -> XapSecureStatus {
        if value == 1 {
            XapSecureStatus::Unlocking
        } else if value == 2 {
            XapSecureStatus::Unlocked
        } else {
            XapSecureStatus::Locked
        }
    }

    pub fn from_u8(value: u8) -> (r: XapSecureStatus)
        ensures
            r == XapSecureStatus::spec_from_u8(value),
    {
        match value {
            1 => XapSecureStatus::Unlocking,
            2 => XapSecureStatus::Unlocked,
            _ => XapSecureStatus::Locked,
        }
    }

    /// The name of the status, as `Display` prints it.
    pub open spec fn spec_name(self) -> Seq<char> {
        match self {
            XapSecureStatus::Locked => seq!['L', 'o', 'c', 'k', 'e', 'd'],
            XapSecureStatus::Unlocking => seq!['U', 'n', 'l', 'o', 'c', 'k', 'i', 'n', 'g'],
            XapSecureStatus::Unlocked => seq!['U', 'n', 'l', 'o', 'c', 'k', 'e', 'd'],
        }
    }

    pub fn to_display_string(&self) -> (s: String)
        ensures
            s@ == self.spec_name(),
    {
        let mut out: Vec<char> = Vec::new();
        match self {
            XapSecureStatus::Locked => {
                out.push('L');
                out.push('o');
                out.push('c');
                out.push('k');
                out.push('e');
                out.push('d');
            },
            XapSecureStatus::Unlocking => {
                out.push('U');
                out.push('n');
                out.push('l');
                out.push('o');
                out.push('c');
                out.push('k');
                out.push('i');
                out.push('n');
                out.push('g');
            },
            XapSecureStatus::Unlocked => {
                out.push('U');
                out.push('n');
                out.push('l');
                out.push('o');
                out.push('c');
                out.push('k');
                out.push('e');
                out.push('d');
            },
        }
        assert(out@ =~= self.spec_name());
        chars_to_string(out)
    }
}

impl From<u8> for XapSecureStatus {
    fn from(value: u8) -> (r: XapSecureStatus)
        ensures
            r == XapSecureStatus::spec_from_u8(value),
    {
        XapSecureStatus::from_u8(value)
    }
}

impl vstd::std_specs::convert::FromSpecImpl<u8> for XapSecureStatus {
    open spec fn obeys_from_spec() -> bool {
        true
    }

    open spec fn from_spec(value: u8) -> XapSecureStatus {
        XapSecureStatus::spec_from_u8(value)
    }
}

impl Default for XapSecureStatus {
    fn default() -> (r: XapSecureStatus)
        ensures
            r == XapSecureStatus::Locked,
    {
        XapSecureStatus::Locked
    }
}

/// A status is read from one byte, as `from_u8` reads it.
impl XapResponse for XapSecureStatus {
    type Model = XapSecureStatus;

    open spec fn model(&self) -> XapSecureStatus {
        *self
    }

    open spec fn spec_decode(payload: Seq<u8>) -> Result<XapSecureStatus, XapError> {
        if payload.len() < 1 {
            Err(XapError::UnexpectedEndOfInput)
        } else {
            Ok(XapSecureStatus::spec_from_u8(payload[0]))
        }
    }

    fn decode(payload: &[u8]) -> (r: Result<XapSecureStatus, XapError>) {
        if payload.len() < 1 {
            Err(XapError::UnexpectedEndOfInput)
        } else {
            Ok(XapSecureStatus::from_u8(payload[0]))
        }
    }
}

/// A BCD-encoded XAP protocol version.
#[derive(Debug, Default, Clone, Copy, PartialEq, Eq, PartialOrd, Ord, Structural)]
pub struct XapVersion(u32);

impl XapVersion {
    /// The versions of the protocol that exist: 0.0.1, 0.1.0, 0.2.0 and 0.3.0.
    pub open spec fn spec_is_known(value: u32) -> bool {
        value == 0x01 || value == 0x0100 || value == 0x0200 || value == 0x0300
    }

    pub closed spec fn spec_value(self) -> u32 {
        self.0
    }

    /// Accepts exactly the known protocol versions.
    pub fn try_from(value: u32) -> (r: Result<XapVersion, XapError>)
        ensures
            XapVersion::spec_is_known(value) ==> (r matches Ok(v) && v.spec_value() == value),
            !XapVersion::spec_is_known(value) ==> r == Err::<XapVersion, XapError>(
                XapError::InvalidVersion(value),
            ),
    {
        match value {
            0x01 | 0x0100 | 0x0200 | 0x0300 => Ok(XapVersion(value)),
            _ => Err(XapError::InvalidVersion(value)),
        }
    }

    pub fn value(&self) -> (r: u32)
        ensures
            r == self.spec_value(),
    {
        self.0
    }

    /// The version as eight upper-case hexadecimal digits, most significant byte first.
    pub open spec fn spec_display(value: u32) -> Seq<char> {
        spec_hex_byte_upper((value / 0x100_0000) as u8) + spec_hex_byte_upper(
            ((value / 0x1_0000) % 0x100) as u8,
        ) + spec_hex_byte_upper(((value / 0x100) % 0x100) as u8) + spec_hex_byte_upper(
            (value % 0x100) as u8,
        )
    }

    pub fn to_display_string(&self) -> (s: String)
        ensures
            s@ == XapVersion::spec_display(self.spec_value()),
    {
        let v = self.0;
        let mut out: Vec<char> = Vec::new();
        push_hex_byte_upper(&mut out, (v / 0x100_0000) as u8);
        push_hex_byte_upper(&mut out, ((v / 0x1_0000) % 0x100) as u8);
        push_hex_byte_upper(&mut out, ((v / 0x100) % 0x100) as u8);
        push_hex_byte_upper(&mut out, (v % 0x100) as u8);
        assert(out@ =~= XapVersion::spec_display(v));
        chars_to_string(out)
    }
}


/// The displayed version is eight hexadecimal digits that, read back as a
/// hexadecimal `u32` (as `u32::from_str_radix(.., 16)` reads it), give the
/// version's value.
pub proof fn law_display_reads_back(value: u32)
    ensures
        XapVersion::spec_display(value).len() == 8,
        spec_parse_hex(XapVersion::spec_display(value), 0xFFFF_FFFF) == Some(value as nat),
{
    let b3 = (value / 0x100_0000) as u8;
    let b2 = ((value / 0x1_0000) % 0x100) as u8;
    let b1 = ((value / 0x100) % 0x100) as u8;
    let b0 = (value % 0x100) as u8;
    let e = Seq::<char>::empty();
    assert(spec_hex_digits_value(e) == Some(0nat));
    lemma_hex_digits_push_byte(e, 0, b3);
    let s1 = e + spec_hex_byte_upper(b3);
    lemma_hex_digits_push_byte(s1, b3 as nat, b2);
    let s2 = s1 + spec_hex_byte_upper(b2);
    lemma_hex_digits_push_byte(s2, ((b3 as nat) * 256 + b2) as nat, b1);
    let s3 = s2 + spec_hex_byte_upper(b1);
    lemma_hex_digits_push_byte(s3, (((b3 as nat) * 256 + b2) * 256 + b1) as nat, b0);
    let s4 = s3 + spec_hex_byte_upper(b0);
    assert(s4 =~= XapVersion::spec_display(value));
    assert(b3 as u32 == value / 0x100_0000);
    assert(b2 as u32 == (value / 0x1_0000) % 0x100);
    assert(b1 as u32 == (value / 0x100) % 0x100);
    assert(b0 as u32 == value % 0x100);
    assert((((value / 0x100_0000) * 0x100 + (value / 0x1_0000) % 0x100) * 0x100 + (value / 0x100)
        % 0x100) * 0x100 + value % 0x100 == value) by (bit_vector);
    assert(s4[0] != '+') by {
        assert(s4[0] == spec_hex_byte_upper(b3)[0]);
    }
}

} // verus!
