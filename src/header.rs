//! The cartridge header: the 0x50 bytes at 0x100 of a ROM image.
use crate::registers::wrap8;
use vstd::prelude::*;

verus! {

/// What `String::from_utf8_lossy` makes of `b`.
pub uninterp spec fn utf8_lossy(b: Seq<u8>) -> Seq<char>;

/// Relies on `String::from_utf8_lossy`: the result depends on the bytes alone, and bytes
/// below 0x80 (valid UTF-8, one character each) decode to the same characters.
#[verifier::external_body]
fn decode_lossy(b: &Vec<u8>) -> (r: String)
    ensures
        r@ == utf8_lossy(b@),
        (forall|i: int| 0 <= i < b@.len() ==> b@[i] < 0x80) ==> r@ == b@.map_values(
            |x: u8| x as char,
        ),
{
    String::from_utf8_lossy(b).into_owned()
}

/// The index of the first zero byte of `s` at or after `i`, or its length.
pub open spec fn first_zero(s: Seq<u8>, i: int) -> int
    decreases s.len() - i,
{
    if i < 0 || i >= s.len() || s[i] == 0 {
        i
    } else {
        first_zero(s, i + 1)
    }
}

/// The bytes of a zero-terminated field.
pub open spec fn until_zero(s: Seq<u8>) -> Seq<u8> {
    s.subrange(0, first_zero(s, 0))
}

/// The header checksum over bytes 0x34 to `n` - 1: starting from 0, each byte and one more
/// are subtracted, in byte arithmetic.
pub open spec fn checksum_upto(h: Seq<u8>, n: int) -> u8
    decreases n,
{
    if n <= 0x34 {
        0
    } else {
        wrap8(checksum_upto(h, n - 1) - h[n - 1] - 1)
    }
}

/// The checksum that byte 0x4D of a header must hold.
pub open spec fn header_checksum_of(h: Seq<u8>) -> u8 {
    checksum_upto(h, 0x4D)
}

/// Computes the header checksum of `header` and compares it with byte 0x4D.
pub fn checksum_ok(header: &[u8; 0x50]) -> (r: bool)
    ensures
        r == (header_checksum_of(header@) == header@[0x4D]),
{
    let mut checksum: u8 = 0;
    let mut i: usize = 0x34;
    while i < 0x4D
        invariant
            0x34 <= i <= 0x4D,
            checksum == checksum_upto(header@, i as int),
        decreases 0x4D - i,
    {
        checksum = checksum.wrapping_sub(header[i]).wrapping_sub(1);
        i = i + 1;
    }
    checksum == header[0x4D]
}

/// Whether every byte of `h[start..end]` is below 0x80.
pub open spec fn is_ascii_field(h: Seq<u8>, start: int, end: int) -> bool {
    forall|i: int| start <= i < end ==> h[i] < 0x80
}

/// The characters of the zero-terminated field `h[start..end]`, one per byte.
pub open spec fn ascii_text(h: Seq<u8>, start: int, end: int) -> Seq<char> {
    until_zero(h.subrange(start, end)).map_values(|x: u8| x as char)
}

/// The zero-terminated text in `bytes[start..end]`.
fn extract_string(bytes: &[u8; 0x50], start: usize, end: usize) -> (r: String)
    requires
        start <= end <= 0x50,
    ensures
        r@ == utf8_lossy(until_zero(bytes@.subrange(start as int, end as int))),
        is_ascii_field(bytes@, start as int, end as int) ==> r@ == ascii_text(
            bytes@,
            start as int,
            end as int,
        ),
{
    let ghost s = bytes@.subrange(start as int, end as int);
    let mut out: Vec<u8> = Vec::new();
    let mut i: usize = start;
    while i < end && bytes[i] != 0
        invariant
            start <= i <= end <= 0x50,
            s == bytes@.subrange(start as int, end as int),
            out@ == s.subrange(0, i - start),
            first_zero(s, i - start) == first_zero(s, 0),
        decreases end - i,
    {
        out.push(bytes[i]);
        i = i + 1;
        assert(out@ =~= s.subrange(0, i - start));
    }
    assert(first_zero(s, i - start) == i - start);
    assert(out@ == until_zero(s));
    proof {
        if is_ascii_field(bytes@, start as int, end as int) {
            assert forall|k: int| 0 <= k < out@.len() implies out@[k] < 0x80 by {
                assert(out@[k] == bytes@[start + k]);
            }
        }
    }
    decode_lossy(&out)
}

pub struct Header {
    pub title: String,
    pub manufacturer_code: String,
    pub cgb_flag: u8,
    pub new_licensee_code: u16,
    pub sgb_flag: u8,
    pub cartridge_type: u8,
    pub rom_size: u8,
    pub ram_size: u8,
    pub destination_code: u8,
    pub old_licensee_code: u8,
    pub mask_rom_version_number: u8,
    pub header_checksum: u8,
    pub global_checksum: u16,
}

/// The text of the header field at `start..end`.
pub open spec fn field_text(h: Seq<u8>, start: int, end: int) -> Seq<char> {
    utf8_lossy(until_zero(h.subrange(start, end)))
}

impl Header {
    /// Whether `self` holds the fields of the header bytes `h`.
    pub open spec fn parsed_from(&self, h: Seq<u8>) -> bool {
        &&& self.title@ == field_text(h, 0x34, 0x44)
        &&& is_ascii_field(h, 0x34, 0x44) ==> self.title@ == ascii_text(h, 0x34, 0x44)
        &&& self.manufacturer_code@ == field_text(h, 0x3F, 0x43)
        &&& is_ascii_field(h, 0x3F, 0x43) ==> self.manufacturer_code@ == ascii_text(h, 0x3F, 0x43)
        &&& self.cgb_flag == h[0x43]
        &&& self.new_licensee_code == h[0x44] + h[0x45] * 256
        &&& self.sgb_flag == h[0x46]
        &&& self.cartridge_type == h[0x47]
        &&& self.rom_size == h[0x48]
        &&& self.ram_size == h[0x49]
        &&& self.destination_code == h[0x4A]
        &&& self.old_licensee_code == h[0x4B]
        &&& self.mask_rom_version_number == h[0x4C]
        &&& self.header_checksum == h[0x4D]
        &&& self.global_checksum == h[0x4E] * 256 + h[0x4F]
    }

    pub fn load_rom(header: &[u8; 0x50]) -> (r: Self)
        ensures
            r.parsed_from(header@),
    {
        Header {
            title: extract_string(header, 0x34, 0x44),
            manufacturer_code: extract_string(header, 0x3F, 0x43),
            cgb_flag: header[0x43],
            new_licensee_code: header[0x44] as u16 + header[0x45] as u16 * 256,
            sgb_flag: header[0x46],
            cartridge_type: header[0x47],
            rom_size: header[0x48],
            ram_size: header[0x49],
            destination_code: header[0x4A],
            old_licensee_code: header[0x4B],
            mask_rom_version_number: header[0x4C],
            header_checksum: header[0x4D],
            global_checksum: header[0x4E] as u16 * 256 + header[0x4F] as u16,
        }
    }

    pub fn title(&self) -> (r: &str)
        ensures
            r@ == self.title@,
    {
        self.title.as_str()
    }

    pub fn manufacturer_code(&self) -> (r: &str)
        ensures
            r@ == self.manufacturer_code@,
    {
        self.manufacturer_code.as_str()
    }

    pub fn cgb_flag(&self) -> (r: u8)
        ensures
            r == self.cgb_flag,
    {
        self.cgb_flag
    }

    /// The publisher's name, from the licensee codes.
    pub fn licencee(&self) -> (r: &'static str)
        ensures
            r == licencee_of(self.new_licensee_code, self.old_licensee_code),
    {
        get_licencee_name(self.new_licensee_code, self.old_licensee_code)
    }

    pub fn cartridge_type(&self) -> (r: u8)
        ensures
            r == self.cartridge_type,
    {
        self.cartridge_type
    }
}

/// The publisher named by the licensee codes, for the few codes known here.
pub open spec fn licencee_of(new_code: u16, old_code: u8) -> &'static str {
    if old_code == 0x33 {
        if new_code / 16 == 0 && new_code % 256 == 0 {
            "None"
        } else if new_code / 16 == 0 && new_code % 256 == 1 {
            "Nintendo R&D1"
        } else if new_code / 16 == 0 && new_code % 256 == 8 {
            "Capcom"
        } else if new_code / 16 == 1 && new_code % 256 == 3 {
            "Electronic Arts"
        } else {
            "Unknown new"
        }
    } else if old_code == 0x00 {
        "None"
    } else if old_code == 0x01 {
        "Nintendo"
    } else if old_code == 0x08 {
        "Capcom"
    } else {
        "Unknown old"
    }
}

pub fn get_licencee_name(new_code: u16, old_code: u8) -> (r: &'static str)
    ensures
        r == licencee_of(new_code, old_code),
{
    if old_code == 0x33 {
        let (high, low) = (new_code / 16, new_code % 256);
        if high == 0 && low == 0 {
            "None"
        } else if high == 0 && low == 1 {
            "Nintendo R&D1"
        } else if high == 0 && low == 8 {
            "Capcom"
        } else if high == 1 && low == 3 {
            "Electronic Arts"
        } else {
            "Unknown new"
        }
    } else {
        match old_code {
            0x00 => "None",
            0x01 => "Nintendo",
            0x08 => "Capcom",
            _ => "Unknown old",
        }
    }
}

} // verus!
