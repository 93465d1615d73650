use vstd::prelude::*;

verus! {

/// The largest payload length that a header can carry (24 bits).
pub const MAX_LENGTH: usize = 0xFF_FFFF;

/// A wire tag that names no known frame kind: never 1 to 6, so that no tag
/// spells two kinds.
#[derive(Clone, Copy, Debug, PartialEq, Eq, Structural)]
pub struct UnknownTag {
    tag: u8,
}

impl UnknownTag {
    /// The tag is never that of a known kind.
    #[verifier::type_invariant]
    spec fn inv(self) -> bool {
        self.tag < 1 || self.tag > 6
    }

    /// The raw tag.
    pub closed spec fn spec_tag(self) -> u8 {
        self.tag
    }

    /// The raw tag, for diagnostics.
    pub fn tag(&self) -> (r: u8)
        ensures
            r == self.spec_tag(),
            r < 1 || r > 6,
    {
        proof {
            use_type_invariant(self);
        }
        self.tag
    }

    /// Unknown tags are equal when their raw tags are.
    pub proof fn tag_injective(a: UnknownTag, b: UnknownTag)
        requires
            a.spec_tag() == b.spec_tag(),
        ensures
            a == b,
    {
    }
}

/// What a frame's payload holds.
#[derive(Clone, Copy, Debug, PartialEq, Eq, Structural)]
pub enum USBDataType {
    TEXT,
    RAWBINARY,
    HEADER,
    SCREENSHOT,
    HEARTBEAT,
    RDBPACKET,
    /// A tag that names none of the kinds above, kept for diagnostics.
    Unknown(UnknownTag),
}

/// The wire tag of a frame kind.
pub open spec fn kind_tag(k: USBDataType) -> u8 {
    match k {
        USBDataType::TEXT => 1,
        USBDataType::RAWBINARY => 2,
        USBDataType::HEADER => 3,
        USBDataType::SCREENSHOT => 4,
        USBDataType::HEARTBEAT => 5,
        USBDataType::RDBPACKET => 6,
        USBDataType::Unknown(u) => u.spec_tag(),
    }
}

/// The frame kind that a wire tag names.
pub closed spec fn kind_of_tag(t: u8) -> USBDataType {
    if t == 1 {
        USBDataType::TEXT
    } else if t == 2 {
        USBDataType::RAWBINARY
    } else if t == 3 {
        USBDataType::HEADER
    } else if t == 4 {
        USBDataType::SCREENSHOT
    } else if t == 5 {
        USBDataType::HEARTBEAT
    } else if t == 6 {
        USBDataType::RDBPACKET
    } else {
        USBDataType::Unknown(UnknownTag { tag: t })
    }
}

/// A kind as a value of the type can hold it: an `Unknown` tag names no
/// known kind.
pub open spec fn kind_canonical(k: USBDataType) -> bool {
    k matches USBDataType::Unknown(u) ==> (u.spec_tag() < 1 || u.spec_tag() > 6)
}

/// A tag read as a kind and written back is itself; the kind is one the type
/// can hold.
pub proof fn tag_round_trip(t: u8)
    ensures
        kind_tag(kind_of_tag(t)) == t,
        kind_canonical(kind_of_tag(t)),
{
}

/// A frame kind read back from its tag is itself.
pub proof fn kind_tag_round_trip(k: USBDataType)
    requires
        kind_canonical(k),
    ensures
        kind_of_tag(kind_tag(k)) == k,
{
    if let USBDataType::Unknown(u) = k {
        UnknownTag::tag_injective(u, UnknownTag { tag: u.spec_tag() });
    }
}

/// A kind is identified by its tag: two kinds with one tag are the same kind.
pub proof fn kind_tag_identifies(a: USBDataType, b: USBDataType)
    requires
        kind_canonical(a),
        kind_canonical(b),
        kind_tag(a) == kind_tag(b),
    ensures
        a == b,
{
    kind_tag_round_trip(a);
    kind_tag_round_trip(b);
}

impl USBDataType {
    /// The kind that a wire tag names; a tag that names no known kind is kept.
    pub fn from_tag(t: u8) -> (r: USBDataType)
        ensures
            r == kind_of_tag(t),
            kind_tag(r) == t,
            kind_canonical(r),
    {
        match t {
            1 => USBDataType::TEXT,
            2 => USBDataType::RAWBINARY,
            3 => USBDataType::HEADER,
            4 => USBDataType::SCREENSHOT,
            5 => USBDataType::HEARTBEAT,
            6 => USBDataType::RDBPACKET,
            _ => USBDataType::Unknown(UnknownTag { tag: t }),
        }
    }

    /// The wire tag of this kind.
    pub fn tag(&self) -> (r: u8)
        ensures
            r == kind_tag(*self),
            kind_canonical(*self),
    {
        match *self {
            USBDataType::TEXT => 1,
            USBDataType::RAWBINARY => 2,
            USBDataType::HEADER => 3,
            USBDataType::SCREENSHOT => 4,
            USBDataType::HEARTBEAT => 5,
            USBDataType::RDBPACKET => 6,
            USBDataType::Unknown(u) => u.tag(),
        }
    }
}

/// The header of a frame: its kind and its payload length.
#[derive(Clone, Copy, Debug, PartialEq, Eq, Structural)]
pub struct Header {
    pub datatype: USBDataType,
    pub length: usize,
}

/// The 32-bit wire word of a header: the kind's tag in the top 8 bits, the
/// length, masked to 24 bits, below.
pub open spec fn header_word(h: Header) -> u32 {
    ((kind_tag(h.datatype) as u32) << 24u32) | ((h.length as u32) & 0xFF_FFFFu32)
}

/// The header that a 32-bit wire word carries.
pub open spec fn header_of_word(w: u32) -> Header {
    Header { datatype: kind_of_tag((w >> 24u32) as u8), length: (w & 0xFF_FFFFu32) as usize }
}

impl Header {
    /// Reads a header from its 32-bit wire word.
    pub fn from_raw(raw: u32) -> (r: Header)
        ensures
            r == header_of_word(raw),
            r.length <= MAX_LENGTH,
            kind_canonical(r.datatype),
    {
        let tag: u8 = (raw >> 24u32) as u8;
        let length: u32 = raw & 0xFF_FFFFu32;
        assert(length <= 0xFF_FFFFu32) by (bit_vector)
            requires
                length == raw & 0xFF_FFFFu32,
        ;
        Header { datatype: USBDataType::from_tag(tag), length: length as usize }
    }

    /// The 32-bit wire word of this header; the length is masked to 24 bits.
    pub fn to_raw(&self) -> (r: u32)
        ensures
            r == header_word(*self),
    {
        let tag: u8 = self.datatype.tag();
        ((tag as u32) << 24u32) | ((self.length as u32) & 0xFF_FFFFu32)
    }
}

} // verus!
