use vstd::prelude::*;

verus! {

/// Number of octets in the fixed header section of a DNS message.
pub const HEADER_LEN: usize = 12;

/// The value of a big-endian 16-bit field.
pub open spec fn be16(hi: u8, lo: u8) -> u16 {
    (hi as u16 * 256 + lo as u16) as u16
}

/// High octet of a 16-bit value.
pub open spec fn hi8(v: u16) -> u8 {
    (v / 256) as u8
}

/// Low octet of a 16-bit value.
pub open spec fn lo8(v: u16) -> u8 {
    (v % 256) as u8
}

/// The two octets of a 16-bit value, most significant first.
pub open spec fn be16_octets(v: u16) -> Seq<u8> {
    seq![hi8(v), lo8(v)]
}

/// The four octets of a 32-bit value, most significant first.
pub open spec fn be32_octets(v: u32) -> Seq<u8> {
    seq![
        (v / 0x100_0000) as u8,
        (v / 0x1_0000 % 256) as u8,
        (v / 0x100 % 256) as u8,
        (v % 256) as u8,
    ]
}

/// Splits a 16-bit value into its two octets, most significant first.
pub fn u16_to_be(v: u16) -> (r: (u8, u8))
    ensures
        r.0 == hi8(v),
        r.1 == lo8(v),
        be16(r.0, r.1) == v,
{
    let hi: u8 = (v / 256) as u8;
    let lo: u8 = (v % 256) as u8;
    (hi, lo)
}

/// Joins two octets, most significant first, into a 16-bit value.
pub fn u16_from_be(hi: u8, lo: u8) -> (v: u16)
    ensures
        v == be16(hi, lo),
        hi8(v) == hi,
        lo8(v) == lo,
{
    let v: u16 = hi as u16 * 256 + lo as u16;
    v
}

/// Appends every octet of `src`.
pub fn push_all(out: &mut Vec<u8>, src: &[u8])
    ensures
        final(out)@ == old(out)@ + src@,
{
    let mut i: usize = 0;
    while i < src.len()
        invariant
            i <= src.len(),
            out@ == old(out)@ + src@.subrange(0, i as int),
        decreases src.len() - i,
    {
        out.push(src[i]);
        i = i + 1;
        assert(out@ =~= old(out)@ + src@.subrange(0, i as int));
    }
    assert(src@.subrange(0, src@.len() as int) =~= src@);
}

/// The flags and codes of a message header, without the section counts.
#[derive(Clone, Copy, Debug, PartialEq, Eq, Structural)]
pub struct Header {
    pub id: u16,
    pub qr: bool,
    pub opcode: u8,
    pub aa: bool,
    pub tc: bool,
    pub rd: bool,
    pub ra: bool,
    pub z: bool,
    pub ad: bool,
    pub cd: bool,
    pub rcode: u8,
}

/// One when the flag is set, zero otherwise.
pub open spec fn bit(flag: bool) -> int {
    if flag {
        1
    } else {
        0
    }
}

impl Header {
    /// Opcode and response code are four-bit fields.
    pub open spec fn wf(self) -> bool {
        self.opcode < 16 && self.rcode < 16
    }

    /// Third octet of the header: QR, opcode, AA, TC, RD.
    pub open spec fn flags_hi(self) -> u8 {
        (bit(self.qr) * 128 + self.opcode * 8 + bit(self.aa) * 4 + bit(self.tc) * 2 + bit(
            self.rd,
        )) as u8
    }

    /// Fourth octet of the header: RA, Z, AD, CD, response code.
    pub open spec fn flags_lo(self) -> u8 {
        (bit(self.ra) * 128 + bit(self.z) * 64 + bit(self.ad) * 32 + bit(self.cd) * 16
            + self.rcode) as u8
    }

    /// The first four octets of a message that carries this header.
    pub open spec fn octets(self) -> Seq<u8> {
        seq![hi8(self.id), lo8(self.id), self.flags_hi(), self.flags_lo()]
    }

    /// The header that the first four octets of a message spell.
    pub open spec fn of(octets: Seq<u8>) -> Header {
        Header {
            id: be16(octets[0], octets[1]),
            qr: octets[2] / 128 == 1,
            opcode: (octets[2] / 8 % 16) as u8,
            aa: octets[2] / 4 % 2 == 1,
            tc: octets[2] / 2 % 2 == 1,
            rd: octets[2] % 2 == 1,
            ra: octets[3] / 128 == 1,
            z: octets[3] / 64 % 2 == 1,
            ad: octets[3] / 32 % 2 == 1,
            cd: octets[3] / 16 % 2 == 1,
            rcode: (octets[3] % 16) as u8,
        }
    }

    /// Reads the header from the start of a message.
    pub fn parse(octets: &[u8]) -> (h: Header)
        requires
            octets@.len() >= 4,
        ensures
            h == Header::of(octets@),
            h.wf(),
    {
        let b2: u8 = octets[2];
        let b3: u8 = octets[3];
        Header {
            id: u16_from_be(octets[0], octets[1]),
            qr: b2 / 128 == 1,
            opcode: b2 / 8 % 16,
            aa: b2 / 4 % 2 == 1,
            tc: b2 / 2 % 2 == 1,
            rd: b2 % 2 == 1,
            ra: b3 / 128 == 1,
            z: b3 / 64 % 2 == 1,
            ad: b3 / 32 % 2 == 1,
            cd: b3 / 16 % 2 == 1,
            rcode: b3 % 16,
        }
    }

    /// Reading back what `octets` spells gives the header again.
    pub proof fn lemma_of_octets(self)
        requires
            self.wf(),
        ensures
            Header::of(self.octets()) == self,
    {
        let op = self.opcode as int;
        let hi = bit(self.qr) * 128 + op * 8 + bit(self.aa) * 4 + bit(self.tc) * 2 + bit(self.rd);
        assert(self.flags_hi() as int == hi);
        assert(hi / 128 == bit(self.qr));
        assert(hi / 8 == bit(self.qr) * 16 + op);
        assert(hi / 4 == bit(self.qr) * 32 + op * 2 + bit(self.aa));
        assert(hi / 2 == bit(self.qr) * 64 + op * 4 + bit(self.aa) * 2 + bit(self.tc));
        let rc = self.rcode as int;
        let lo = bit(self.ra) * 128 + bit(self.z) * 64 + bit(self.ad) * 32 + bit(self.cd) * 16
            + rc;
        assert(self.flags_lo() as int == lo);
        assert(lo / 128 == bit(self.ra));
        assert(lo / 64 == bit(self.ra) * 2 + bit(self.z));
        assert(lo / 32 == bit(self.ra) * 4 + bit(self.z) * 2 + bit(self.ad));
        assert(lo / 16 == bit(self.ra) * 8 + bit(self.z) * 4 + bit(self.ad) * 2 + bit(self.cd));
        let got = Header::of(self.octets());
        assert(got.id == self.id);
        assert(got.qr == self.qr);
        assert(got.opcode == self.opcode);
        assert(got.aa == self.aa);
        assert(got.tc == self.tc);
        assert(got.rd == self.rd);
        assert(got.ra == self.ra);
        assert(got.z == self.z);
        assert(got.ad == self.ad);
        assert(got.cd == self.cd);
        assert(got.rcode == self.rcode);
    }
}

/// A DNS message in wire format, long enough to hold a header.
pub struct Message {
    octets: Vec<u8>,
}

impl View for Message {
    type V = Seq<u8>;

    closed spec fn view(&self) -> Seq<u8> {
        self.octets@
    }
}

impl Message {
    #[verifier::type_invariant]
    spec fn holds_header(self) -> bool {
        self.octets@.len() >= HEADER_LEN
    }

    /// Accepts the octets when they are long enough to hold a header.
    pub fn from_octets(octets: Vec<u8>) -> (r: Option<Message>)
        ensures
            r is Some <==> octets@.len() >= HEADER_LEN,
            r matches Some(m) ==> m@ == octets@,
    {
        if octets.len() < HEADER_LEN {
            None
        } else {
            Some(Message { octets })
        }
    }

    /// The octets of the message.
    pub fn as_octets(&self) -> (r: &Vec<u8>)
        ensures
            r@ == self@,
            r@.len() >= HEADER_LEN,
    {
        proof {
            use_type_invariant(self);
        }
        &self.octets
    }

    /// Gives the octets of the message back.
    pub fn into_octets(self) -> (r: Vec<u8>)
        ensures
            r@ == self@,
            r@.len() >= HEADER_LEN,
    {
        proof {
            use_type_invariant(&self);
        }
        self.octets
    }

    /// The header of the message.
    pub fn header(&self) -> (h: Header)
        ensures
            h == Header::of(self@),
            h.wf(),
    {
        proof {
            use_type_invariant(self);
        }
        Header::parse(self.octets.as_slice())
    }

    /// Whether the response code is anything but "no error".
    pub fn is_error(&self) -> (r: bool)
        ensures
            r == (Header::of(self@).rcode != 0),
    {
        self.header().rcode != 0
    }
}

} // verus!
