use vstd::prelude::*;
use vstd::string::*;

verus! {

/// Length in bytes of a datalog or inverter serial.
pub const SERIAL_LEN: usize = 10;

/// A 10-byte identifier of a datalog or of an inverter.
#[derive(Clone, Copy, Debug)]
pub struct Serial {
    pub bytes: [u8; 10],
}

impl View for Serial {
    type V = Seq<u8>;

    open spec fn view(&self) -> Seq<u8> {
        self.bytes@
    }
}

pub open spec fn is_alnum_byte(b: u8) -> bool {
    (0x30 <= b && b <= 0x39) || (0x41 <= b && b <= 0x5a) || (0x61 <= b && b <= 0x7a)
}

impl Serial {
    /// True when every byte is an ASCII letter or digit.
    pub fn is_alphanumeric(&self) -> (r: bool)
        ensures
            r == (forall|i: int| 0 <= i < 10 ==> is_alnum_byte(#[trigger] self@[i])),
    {
        let mut i: usize = 0;
        while i < SERIAL_LEN
            invariant
                i <= 10,
                forall|j: int| 0 <= j < i ==> is_alnum_byte(#[trigger] self@[j]),
            decreases 10 - i,
        {
            let b = self.bytes[i];
            assert(b == self@[i as int]);
            if !((0x30 <= b && b <= 0x39) || (0x41 <= b && b <= 0x5a) || (0x61 <= b && b <= 0x7a)) {
                return false;
            }
            i = i + 1;
        }
        true
    }

    /// Byte equality of two serials.
    pub fn same(&self, other: &Serial) -> (r: bool)
        ensures
            r == (self@ == other@),
    {
        let mut i: usize = 0;
        while i < SERIAL_LEN
            invariant
                i <= 10,
                forall|j: int| 0 <= j < i ==> self@[j] == other@[j],
            decreases 10 - i,
        {
            if self.bytes[i] != other.bytes[i] {
                return false;
            }
            i = i + 1;
        }
        assert(self@ =~= other@);
        true
    }
}

impl PartialEq for Serial {
    fn eq(&self, other: &Serial) -> (r: bool) {
        self.same(other)
    }
}

impl Eq for Serial {
}

impl vstd::std_specs::cmp::PartialEqSpecImpl for Serial {
    open spec fn obeys_eq_spec() -> bool {
        true
    }

    open spec fn eq_spec(&self, other: &Serial) -> bool {
        self@ == other@
    }
}

} // verus!

verus! {

impl Serial {
    /// The serial whose bytes are `buf[start..start + 10]`.
    pub fn from_bytes_at(buf: &[u8], start: usize) -> (r: Serial)
        requires
            start + 10 <= buf@.len(),
        ensures
            r@ == buf@.subrange(start as int, start + 10),
    {
        let mut bytes = [0u8; 10];
        let n: usize = buf.len();
        let mut i: usize = 0;
        while i < SERIAL_LEN
            invariant
                i <= 10,
                n == buf@.len(),
                start + 10 <= buf@.len(),
                forall|j: int| 0 <= j < i ==> bytes@[j] == buf@[start + j],
            decreases 10 - i,
        {
            bytes[i] = buf[start + i];
            i = i + 1;
        }
        let r = Serial { bytes };
        assert(r@ =~= buf@.subrange(start as int, start + 10));
        r
    }

    /// Appends the ten bytes of the serial to `out`.
    pub fn push_to(&self, out: &mut Vec<u8>)
        ensures
            final(out)@ == old(out)@ + self@,
    {
        let mut i: usize = 0;
        while i < SERIAL_LEN
            invariant
                i <= 10,
                out@ == old(out)@ + self@.subrange(0, i as int),
            decreases 10 - i,
        {
            out.push(self.bytes[i]);
            assert(self@.subrange(0, i + 1) =~= self@.subrange(0, i as int).push(self@[i as int]));
            i = i + 1;
        }
        assert(self@.subrange(0, 10) =~= self@);
    }
}

pub open spec fn is_alnum_char(c: char) -> bool {
    ('0' <= c && c <= '9') || ('A' <= c && c <= 'Z') || ('a' <= c && c <= 'z')
}

impl Serial {
    /// Parses ten ASCII letters or digits.
    pub fn parse(s: &str) -> (r: Option<Serial>)
        ensures
            r is Some <==> (s@.len() == 10 && forall|i: int|
                0 <= i < 10 ==> is_alnum_char(#[trigger] s@[i])),
            r matches Some(x) ==> forall|i: int| 0 <= i < 10 ==> x@[i] == s@[i] as u8,
    {
        let n = s.unicode_len();
        if n != 10 {
            return None;
        }
        let mut bytes = [0u8; 10];
        let mut i: usize = 0;
        while i < SERIAL_LEN
            invariant
                i <= 10,
                s@.len() == 10,
                forall|j: int| 0 <= j < i ==> is_alnum_char(#[trigger] s@[j]),
                forall|j: int| 0 <= j < i ==> bytes@[j] == s@[j] as u8,
            decreases 10 - i,
        {
            let c = s.get_char(i);
            if !(('0' <= c && c <= '9') || ('A' <= c && c <= 'Z') || ('a' <= c && c <= 'z')) {
                return None;
            }
            bytes[i] = c as u8;
            i = i + 1;
        }
        Some(Serial { bytes })
    }
}

} // verus!
