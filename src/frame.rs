use vstd::prelude::*;
use vstd::array::array_as_slice;
use vstd::slice::slice_subrange;

verus! {

/// Number of bytes in a payload buffer.
pub const DATA_CAPACITY: usize = 64;

/// Largest raw value of a standard (11-bit) identifier.
pub const STANDARD_ID_MAX: u16 = 0x7FF;

/// Largest raw value of an extended (29-bit) identifier.
pub const EXTENDED_ID_MAX: u32 = 0x1FFF_FFFF;

/// Standard 11-bit CAN identifier.
#[derive(Clone, Copy, Debug, PartialEq, Eq, Structural)]
pub struct StandardId {
    raw: u16,
}

impl StandardId {
    #[verifier::type_invariant]
    spec fn inv(self) -> bool {
        self.raw <= STANDARD_ID_MAX
    }

    /// The identifier as a number.
    pub closed spec fn spec_raw(self) -> u16 {
        self.raw
    }

    /// Creates an identifier, or `None` when `raw` does not fit in 11 bits.
    pub fn new(raw: u16) -> (r: Option<StandardId>)
        ensures
            r is Some <==> raw <= STANDARD_ID_MAX,
            r matches Some(id) ==> id.spec_raw() == raw,
    {
        if raw <= STANDARD_ID_MAX {
            Some(StandardId { raw })
        } else {
            None
        }
    }

    /// Returns the identifier as a number.
    pub fn as_raw(&self) -> (r: u16)
        ensures
            r == self.spec_raw(),
            r <= STANDARD_ID_MAX,
    {
        proof {
            use_type_invariant(self);
        }
        self.raw
    }
}

/// Extended 29-bit CAN identifier.
#[derive(Clone, Copy, Debug, PartialEq, Eq, Structural)]
pub struct ExtendedId {
    raw: u32,
}

impl ExtendedId {
    #[verifier::type_invariant]
    spec fn inv(self) -> bool {
        self.raw <= EXTENDED_ID_MAX
    }

    /// The identifier as a number.
    pub closed spec fn spec_raw(self) -> u32 {
        self.raw
    }

    /// Creates an identifier, or `None` when `raw` does not fit in 29 bits.
    pub fn new(raw: u32) -> (r: Option<ExtendedId>)
        ensures
            r is Some <==> raw <= EXTENDED_ID_MAX,
            r matches Some(id) ==> id.spec_raw() == raw,
    {
        if raw <= EXTENDED_ID_MAX {
            Some(ExtendedId { raw })
        } else {
            None
        }
    }

    /// Returns the identifier as a number.
    pub fn as_raw(&self) -> (r: u32)
        ensures
            r == self.spec_raw(),
            r <= EXTENDED_ID_MAX,
    {
        proof {
            use_type_invariant(self);
        }
        self.raw
    }
}

/// A standard or an extended identifier.
#[derive(Clone, Copy, Debug, PartialEq, Eq, Structural)]
pub enum Id {
    Standard(StandardId),
    Extended(ExtendedId),
}

/// Frame format: classic CAN or CAN FD.
#[derive(Clone, Copy, Debug, PartialEq, Eq, Structural)]
pub enum FrameFormat {
    Standard,
    Fdcan,
}

/// Header of a frame to transmit.
#[derive(Clone, Copy, Debug, PartialEq, Eq, Structural)]
pub struct TxFrameHeader {
    /// Payload length in bytes.
    pub len: u8,
    pub frame_format: FrameFormat,
    pub id: Id,
    /// Requests bit rate switching for the data phase.
    pub bit_rate_switching: bool,
    /// Tag that identifies the frame again if it is evicted from a mailbox.
    pub marker: Option<u8>,
}

/// The acceptance filter slot that matched a received frame.
#[derive(Clone, Copy, Debug, PartialEq, Eq, Structural)]
pub enum FilterId {
    Standard(u8),
    Extended(u8),
}

/// Header of a received frame.
#[derive(Clone, Copy, Debug, PartialEq, Eq, Structural)]
pub struct RxFrameInfo {
    /// Payload length in bytes.
    pub len: u8,
    pub frame_format: FrameFormat,
    pub id: Id,
    /// Remote transmission request.
    pub rtr: bool,
    /// The acceptance filter that matched, if any.
    pub filter_match: Option<FilterId>,
    pub bit_rate_switching: bool,
    /// Value of the time stamp counter at reception.
    pub time_stamp: u16,
}

/// Lengths that a CAN FD data length code can express.
pub open spec fn valid_len(len: int) -> bool {
    (0 <= len <= 8) || len == 12 || len == 16 || len == 20 || len == 24 || len == 32 || len == 48
        || len == 64
}

/// A payload buffer holding `bytes`, then zeros up to the capacity.
pub open spec fn padded(bytes: Seq<u8>) -> Seq<u8> {
    Seq::new(DATA_CAPACITY as nat, |i: int| if i < bytes.len() { bytes[i] } else { 0u8 })
}

/// Byte `k` (0 = least significant) of a 32-bit word.
pub open spec fn word_byte(w: u32, k: int) -> u8 {
    ((w >> (8 * k) as u32) & 0xff) as u8
}

/// The little-endian bytes of a sequence of words.
pub open spec fn le_bytes(words: Seq<u32>) -> Seq<u8> {
    Seq::new(4 * words.len(), |i: int| word_byte(words[i / 4], i % 4))
}

/// Payload of a (FD)CAN data frame: 64 bytes, of which the frame header
/// says how many count.
#[derive(Clone, Copy, Debug)]
pub struct Data {
    pub(crate) bytes: [u8; 64],
}

impl View for Data {
    type V = Seq<u8>;

    closed spec fn view(&self) -> Seq<u8> {
        self.bytes@
    }
}

impl Data {
    /// Creates a payload from a byte slice; `None` when its length has no
    /// data length code.
    pub fn new(data: &[u8]) -> (r: Option<Data>)
        ensures
            r is Some <==> valid_len(data@.len() as int),
            r matches Some(d) ==> d@ == padded(data@),
    {
        if !Data::is_valid_len(data.len()) {
            return None;
        }
        let mut bytes: [u8; 64] = [0u8; 64];
        let mut i: usize = 0;
        while i < data.len()
            invariant
                data@.len() <= DATA_CAPACITY,
                i <= data@.len(),
                bytes@.len() == DATA_CAPACITY,
                forall|j: int| 0 <= j < i ==> bytes@[j] == data@[j],
                forall|j: int| i <= j < DATA_CAPACITY ==> bytes@[j] == 0,
            decreases data@.len() - i,
        {
            bytes[i] = data[i];
            i += 1;
        }
        assert(bytes@ =~= padded(data@));
        Some(Data { bytes })
    }

    /// All 64 bytes of the buffer.
    pub fn raw(&self) -> (r: &[u8])
        ensures
            r@ == self@,
            r@.len() == DATA_CAPACITY,
    {
        array_as_slice(&self.bytes)
    }

    /// Checks whether a length can be encoded as a data length code.
    pub fn is_valid_len(len: usize) -> (r: bool)
        ensures
            r == valid_len(len as int),
    {
        match len {
            0..=8 => true,
            12 => true,
            16 => true,
            20 => true,
            24 => true,
            32 => true,
            48 => true,
            64 => true,
            _ => false,
        }
    }

    /// A payload of zeros.
    pub fn empty() -> (r: Data)
        ensures
            r@ == padded(Seq::empty()),
    {
        let bytes: [u8; 64] = [0u8; 64];
        assert(bytes@ =~= padded(Seq::empty()));
        Data { bytes }
    }
}

/// A frame to transmit.
#[derive(Clone, Copy, Debug)]
pub struct TxFrame {
    pub header: TxFrameHeader,
    pub data: Data,
}

/// A received frame.
#[derive(Clone, Copy, Debug)]
pub struct RxFrame {
    pub header: RxFrameInfo,
    pub data: Data,
}

/// Writes the little-endian bytes of `w` at `4 * i`.
fn put_word(bytes: &mut [u8; 64], i: usize, w: u32)
    requires
        4 * i + 4 <= DATA_CAPACITY,
    ensures
        final(bytes)@ == old(bytes)@.update(4 * i as int, word_byte(w, 0)).update(
            4 * i + 1,
            word_byte(w, 1),
        ).update(4 * i + 2, word_byte(w, 2)).update(4 * i + 3, word_byte(w, 3)),
{
    assert(word_byte(w, 0) == (w & 0xff) as u8) by (bit_vector);
    assert(word_byte(w, 1) == ((w >> 8) & 0xff) as u8) by (bit_vector);
    assert(word_byte(w, 2) == ((w >> 16) & 0xff) as u8) by (bit_vector);
    assert(word_byte(w, 3) == ((w >> 24) & 0xff) as u8) by (bit_vector);
    bytes[4 * i] = (w & 0xff) as u8;
    bytes[4 * i + 1] = ((w >> 8) & 0xff) as u8;
    bytes[4 * i + 2] = ((w >> 16) & 0xff) as u8;
    bytes[4 * i + 3] = ((w >> 24) & 0xff) as u8;
}

impl TxFrame {
    /// Holds the frame's logical invariant: the header length fits the buffer.
    pub open spec fn wf(&self) -> bool {
        self.header.len <= DATA_CAPACITY
    }

    /// Creates a frame; `None` when `data` is shorter than the header says or
    /// its length has no data length code.
    pub fn new(header: TxFrameHeader, data: &[u8]) -> (r: Option<TxFrame>)
        ensures
            r is Some <==> (data@.len() >= header.len && valid_len(data@.len() as int)),
            r matches Some(f) ==> {
                &&& f.header == header
                &&& f.data@ == padded(data@)
                &&& f.wf()
            },
    {
        if data.len() < header.len as usize {
            return None;
        }
        let data = match Data::new(data) {
            Some(d) => d,
            None => return None,
        };
        Some(TxFrame { header, data })
    }

    /// Rebuilds a frame from the words of a mailbox, least significant byte
    /// first.
    pub fn from_preserved(header: TxFrameHeader, data32: &[u32]) -> (r: Option<TxFrame>)
        requires
            data32@.len() <= 16,
        ensures
            r matches Some(f) && f.header == header && f.data@ == padded(le_bytes(data32@)),
    {
        let mut data: [u8; 64] = [0u8; 64];
        let mut i: usize = 0;
        while i < data32.len()
            invariant
                data32@.len() <= 16,
                i <= data32@.len(),
                data@.len() == DATA_CAPACITY,
                forall|j: int| 0 <= j < 4 * i ==> data@[j] == le_bytes(data32@)[j],
                forall|j: int| 4 * i <= j < DATA_CAPACITY ==> data@[j] == 0,
            decreases data32@.len() - i,
        {
            put_word(&mut data, i, data32[i]);
            i += 1;
        }
        assert(data@ =~= padded(le_bytes(data32@)));
        let d = match Data::new(array_as_slice(&data)) {
            Some(d) => d,
            None => return None,
        };
        assert(padded(data@) =~= data@);
        Some(TxFrame { header, data: d })
    }

    /// The payload: the first `header.len` bytes.
    pub fn data(&self) -> (r: &[u8])
        requires
            self.wf(),
        ensures
            r@ == self.data@.subrange(0, self.header.len as int),
            r@.len() == self.header.len,
    {
        slice_subrange(array_as_slice(&self.data.bytes), 0, self.header.len as usize)
    }
}

impl RxFrame {
    /// Holds the frame's logical invariant: the header length fits the buffer.
    pub open spec fn wf(&self) -> bool {
        self.header.len <= DATA_CAPACITY
    }

    /// Creates a received frame; a byte slice whose length has no data
    /// length code gives a payload of zeros.
    pub fn new(header: RxFrameInfo, data: &[u8]) -> (r: RxFrame)
        ensures
            r.header == header,
            valid_len(data@.len() as int) ==> r.data@ == padded(data@),
            !valid_len(data@.len() as int) ==> r.data@ == padded(Seq::empty()),
    {
        let data = match Data::new(data) {
            Some(d) => d,
            None => Data::empty(),
        };
        RxFrame { header, data }
    }

    /// The payload: the first `header.len` bytes.
    pub fn data(&self) -> (r: &[u8])
        requires
            self.wf(),
        ensures
            r@ == self.data@.subrange(0, self.header.len as int),
            r@.len() == self.header.len,
    {
        slice_subrange(array_as_slice(&self.data.bytes), 0, self.header.len as usize)
    }
}

/// A frame built from `data` gives back as payload exactly the first
/// `header.len` bytes of `data`.
pub proof fn lemma_tx_payload_is_prefix(header: TxFrameHeader, data: Seq<u8>)
    requires
        data.len() >= header.len,
        valid_len(data.len() as int),
    ensures
        padded(data).subrange(0, header.len as int) == data.subrange(0, header.len as int),
        padded(data).subrange(0, header.len as int).len() == header.len,
{
    assert(padded(data).subrange(0, header.len as int) =~= data.subrange(0, header.len as int));
}

} // verus!
