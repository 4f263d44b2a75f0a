use vstd::prelude::*;

verus! {

/// The number of bytes that one kernel transfer record occupies: two
/// 64-bit addresses, two 32-bit fields, a 16-bit field, two bytes and the
/// 32-bit padding, laid out in that order with natural alignment.
pub const RECORD_SIZE: usize = 32;

/// One transfer as the kernel's spidev driver reads it.
///
/// The address fields point into the buffers of the `SpidevTransfer` that
/// the record was rendered from (zero where that buffer is absent). The
/// record does not own those buffers: it is only meaningful while that
/// descriptor is alive and its buffers are not reallocated, which is why
/// it is produced by rendering a descriptor right before a device call.
#[allow(non_camel_case_types)]
#[derive(Debug, PartialEq, Eq, Structural)]
pub struct spi_ioc_transfer {
    pub tx_buf: u64,
    pub rx_buf: u64,
    pub len: u32,
    pub speed_hz: u32,
    pub delay_usecs: u16,
    pub bits_per_word: u8,
    pub cs_change: u8,
    pub pad: u32,
}

/// A transfer that owns its transmit and receive buffers.
///
/// An absent transmit buffer makes the device shift out zeroes; an absent
/// receive buffer discards what the device shifts in. A zero in an
/// override field keeps the device's own setting.
#[derive(Debug)]
pub struct SpidevTransfer {
    pub tx_buf: Option<Vec<u8>>,
    pub rx_buf: Option<Vec<u8>>,
    pub len: u32,
    pub speed_hz: u32,
    pub delay_usecs: u16,
    pub bits_per_word: u8,
    pub cs_change: u8,
    pub pad: u32,
}

/// `n` zero bytes.
pub open spec fn zeros(n: nat) -> Seq<u8> {
    Seq::new(n, |i: int| 0u8)
}

/// The contents of an optional buffer.
pub open spec fn buf_view(b: Option<Vec<u8>>) -> Option<Seq<u8>> {
    match b {
        Some(v) => Some(v@),
        None => None,
    }
}

/// The byte that encodes a flag for the kernel: 1 for set, 0 for clear.
pub open spec fn flag_value(flag: bool) -> u8 {
    if flag { 1 } else { 0 }
}

/// Encodes a flag as the kernel's one-byte boolean.
pub fn flag_byte(flag: bool) -> (r: u8)
    ensures
        r == flag_value(flag),
{
    if flag { 1 } else { 0 }
}

/// A fresh buffer of `n` zero bytes.
fn zeroed(n: usize) -> (v: Vec<u8>)
    ensures
        v@ == zeros(n as nat),
{
    let mut v: Vec<u8> = Vec::with_capacity(n);
    let mut i: usize = 0;
    while i < n
        invariant
            i <= n,
            v@ == zeros(i as nat),
        decreases n - i,
    {
        v.push(0u8);
        i = i + 1;
        assert(v@ =~= zeros(i as nat));
    }
    v
}

/// Relies on `Vec::as_ptr`: the address of the buffer's first byte, which
/// the kernel reads from or writes to during the device call.
#[verifier::external_body]
fn buffer_address(b: &Vec<u8>) -> (r: u64) {
    b.as_ptr() as usize as u64
}

impl SpidevTransfer {
    /// Every buffer that is present holds exactly `len` bytes.
    pub open spec fn wf(&self) -> bool {
        &&& (self.tx_buf matches Some(b) ==> b@.len() == self.len as nat)
        &&& (self.rx_buf matches Some(b) ==> b@.len() == self.len as nat)
    }

    /// Whether every buffer that is present holds exactly `len` bytes, so
    /// that the kernel reads and writes only inside the buffers.
    pub fn is_consistent(&self) -> (r: bool)
        ensures
            r == self.wf(),
    {
        let tx_ok = match &self.tx_buf {
            Some(b) => b.len() == self.len as usize,
            None => true,
        };
        let rx_ok = match &self.rx_buf {
            Some(b) => b.len() == self.len as usize,
            None => true,
        };
        tx_ok && rx_ok
    }

    /// `self` with only the chip-select flag replaced.
    pub open spec fn with_cs_change_spec(self, flag: bool) -> SpidevTransfer {
        SpidevTransfer { cs_change: flag_value(flag), ..self }
    }

    /// The record for this transfer when its transmit buffer lies at
    /// `tx_addr` and its receive buffer at `rx_addr`.
    pub open spec fn record_with(&self, tx_addr: u64, rx_addr: u64) -> spi_ioc_transfer {
        spi_ioc_transfer {
            tx_buf: if self.tx_buf is Some { tx_addr } else { 0 },
            rx_buf: if self.rx_buf is Some { rx_addr } else { 0 },
            len: self.len,
            speed_hz: self.speed_hz,
            delay_usecs: self.delay_usecs,
            bits_per_word: self.bits_per_word,
            cs_change: self.cs_change,
            pad: self.pad,
        }
    }

    /// `r` is a rendering of this transfer at some placement of its buffers.
    pub open spec fn renders(&self, r: spi_ioc_transfer) -> bool {
        exists|tx_addr: u64, rx_addr: u64| r == self.record_with(tx_addr, rx_addr)
    }
}

impl Default for SpidevTransfer {
    /// A transfer with no buffers, a length of zero and no overrides.
    fn default() -> (r: SpidevTransfer)
        ensures
            r.tx_buf is None,
            r.rx_buf is None,
            r.len == 0,
            r.speed_hz == 0,
            r.delay_usecs == 0,
            r.bits_per_word == 0,
            r.cs_change == 0,
            r.pad == 0,
    {
        SpidevTransfer {
            tx_buf: None,
            rx_buf: None,
            len: 0,
            speed_hz: 0,
            delay_usecs: 0,
            bits_per_word: 0,
            cs_change: 0,
            pad: 0,
        }
    }
}

impl SpidevTransfer {
    /// A pure receive of `length` bytes into a fresh zero-filled buffer;
    /// nothing is transmitted (the device shifts out zeroes).
    pub fn read(length: usize) -> (r: SpidevTransfer)
        requires
            length <= u32::MAX,
        ensures
            buf_view(r.tx_buf) == None::<Seq<u8>>,
            buf_view(r.rx_buf) == Some(zeros(length as nat)),
            r.len == length,
            r.speed_hz == 0,
            r.delay_usecs == 0,
            r.bits_per_word == 0,
            r.cs_change == 0,
            r.pad == 0,
            r.wf(),
    {
        SpidevTransfer {
            tx_buf: None,
            rx_buf: Some(zeroed(length)),
            len: length as u32,
            ..Default::default()
        }
    }

    /// A transmit of a copy of `tx_buf`, with a zero-filled receive buffer
    /// of the same length for whatever the device shifts back in.
    pub fn write(tx_buf: &[u8]) -> (r: SpidevTransfer)
        requires
            tx_buf@.len() <= u32::MAX,
        ensures
            buf_view(r.tx_buf) == Some(tx_buf@),
            buf_view(r.rx_buf) == Some(zeros(tx_buf@.len())),
            r.len == tx_buf@.len(),
            r.speed_hz == 0,
            r.delay_usecs == 0,
            r.bits_per_word == 0,
            r.cs_change == 0,
            r.pad == 0,
            r.wf(),
    {
        let len = tx_buf.len();
        let rx_buf_vec = zeroed(len);
        let mut tx_buf_vec: Vec<u8> = Vec::with_capacity(len);
        let mut i: usize = 0;
        while i < len
            invariant
                len == tx_buf@.len(),
                i <= len,
                tx_buf_vec@ == tx_buf@.subrange(0, i as int),
            decreases len - i,
        {
            tx_buf_vec.push(tx_buf[i]);
            i = i + 1;
            assert(tx_buf_vec@ =~= tx_buf@.subrange(0, i as int));
        }
        assert(tx_buf_vec@ =~= tx_buf@);
        SpidevTransfer {
            tx_buf: Some(tx_buf_vec),
            rx_buf: Some(rx_buf_vec),
            len: len as u32,
            ..Default::default()
        }
    }

    /// Sets whether the device is deselected after this transfer, before
    /// the next one of a batch starts; the buffers and the other fields are
    /// kept.
    pub fn cs_change(self, cs_change: bool) -> (r: Self)
        ensures
            r == self.with_cs_change_spec(cs_change),
            buf_view(r.tx_buf) == buf_view(self.tx_buf),
            buf_view(r.rx_buf) == buf_view(self.rx_buf),
            cs_change ==> r.cs_change != 0,
            !cs_change ==> r.cs_change == 0,
    {
        let mut r = self;
        r.cs_change = flag_byte(cs_change);
        r
    }

    /// The record for this transfer with its buffers at the given
    /// addresses; the scalar fields are copied as they are.
    pub fn render_with(&self, tx_addr: u64, rx_addr: u64) -> (r: spi_ioc_transfer)
        ensures
            r == self.record_with(tx_addr, rx_addr),
    {
        spi_ioc_transfer {
            tx_buf: if self.tx_buf.is_some() { tx_addr } else { 0 },
            rx_buf: if self.rx_buf.is_some() { rx_addr } else { 0 },
            len: self.len,
            speed_hz: self.speed_hz,
            delay_usecs: self.delay_usecs,
            bits_per_word: self.bits_per_word,
            cs_change: self.cs_change,
            pad: self.pad,
        }
    }

    /// The record for this transfer, pointing at its buffers where they
    /// are now. It stays valid only while `self` is neither dropped nor
    /// has its buffers replaced or grown.
    pub fn as_spi_ioc_transfer(&self) -> (r: spi_ioc_transfer)
        ensures
            self.renders(r),
            self.tx_buf is None ==> r.tx_buf == 0,
            self.rx_buf is None ==> r.rx_buf == 0,
    {
        let tx_addr: u64 = match &self.tx_buf {
            Some(b) => buffer_address(b),
            None => 0,
        };
        let rx_addr: u64 = match &self.rx_buf {
            Some(b) => buffer_address(b),
            None => 0,
        };
        let r = self.render_with(tx_addr, rx_addr);
        assert(r == self.record_with(tx_addr, rx_addr));
        r
    }
}

/// The records of a batch, one per transfer and in the order given, laid
/// out in one contiguous vector.
pub fn render_batch(transfers: &Vec<SpidevTransfer>) -> (r: Vec<spi_ioc_transfer>)
    ensures
        r@.len() == transfers@.len(),
        forall|i: int| 0 <= i < r@.len() ==> (#[trigger] transfers@[i]).renders(r@[i]),
{
    let mut r: Vec<spi_ioc_transfer> = Vec::with_capacity(transfers.len());
    let mut i: usize = 0;
    while i < transfers.len()
        invariant
            i <= transfers@.len(),
            r@.len() == i,
            forall|j: int| 0 <= j < i ==> (#[trigger] transfers@[j]).renders(r@[j]),
        decreases transfers@.len() - i,
    {
        r.push(transfers[i].as_spi_ioc_transfer());
        i = i + 1;
    }
    r
}

/// The size in bytes of a batch of `count` records, which the variable-size
/// device call is given; `None` where it does not fit in a `usize`.
pub fn batch_size_bytes(count: usize) -> (r: Option<usize>)
    ensures
        r == (if count * RECORD_SIZE <= usize::MAX {
            Some((count * RECORD_SIZE) as usize)
        } else {
            None::<usize>
        }),
{
    count.checked_mul(RECORD_SIZE)
}

/// A batch ready for the variable-size device call: the records of
/// `transfers` in the order given, laid out contiguously, and their total
/// size in bytes; `None` where that size does not fit in a `usize`.
pub fn prepare_batch(transfers: &Vec<SpidevTransfer>) -> (r: Option<(Vec<spi_ioc_transfer>, usize)>)
    ensures
        (transfers@.len() * RECORD_SIZE <= usize::MAX) <==> r is Some,
        r matches Some((recs, size)) ==> {
            &&& size == recs@.len() * RECORD_SIZE
            &&& recs@.len() == transfers@.len()
            &&& forall|i: int| 0 <= i < recs@.len() ==> (#[trigger] transfers@[i]).renders(recs@[i])
        },
{
    match batch_size_bytes(transfers.len()) {
        Some(size) => Some((render_batch(transfers), size)),
        None => None,
    }
}

/// Rendering one unchanged transfer twice gives records that agree on every
/// scalar field, and on each address field whose buffer is absent (zero in
/// both).
pub proof fn lemma_render_twice(t: SpidevTransfer, r1: spi_ioc_transfer, r2: spi_ioc_transfer)
    requires
        t.renders(r1),
        t.renders(r2),
    ensures
        r1.len == r2.len,
        r1.speed_hz == r2.speed_hz,
        r1.delay_usecs == r2.delay_usecs,
        r1.bits_per_word == r2.bits_per_word,
        r1.cs_change == r2.cs_change,
        r1.pad == r2.pad,
        t.tx_buf is None ==> r1.tx_buf == 0 && r2.tx_buf == 0,
        t.rx_buf is None ==> r1.rx_buf == 0 && r2.rx_buf == 0,
{
}

} // verus!
