//! Plain-value records that the native library fills in, and the rules for
//! reading them.
//!
//! The native library describes a device through fixed-layout records: a
//! device-information record with a fixed 33-byte serial buffer, a firmware
//! or FPGA version, a rational sample rate, cached tuning parameters, and
//! per-transfer stream metadata.  This module holds those records as plain
//! values, together with the verified rules for reading the serial buffer
//! as text.

use vstd::prelude::*;

verus! {

/// Identity of an attached device: the numeric backend code the native
/// library reports, the raw serial buffer, and the USB address.
#[derive(Clone, Debug)]
pub struct DevInfo {
    pub backend: u32,
    pub serial: Vec<u8>,
    pub usb_bus: u8,
    pub usb_addr: u8,
    pub instance: u32,
}

/// A firmware or FPGA version, with the free-text description the native
/// library attaches to it.
#[derive(Clone, Debug)]
pub struct Version {
    pub major: u16,
    pub minor: u16,
    pub patch: u16,
    pub describe: String,
}

/// A sample rate expressed as `integer + num / den` hertz.
#[derive(Copy, Clone, Debug, PartialEq, Eq, Structural)]
pub struct RationalRate {
    pub integer: u64,
    pub num: u64,
    pub den: u64,
}

/// Cached tuning parameters for fast retuning.
#[derive(Copy, Clone, Debug, PartialEq, Eq, Structural)]
pub struct QuickTune {
    pub freqsel: u8,
    pub vcocap: u8,
    pub nint: u16,
    pub nfrac: u32,
    pub flags: u8,
}

/// Metadata of one synchronous stream transfer.
#[derive(Copy, Clone, Debug, PartialEq, Eq, Structural)]
pub struct Metadata {
    pub timestamp: u64,
    pub flags: u32,
    pub status: u32,
    pub actual_count: u32,
}

impl Default for RationalRate {
    /// The all-zero record, as the native library's zero-initialisation
    /// gives it.
    fn default() -> (r: Self)
        ensures
            r.integer == 0 && r.num == 0 && r.den == 0,
    {
        RationalRate { integer: 0, num: 0, den: 0 }
    }
}

impl Default for QuickTune {
    /// The all-zero record, as the native library's zero-initialisation
    /// gives it.
    fn default() -> (r: Self)
        ensures
            r.freqsel == 0 && r.vcocap == 0 && r.nint == 0 && r.nfrac == 0 && r.flags == 0,
    {
        QuickTune { freqsel: 0, vcocap: 0, nint: 0, nfrac: 0, flags: 0 }
    }
}

impl Default for Metadata {
    /// The all-zero record, handed to a stream call that should fill it.
    fn default() -> (r: Self)
        ensures
            r.timestamp == 0 && r.flags == 0 && r.status == 0 && r.actual_count == 0,
    {
        Metadata { timestamp: 0, flags: 0, status: 0, actual_count: 0 }
    }
}

impl Default for DevInfo {
    /// The all-zero record: unknown backend, a serial buffer of 33 zero
    /// bytes, and a zero USB address.
    fn default() -> (r: Self)
        ensures
            r.backend == 0 && r.usb_bus == 0 && r.usb_addr == 0 && r.instance == 0,
            r.serial@.len() == 33,
            forall|i: int| 0 <= i < r.serial@.len() ==> r.serial@[i] == 0,
    {
        let mut serial: Vec<u8> = Vec::new();
        let mut i: usize = 0;
        while i < 33
            invariant
                0 <= i <= 33,
                serial@.len() == i,
                forall|j: int| 0 <= j < i ==> serial@[j] == 0,
            decreases 33 - i,
        {
            serial.push(0);
            i += 1;
        }
        DevInfo { backend: 0, serial, usb_bus: 0, usb_addr: 0, instance: 0 }
    }
}

/// Whether a byte sequence holds a zero byte.
pub open spec fn contains_nul(s: Seq<u8>) -> bool {
    exists|i: int| 0 <= i < s.len() && s[i] == 0
}

/// The bytes strictly before the first zero byte; the whole sequence when
/// no zero byte occurs.
pub open spec fn prefix_before_nul(s: Seq<u8>) -> Seq<u8>
    decreases s.len(),
{
    if s.len() == 0 {
        Seq::empty()
    } else if s[0] == 0 {
        Seq::empty()
    } else {
        seq![s[0]] + prefix_before_nul(s.skip(1))
    }
}

/// Whether every byte of a sequence is ASCII.
pub open spec fn ascii_bytes(s: Seq<u8>) -> bool {
    forall|i: int| 0 <= i < s.len() ==> s[i] < 128
}

/// The characters that a byte sequence spells, one character per byte.
pub open spec fn chars_of_bytes(s: Seq<u8>) -> Seq<char> {
    s.map_values(|b: u8| b as char)
}

/// Relies on `String::from_utf8_lossy`: a byte sequence that is all ASCII
/// is valid UTF-8 and decodes unchanged, one character per byte.
#[verifier::external_body]
fn lossy_string(bytes: &Vec<u8>) -> (r: String)
    ensures
        ascii_bytes(bytes@) ==> r@ == chars_of_bytes(bytes@),
{
    String::from_utf8_lossy(bytes).into_owned()
}

impl DevInfo {
    /// The serial number as text: the bytes of the serial buffer up to its
    /// zero terminator.  A buffer with no terminator reads as empty, and so
    /// does one whose content is not plain ASCII text.
    pub fn serial(&self) -> (r: String)
        ensures
            contains_nul(self.serial@) && ascii_bytes(prefix_before_nul(self.serial@)) ==> r@
                == chars_of_bytes(prefix_before_nul(self.serial@)),
            !contains_nul(self.serial@) ==> r@ == Seq::<char>::empty(),
    {
        let n = self.serial.len();
        let mut end: usize = 0;
        while end < n && *self.serial.get(end).unwrap() != 0
            invariant
                0 <= end <= n,
                n == self.serial@.len(),
                forall|i: int| 0 <= i < end ==> self.serial@[i] != 0,
            decreases n - end,
        {
            end += 1;
        }
        if end == n {
            proof {
                assert(!contains_nul(self.serial@));
            }
            let r = String::new();
            return r;
        }
        let mut prefix: Vec<u8> = Vec::new();
        let mut i: usize = 0;
        while i < end
            invariant
                0 <= i <= end < n,
                n == self.serial@.len(),
                self.serial@[end as int] == 0,
                forall|j: int| 0 <= j < end ==> self.serial@[j] != 0,
                prefix@ == self.serial@.take(i as int),
            decreases end - i,
        {
            prefix.push(*self.serial.get(i).unwrap());
            i += 1;
        }
        proof {
            lemma_prefix_before_nul_take(self.serial@, end as int);
        }
        lossy_string(&prefix)
    }
}

/// When a sequence has its first zero byte at position `k`, the prefix
/// before the zero byte is exactly the first `k` bytes.
proof fn lemma_prefix_before_nul_take(s: Seq<u8>, k: int)
    requires
        0 <= k < s.len(),
        s[k] == 0,
        forall|j: int| 0 <= j < k ==> s[j] != 0,
    ensures
        prefix_before_nul(s) == s.take(k),
    decreases k,
{
    if k == 0 {
        assert(prefix_before_nul(s) == Seq::<u8>::empty());
        assert(s.take(0) =~= Seq::<u8>::empty());
    } else {
        lemma_prefix_before_nul_take(s.skip(1), k - 1);
        assert(prefix_before_nul(s) == seq![s[0]] + prefix_before_nul(s.skip(1)));
        assert(s.take(k) =~= seq![s[0]] + s.skip(1).take(k - 1));
    }
}

/// Read a buffer of C characters as text, one character per byte.
///
/// This is the rule behind fetching the serial number straight from the
/// hardware, where the native call fills a fixed 33-byte buffer: every byte
/// of the buffer is kept, zero bytes included.  Bytes that are not plain
/// ASCII leave the result unspecified beyond what the lossy decoding gives.
pub fn text_from_c_chars(data: &Vec<i8>) -> (r: String)
    ensures
        (forall|i: int| 0 <= i < data@.len() ==> data@[i] >= 0) ==> r@ == chars_of_bytes(
            data@.map_values(|b: i8| b as u8),
        ),
{
    let mut bytes: Vec<u8> = Vec::new();
    let mut i: usize = 0;
    while i < data.len()
        invariant
            0 <= i <= data@.len(),
            bytes@ == data@.take(i as int).map_values(|b: i8| b as u8),
        decreases data@.len() - i,
    {
        bytes.push(*data.get(i).unwrap() as u8);
        assert(bytes@ =~= data@.take(i + 1).map_values(|b: i8| b as u8));
        i += 1;
    }
    assert(bytes@ =~= data@.map_values(|b: i8| b as u8));
    lossy_string(&bytes)
}

} // verus!
