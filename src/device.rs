use vstd::prelude::*;
use crate::error::{Error, TEXT_DECODE_FAILURE};
use crate::error::INPUT_ENCODING_FAILURE;
use crate::text::{decoded_text, decode_c_text, encode_c_text, native_text};

verus! {

/// Code carried by an error when the driver reports success on open without
/// handing out a handle.
pub const MISSING_HANDLE: i32 = -1;

/// Code carried by an error when the center frequency or tuner gain query
/// answers with its failure value, zero.
pub const ZERO_REPLY: i32 = 0;

/// Code carried by an error when the sample rate query answers with its
/// failure value, zero.
pub const ZERO_SAMPLE_RATE: i32 = -1;

/// The sole owner of one open native device.
///
/// The native handle is kept as a plain address; zero marks a handle that
/// was released. The type is neither `Clone` nor `Copy`, so no second owner
/// of a handle can exist, and `release` is the one place that gives the
/// handle up.
pub struct Device {
    dev: usize,
}

impl View for Device {
    /// The handle that the device still owns, if any.
    type V = Option<usize>;

    closed spec fn view(&self) -> Option<usize> {
        if self.dev == 0 {
            None
        } else {
            Some(self.dev)
        }
    }
}

/// Releasing a device that holds `held`: afterwards it holds nothing, and
/// what it held is handed out to be closed.
pub open spec fn release_step(held: Option<usize>) -> (Option<usize>, Option<usize>) {
    (None, held)
}

/// A handle is handed out for closing at most once: whatever a device held,
/// releasing it a second time hands out nothing.
pub proof fn lemma_release_at_most_once(held: Option<usize>)
    ensures
        release_step(release_step(held).0).1 is None,
        release_step(release_step(held).0).0 is None,
{
}

/// Whether `r` is the outcome of a zero-sentinel query that answered
/// `reply`: zero means failure with `code`, any other value is the result.
pub open spec fn nonzero_result<T>(reply: T, zero: T, code: i32, r: Result<T, Error>) -> bool {
    if reply == zero {
        r matches Err(e) && e@ == code
    } else {
        r == Ok::<T, Error>(reply)
    }
}

/// Whether `r` is the outcome of a gains query whose driver announced
/// `count` slots, filled `filled` of them, and left `gains` in the buffer. A
/// count that is not positive fails with that count.
pub open spec fn gains_result(count: i32, filled: i32, gains: Seq<i32>, r: Result<Vec<i32>, Error>) -> bool {
    if count <= 0 {
        r matches Err(e) && e@ == count
    } else if filled == count {
        r matches Ok(v) && v@ == gains
    } else {
        r matches Err(e) && e@ == filled
    }
}

/// The gains query is a function of the driver's replies: two queries that
/// receive the same replies return the same gains, in the same order, or
/// the same error.
pub proof fn lemma_gains_deterministic(
    count: i32,
    filled: i32,
    gains: Seq<i32>,
    r1: Result<Vec<i32>, Error>,
    r2: Result<Vec<i32>, Error>,
)
    requires
        gains_result(count, filled, gains, r1),
        gains_result(count, filled, gains, r2),
    ensures
        r1 is Ok <==> r2 is Ok,
        r1 matches Ok(v1) ==> (r2 matches Ok(v2) && v1@ == v2@),
        r1 matches Err(e1) ==> (r2 matches Err(e2) && e1@ == e2@),
{
}

/// The number of bytes that a synchronous read into a buffer of `buf_len`
/// bytes asks the driver for.
pub open spec fn read_len(buf_len: usize) -> i32 {
    if buf_len <= i32::MAX {
        buf_len as i32
    } else {
        i32::MAX
    }
}

/// What a synchronous read does first.
#[derive(Clone, Copy, Debug, PartialEq, Eq, Structural)]
pub enum ReadStep {
    /// The read is complete with this many bytes; no transfer is made.
    Complete(usize),
    /// Ask the driver to transfer up to this many bytes.
    Transfer(i32),
}

/// Text fields read from the device's USB descriptors.
pub struct USBStrings {
    pub manufacture: String,
    pub product: String,
    pub serial: String,
}

impl Device {
    /// Takes ownership of what a native open produced: its status and the
    /// handle it wrote. A failed open owns nothing.
    pub fn new(status: i32, handle: usize) -> (r: Result<Device, Error>)
        ensures
            status != 0 ==> (r matches Err(e) && e@ == status),
            status == 0 && handle != 0 ==> (r matches Ok(d) && d@ == Some(handle)),
            status == 0 && handle == 0 ==> (r matches Err(e) && e@ == MISSING_HANDLE),
    {
        if status != 0 {
            Err(Error::new(status))
        } else if handle == 0 {
            Err(Error::new(MISSING_HANDLE))
        } else {
            Ok(Device { dev: handle })
        }
    }

    /// The native handle to pass to the driver; zero once released.
    pub fn handle(&self) -> (r: usize)
        ensures
            self@ matches Some(h) ==> r == h,
            self@ is None ==> r == 0,
    {
        self.dev
    }

    /// Gives the handle up for closing, exactly once.
    pub fn release(&mut self) -> (r: Option<usize>)
        ensures
            (final(self)@, r) == release_step(old(self)@),
    {
        let held = self.dev;
        self.dev = 0;
        if held == 0 {
            None
        } else {
            Some(held)
        }
    }

    /// Interprets the crystal frequency query: both frequencies come from
    /// one native call and are returned together on success.
    pub fn get_xtal_freq(status: i32, rtl_freq: u32, tuner_freq: u32) -> (r: Result<(u32, u32), Error>)
        ensures
            status == 0 ==> r == Ok::<(u32, u32), Error>((rtl_freq, tuner_freq)),
            status != 0 ==> (r matches Err(e) && e@ == status),
    {
        if status == 0 {
            Ok((rtl_freq, tuner_freq))
        } else {
            Err(Error::new(status))
        }
    }

    /// Interprets the USB strings query from its status and the three
    /// null-terminated buffers it filled. The call fails as a whole if any
    /// buffer does not hold well-formed text.
    pub fn get_usb_strings(status: i32, manufacture: &[u8], product: &[u8], serial: &[u8]) -> (r: Result<USBStrings, Error>)
        ensures
            status != 0 ==> (r matches Err(e) && e@ == status),
            status == 0 ==> match (decoded_text(manufacture@), decoded_text(product@), decoded_text(serial@)) {
                (Some(m), Some(p), Some(s)) => r matches Ok(u) && u.manufacture@ == m && u.product@ == p && u.serial@ == s,
                _ => r matches Err(e) && e@ == TEXT_DECODE_FAILURE,
            },
    {
        if status != 0 {
            return Err(Error::new(status));
        }
        let manufacture = match decode_c_text(manufacture) {
            Ok(s) => s,
            Err(e) => return Err(e),
        };
        let product = match decode_c_text(product) {
            Ok(s) => s,
            Err(e) => return Err(e),
        };
        let serial = match decode_c_text(serial) {
            Ok(s) => s,
            Err(e) => return Err(e),
        };
        Ok(USBStrings { manufacture, product, serial })
    }

    /// Interprets the center frequency query; zero is the driver's failure
    /// value, so a frequency of zero cannot be reported.
    pub fn get_center_freq(freq: u32) -> (r: Result<u32, Error>)
        ensures
            nonzero_result(freq, 0u32, ZERO_REPLY, r),
    {
        if freq == 0 {
            Err(Error::new(ZERO_REPLY))
        } else {
            Ok(freq)
        }
    }

    /// Interprets the tuner gain query (tenths of a dB); zero is the
    /// driver's failure value.
    pub fn get_tuner_gain(gain: i32) -> (r: Result<i32, Error>)
        ensures
            nonzero_result(gain, 0i32, ZERO_REPLY, r),
    {
        if gain == 0 {
            Err(Error::new(ZERO_REPLY))
        } else {
            Ok(gain)
        }
    }

    /// Interprets the sample rate query; zero is the driver's failure value.
    pub fn get_sample_rate(rate: u32) -> (r: Result<u32, Error>)
        ensures
            nonzero_result(rate, 0u32, ZERO_SAMPLE_RATE, r),
    {
        if rate == 0 {
            Err(Error::new(ZERO_SAMPLE_RATE))
        } else {
            Ok(rate)
        }
    }

    /// The outcome of looking a device up by `serial`, where `index` is the
    /// driver's reply to the lookup. A serial with no native form (see
    /// `encode_c_text`) fails with an encoding error before any lookup is
    /// made, and the reply is then not consulted. Otherwise a negative reply
    /// is an error and any other is the index.
    pub fn get_index_by_serial(serial: &str, index: i32) -> (r: Result<usize, Error>)
        ensures
            native_text(serial@) is None ==> (r matches Err(e) && e@ == INPUT_ENCODING_FAILURE),
            native_text(serial@) is Some && index < 0 ==> (r matches Err(e) && e@ == index),
            native_text(serial@) is Some && index >= 0 ==> r == Ok::<usize, Error>(index as usize),
    {
        if let Err(e) = encode_c_text(serial) {
            return Err(e);
        }
        if index < 0 {
            Err(Error::new(index))
        } else {
            Ok(index as usize)
        }
    }

    /// First phase of the gains query: from the count that the driver
    /// reported, the buffer to be filled, with exactly that many slots. A
    /// count that is not positive is an error carrying it.
    pub fn tuner_gains_buffer(count: i32) -> (r: Result<Vec<i32>, Error>)
        ensures
            count <= 0 ==> (r matches Err(e) && e@ == count),
            count > 0 ==> (r matches Ok(v) && v@ == Seq::new(count as nat, |i: int| 0i32)),
    {
        if count <= 0 {
            return Err(Error::new(count));
        }
        let mut gains: Vec<i32> = Vec::new();
        let mut i: i32 = 0;
        while i < count
            invariant
                0 <= i <= count,
                gains@ =~= Seq::new(i as nat, |j: int| 0i32),
            decreases count - i,
        {
            gains.push(0);
            i = i + 1;
        }
        Ok(gains)
    }

    /// Second phase of the gains query: the gains are returned only when
    /// the driver announced a positive count and filled exactly that many
    /// slots; otherwise the error carries the count that was not positive,
    /// or else the fill count.
    pub fn get_tuner_gains(count: i32, filled: i32, gains: Vec<i32>) -> (r: Result<Vec<i32>, Error>)
        ensures
            gains_result(count, filled, gains@, r),
    {
        if count <= 0 {
            Err(Error::new(count))
        } else if filled == count {
            Ok(gains)
        } else {
            Err(Error::new(filled))
        }
    }

    /// The first step of a synchronous read into a buffer of `buf_len`
    /// bytes. An empty buffer completes at once with zero bytes and needs no
    /// transfer; any other asks the driver for as many bytes as the buffer
    /// holds, up to what the driver can count.
    pub fn read_request(buf_len: usize) -> (r: ReadStep)
        ensures
            buf_len == 0 ==> r == ReadStep::Complete(0),
            buf_len > 0 ==> r == ReadStep::Transfer(read_len(buf_len)),
    {
        if buf_len == 0 {
            ReadStep::Complete(0)
        } else if buf_len <= i32::MAX as usize {
            ReadStep::Transfer(buf_len as i32)
        } else {
            ReadStep::Transfer(i32::MAX)
        }
    }

    /// The outcome of a synchronous read into a buffer of `buf_len` bytes,
    /// where `status` and `n` are the driver's reply to the transfer that
    /// `read_request` asked for. An empty buffer reads zero bytes and the
    /// reply is not consulted, as no transfer is made. Otherwise the result
    /// is the number of bytes the driver wrote, which a short read may keep
    /// below the request; a count outside `0..=requested` is an error
    /// carrying it.
    pub fn read(buf_len: usize, status: i32, n: i32) -> (r: Result<usize, Error>)
        ensures
            buf_len == 0 ==> r == Ok::<usize, Error>(0),
            buf_len > 0 && status != 0 ==> (r matches Err(e) && e@ == status),
            buf_len > 0 && status == 0 && 0 <= n <= read_len(buf_len) ==> r == Ok::<usize, Error>(n as usize),
            buf_len > 0 && status == 0 && !(0 <= n <= read_len(buf_len)) ==> (r matches Err(e) && e@ == n),
    {
        let requested = match Device::read_request(buf_len) {
            ReadStep::Complete(k) => return Ok(k),
            ReadStep::Transfer(requested) => requested,
        };
        if status != 0 {
            Err(Error::new(status))
        } else if n < 0 || n > requested {
            Err(Error::new(n))
        } else {
            Ok(n as usize)
        }
    }
}

} // verus!
