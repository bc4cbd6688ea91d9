//! The client command protocol and the framing of capture data.
//!
//! A client speaks in fixed five-byte request frames.  Byte zero selects
//! the command; a leading `*` is accepted as an identification request
//! for compatibility with identification-protocol clients, whatever the
//! remaining bytes hold.  Capture data is answered as a byte stream cut
//! into chunks no larger than the transport's safe payload size.

use vstd::prelude::*;

use vstd::string::StringExecFns;

verus! {

/// Length of a client request frame, in bytes.
pub const REQUEST_LEN: usize = 5;

/// Largest payload written in one piece: an Ethernet frame of 1500
/// bytes minus 20 bytes of IP header and 20 bytes of TCP header.
pub const MAX_PAYLOAD: usize = 1460;

/// A client command.
#[derive(Clone, Copy, Debug, PartialEq, Eq, Structural)]
pub enum Command {
    /// Identification request.
    HwId,
    /// Read the capture configuration.
    ConfigGet,
    /// Apply a capture configuration.
    ConfigSet,
    /// Enter the capture-and-stream loop.
    AcquisitionStart,
    /// Stop an in-progress stream.
    AcquisitionStop,
    /// A well-formed frame with an unassigned command byte; ignored,
    /// the connection stays open for the next frame.
    Unknown,
    /// The frame could not be read in full (disconnect or truncation).
    Error,
}

/// The command assigned to a numeric command byte.
pub open spec fn spec_command_of_code(code: u8) -> Command {
    if code == 0 {
        Command::HwId
    } else if code == 1 {
        Command::ConfigGet
    } else if code == 2 {
        Command::ConfigSet
    } else if code == 3 {
        Command::AcquisitionStart
    } else if code == 4 {
        Command::AcquisitionStop
    } else {
        Command::Unknown
    }
}

/// Map a numeric command byte to its command.
pub fn command_of_code(code: u8) -> (c: Command)
    ensures
        c == spec_command_of_code(code),
{
    match code {
        0 => Command::HwId,
        1 => Command::ConfigGet,
        2 => Command::ConfigSet,
        3 => Command::AcquisitionStart,
        4 => Command::AcquisitionStop,
        _ => Command::Unknown,
    }
}

/// The command a received frame resolves to: a short read is a read
/// error, a leading `*` is an identification request, anything else
/// goes by the numeric command byte.
pub open spec fn spec_parse_command(frame: Seq<u8>) -> Command {
    if frame.len() != REQUEST_LEN {
        Command::Error
    } else if frame[0] == 0x2au8 {
        Command::HwId
    } else {
        spec_command_of_code(frame[0])
    }
}

/// Parse the bytes read for one request frame.  Callers pass exactly
/// what the transport delivered; fewer than five bytes mean the peer
/// disconnected or the frame was truncated.
pub fn parse_command(frame: &Vec<u8>) -> (c: Command)
    ensures
        c == spec_parse_command(frame@),
{
    if frame.len() != REQUEST_LEN {
        Command::Error
    } else if frame[0] == 0x2au8 {
        Command::HwId
    } else {
        command_of_code(frame[0])
    }
}

/// Low byte of a sample: what the truncated wire format keeps.
pub open spec fn spec_low_byte(s: u16) -> u8 {
    (s & 0xff) as u8
}

/// High byte of a sample.
pub open spec fn spec_high_byte(s: u16) -> u8 {
    (s >> 8) as u8
}

/// A sample sequence narrowed to its low bytes.
pub open spec fn spec_truncated(samples: Seq<u16>) -> Seq<u8> {
    Seq::new(samples.len(), |i: int| spec_low_byte(samples[i]))
}

/// A sample sequence encoded two bytes per sample, low byte first.
pub open spec fn spec_widened(samples: Seq<u16>) -> Seq<u8> {
    Seq::new(
        2 * samples.len(),
        |i: int|
            if i % 2 == 0 {
                spec_low_byte(samples[i / 2])
            } else {
                spec_high_byte(samples[i / 2])
            },
    )
}

/// Narrow each sample to its low eight bits: the bandwidth-saving wire
/// format.  The high byte of every sample is discarded.
pub fn truncate_samples(samples: &Vec<u16>) -> (r: Vec<u8>)
    ensures
        r@ == spec_truncated(samples@),
        r@.len() == samples@.len(),
        forall|i: int| 0 <= i < r@.len() ==> r@[i] == spec_low_byte(samples@[i]),
{
    let mut out: Vec<u8> = Vec::new();
    let mut i: usize = 0;
    while i < samples.len()
        invariant
            i <= samples@.len(),
            out@.len() == i,
            forall|j: int| 0 <= j < i ==> out@[j] == spec_low_byte(samples@[j]),
        decreases samples@.len() - i,
    {
        let s = samples[i];
        let masked: u16 = s & 0xff;
        proof {
            assert(s & 0xff <= 0xff) by (bit_vector);
        }
        out.push(masked as u8);
        i += 1;
    }
    proof {
        assert(out@ =~= spec_truncated(samples@));
    }
    out
}

/// Encode each sample as two bytes, low byte first: the full-width wire
/// format, which loses nothing.
pub fn widen_samples(samples: &Vec<u16>) -> (r: Vec<u8>)
    requires
        samples@.len() * 2 <= usize::MAX,
    ensures
        r@ == spec_widened(samples@),
        r@.len() == samples@.len() * 2,
        forall|i: int| 0 <= i < samples@.len() ==> r@[2 * i] == spec_low_byte(samples@[i]),
        forall|i: int| 0 <= i < samples@.len() ==> r@[2 * i + 1] == spec_high_byte(samples@[i]),
    {
    let mut out: Vec<u8> = Vec::new();
    let mut i: usize = 0;
    while i < samples.len()
        invariant
            samples@.len() * 2 <= usize::MAX,
            i <= samples@.len(),
            out@.len() == 2 * i,
            forall|j: int| 0 <= j < i ==> out@[2 * j] == spec_low_byte(samples@[j]),
            forall|j: int| 0 <= j < i ==> out@[2 * j + 1] == spec_high_byte(samples@[j]),
        decreases samples@.len() - i,
    {
        let s = samples[i];
        let lo: u16 = s & 0xff;
        let hi: u16 = s >> 8;
        proof {
            assert(s & 0xff <= 0xff) by (bit_vector);
            assert(s >> 8u16 <= 0xff) by (bit_vector);
        }
        out.push(lo as u8);
        out.push(hi as u8);
        i += 1;
    }
    proof {
        assert forall|k: int| 0 <= k < out@.len() implies out@[k] == spec_widened(samples@)[k] by {
            let j = k / 2;
            if k % 2 == 0 {
                assert(k == 2 * j);
            } else {
                assert(k == 2 * j + 1);
            }
        }
        assert(out@ =~= spec_widened(samples@));
    }
    out
}

/// End of the `i`-th chunk of a payload of `len` bytes cut at `limit`.
pub open spec fn spec_chunk_end(len: int, limit: int, i: int) -> int {
    if (i + 1) * limit <= len {
        (i + 1) * limit
    } else {
        len
    }
}

/// Cut a payload into write-sized chunks: every chunk but the last is
/// exactly `limit` bytes, the last holds the remainder, and read in
/// order the chunks are the payload.  An empty payload needs no write.
pub fn chunk_payload(data: &Vec<u8>, limit: usize) -> (r: Vec<Vec<u8>>)
    requires
        limit >= 1,
    ensures
        data@.len() == 0 ==> r@.len() == 0,
        data@.len() > 0 ==> (r@.len() - 1) * limit < data@.len() <= r@.len() * limit,
        forall|i: int| 0 <= i < r@.len() ==> r@[i]@ == data@.subrange(
            i * limit,
            spec_chunk_end(data@.len() as int, limit as int, i),
        ),
{
    let mut r: Vec<Vec<u8>> = Vec::new();
    let mut pos: usize = 0;
    proof {
        assert(r@.len() * limit == 0) by (nonlinear_arith)
            requires
                r@.len() == 0,
        ;
    }
    while pos < data.len()
        invariant
            limit >= 1,
            pos <= data@.len(),
            pos == r@.len() * limit || pos == data@.len(),
            r@.len() == 0 ==> pos == 0,
            r@.len() > 0 ==> (r@.len() - 1) * limit < pos,
            pos <= r@.len() * limit,
            forall|i: int| 0 <= i < r@.len() ==> r@[i]@ == data@.subrange(
                i * limit,
                spec_chunk_end(data@.len() as int, limit as int, i),
            ),
        decreases data@.len() - pos,
    {
        let remaining = data.len() - pos;
        let take = if remaining < limit {
            remaining
        } else {
            limit
        };
        let end = pos + take;
        let ghost chunk_idx = r@.len() as int;
        proof {
            assert(pos == chunk_idx * limit);
            assert((chunk_idx + 1) * limit == chunk_idx * limit + limit) by (nonlinear_arith);
            assert(end as int == spec_chunk_end(data@.len() as int, limit as int, chunk_idx));
        }
        let mut chunk: Vec<u8> = Vec::new();
        let mut j = pos;
        while j < end
            invariant
                pos <= j <= end,
                end <= data@.len(),
                chunk@ == data@.subrange(pos as int, j as int),
            decreases end - j,
        {
            let byte = data[j];
            chunk.push(byte);
            proof {
                assert(data@.subrange(pos as int, j + 1) =~= data@.subrange(
                    pos as int,
                    j as int,
                ).push(data@[j as int]));
            }
            j += 1;
        }
        r.push(chunk);
        proof {
            assert((chunk_idx + 1) * limit == chunk_idx * limit + limit) by (nonlinear_arith);
        }
        pos = end;
    }
    proof {
        if data@.len() > 0 {
            assert(r@.len() > 0);
        }
    }
    r
}

/// Identification line answered to an identification request: vendor,
/// model and firmware, with the host serial number appended by the
/// caller from its identity source.
pub fn hwid_response(serial: &str) -> (r: String)
    ensures
        r@ == "RedPitaya,RedPitaya,Mercury,"@ + serial@,
{
    let mut line = String::from_str("RedPitaya,RedPitaya,Mercury,");
    line.append(serial);
    line
}

} // verus!
