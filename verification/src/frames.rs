//! Builders for the chip's outgoing report frames: the fixed command frames
//! (enable, reset, configure UART) and the data-write frames that carry UART
//! payload bytes.

use vstd::prelude::*;

use crate::ProtocolError;

verus! {

/// Report selector that introduces every command frame.
pub const FEATURE_REPORT_ID: u8 = 0xA1;

/// Sub-command: enable the UART function.
pub const SUBCMD_ENABLE_UART: u8 = 0x03;

/// Sub-command: reset the UART function.
pub const SUBCMD_RESET_UART: u8 = 0x40;

/// Sub-command: configure the UART parameters.
pub const SUBCMD_CONFIGURE_UART: u8 = 0x41;

/// Mode byte carried by the enable-UART frame; fixed by the protocol.
pub const ENABLE_UART_MODE: u8 = 0x04;

/// Default flow-control byte of the configure frame. The protocol fixes this
/// value today; `UartParameters` still carries it as an explicit field so the
/// constant is visible and overridable.
pub const DEFAULT_FLOW_CTRL: u8 = 0x04;

/// Largest payload a single data-write report can carry.
pub const MAX_DATA_PAYLOAD: usize = 59;

/// Total size of a report padded for a transport that mandates fixed-size
/// frames, and of every received report buffer.
pub const FRAME_SIZE: usize = 64;

/// UART settings as the configure frame serializes them. The baud rate is
/// sent as four little-endian bytes; the remaining fields are single bytes
/// passed through unvalidated, their interpretation left to the chip.
#[derive(Clone, Copy, Debug, PartialEq, Eq, Structural)]
pub struct UartParameters {
    pub flow_ctrl: u8,
    pub baud_rate: u32,
    pub data_bits: u8,
    pub parity: u8,
    pub stop_bits: u8,
    pub break_ctl: u8,
}

impl UartParameters {
    /// Parameters with the protocol's default flow-control byte.
    pub fn new(baud_rate: u32, data_bits: u8, parity: u8, stop_bits: u8, break_ctl: u8)
        -> (p: UartParameters)
        ensures
            p == (UartParameters {
                flow_ctrl: DEFAULT_FLOW_CTRL,
                baud_rate,
                data_bits,
                parity,
                stop_bits,
                break_ctl,
            }),
    {
        UartParameters { flow_ctrl: DEFAULT_FLOW_CTRL, baud_rate, data_bits, parity, stop_bits, break_ctl }
    }
}

/// The enable-UART command frame.
pub open spec fn enable_uart_frame() -> Seq<u8> {
    seq![FEATURE_REPORT_ID, SUBCMD_ENABLE_UART, ENABLE_UART_MODE]
}

/// The reset-UART command frame.
pub open spec fn reset_uart_frame() -> Seq<u8> {
    seq![FEATURE_REPORT_ID, SUBCMD_RESET_UART]
}

/// A 32-bit value as four bytes, least-significant first.
pub open spec fn le_bytes_of_u32(x: u32) -> Seq<u8> {
    seq![
        (x & 0xFF) as u8,
        ((x >> 8) & 0xFF) as u8,
        ((x >> 16) & 0xFF) as u8,
        ((x >> 24) & 0xFF) as u8,
    ]
}

/// The configure-UART command frame: selector, sub-command, flow control,
/// little-endian baud rate, then the single-byte line settings.
pub open spec fn configure_uart_frame(p: UartParameters) -> Seq<u8> {
    seq![FEATURE_REPORT_ID, SUBCMD_CONFIGURE_UART, p.flow_ctrl]
        + le_bytes_of_u32(p.baud_rate)
        + seq![p.data_bits, p.parity, p.stop_bits, p.break_ctl]
}

/// Report selector of a data-write frame, keyed by the payload's 4-byte-wide
/// length bucket: lengths 0..=3 select 0xF0, 4..=7 select 0xF1, and so on up
/// to 56..=59 selecting 0xFE.
pub open spec fn data_write_selector(len: int) -> u8
    recommends
        0 <= len <= MAX_DATA_PAYLOAD,
{
    (0xF0 + len / 4) as u8
}

/// A data-write frame: selector, payload length, then the payload itself.
pub open spec fn data_write_frame(payload: Seq<u8>) -> Seq<u8>
    recommends
        payload.len() <= MAX_DATA_PAYLOAD,
{
    seq![data_write_selector(payload.len() as int), payload.len() as u8] + payload
}

/// A data-write frame zero-padded to the fixed frame size.
pub open spec fn padded_data_write_frame(payload: Seq<u8>) -> Seq<u8>
    recommends
        payload.len() <= MAX_DATA_PAYLOAD,
{
    data_write_frame(payload)
        + Seq::new((FRAME_SIZE - 2 - payload.len() as int) as nat, |i: int| 0u8)
}

/// Builds the enable-UART command frame.
pub fn build_enable_uart() -> (frame: Vec<u8>)
    ensures
        frame@ == enable_uart_frame(),
{
    let mut frame: Vec<u8> = Vec::new();
    frame.push(FEATURE_REPORT_ID);
    frame.push(SUBCMD_ENABLE_UART);
    frame.push(ENABLE_UART_MODE);
    proof {
        assert(frame@ =~= enable_uart_frame());
    }
    frame
}

/// Builds the reset-UART command frame.
pub fn build_reset_uart() -> (frame: Vec<u8>)
    ensures
        frame@ == reset_uart_frame(),
{
    let mut frame: Vec<u8> = Vec::new();
    frame.push(FEATURE_REPORT_ID);
    frame.push(SUBCMD_RESET_UART);
    proof {
        assert(frame@ =~= reset_uart_frame());
    }
    frame
}

/// Builds the configure-UART command frame for the given parameters. The
/// frame is a function of the parameters alone, so equal parameters always
/// yield the same eleven bytes.
pub fn build_configure_uart(p: &UartParameters) -> (frame: Vec<u8>)
    ensures
        frame@ == configure_uart_frame(*p),
        frame@.len() == 11,
{
    let mut frame: Vec<u8> = Vec::new();
    frame.push(FEATURE_REPORT_ID);
    frame.push(SUBCMD_CONFIGURE_UART);
    frame.push(p.flow_ctrl);
    frame.push((p.baud_rate & 0xFF) as u8);
    frame.push(((p.baud_rate >> 8) & 0xFF) as u8);
    frame.push(((p.baud_rate >> 16) & 0xFF) as u8);
    frame.push(((p.baud_rate >> 24) & 0xFF) as u8);
    frame.push(p.data_bits);
    frame.push(p.parity);
    frame.push(p.stop_bits);
    frame.push(p.break_ctl);
    proof {
        assert(frame@ =~= configure_uart_frame(*p));
    }
    frame
}

/// Builds a data-write frame: the bucket selector, the payload length, then
/// the payload. A payload longer than the protocol maximum is refused, never
/// truncated.
pub fn build_data_write(payload: &[u8]) -> (r: Result<Vec<u8>, ProtocolError>)
    ensures
        payload@.len() <= MAX_DATA_PAYLOAD
            ==> (r matches Ok(frame) && frame@ == data_write_frame(payload@)),
        payload@.len() > MAX_DATA_PAYLOAD
            ==> r == Err::<Vec<u8>, ProtocolError>(ProtocolError::PayloadTooLarge),
{
    let len = payload.len();
    if len > MAX_DATA_PAYLOAD {
        return Err(ProtocolError::PayloadTooLarge);
    }
    let selector: u8 = 0xF0 + (len / 4) as u8;
    let mut frame: Vec<u8> = Vec::new();
    frame.push(selector);
    frame.push(len as u8);
    let mut i: usize = 0;
    while i < len
        invariant
            i <= len,
            len == payload@.len(),
            len <= MAX_DATA_PAYLOAD,
            frame@ == seq![data_write_selector(len as int), len as u8]
                + payload@.subrange(0, i as int),
        decreases len - i,
    {
        frame.push(payload[i]);
        i = i + 1;
        proof {
            assert(frame@ =~= seq![data_write_selector(len as int), len as u8]
                + payload@.subrange(0, i as int));
        }
    }
    proof {
        assert(payload@.subrange(0, len as int) =~= payload@);
        assert(frame@ =~= data_write_frame(payload@));
    }
    Ok(frame)
}

/// Builds a data-write frame zero-padded to the fixed frame size, for a
/// transport that mandates fixed-size reports.
pub fn build_data_write_padded(payload: &[u8]) -> (r: Result<Vec<u8>, ProtocolError>)
    ensures
        payload@.len() <= MAX_DATA_PAYLOAD
            ==> (r matches Ok(frame)
                && frame@ == padded_data_write_frame(payload@)
                && frame@.len() == FRAME_SIZE),
        payload@.len() > MAX_DATA_PAYLOAD
            ==> r == Err::<Vec<u8>, ProtocolError>(ProtocolError::PayloadTooLarge),
{
    let mut frame = match build_data_write(payload) {
        Ok(frame) => frame,
        Err(e) => {
            return Err(e);
        },
    };
    while frame.len() < FRAME_SIZE
        invariant
            payload@.len() <= MAX_DATA_PAYLOAD,
            2 + payload@.len() <= frame@.len() <= FRAME_SIZE,
            frame@ == data_write_frame(payload@)
                + Seq::new((frame@.len() - 2 - payload@.len() as int) as nat, |j: int| 0u8),
        decreases FRAME_SIZE - frame@.len(),
    {
        frame.push(0);
        proof {
            assert(frame@ =~= data_write_frame(payload@)
                + Seq::new((frame@.len() - 2 - payload@.len() as int) as nat, |j: int| 0u8));
        }
    }
    proof {
        assert(frame@ =~= padded_data_write_frame(payload@));
    }
    Ok(frame)
}

/// Law: over the whole allowed payload range the data-write selector is
/// 0xF0 plus the payload length divided by four, and every length in the
/// last bucket selects 0xFE.
pub proof fn lemma_data_write_selector_buckets(len: int)
    requires
        0 <= len <= MAX_DATA_PAYLOAD,
    ensures
        data_write_selector(len) == 0xF0 + len / 4,
        56 <= len ==> data_write_selector(len) == 0xFE,
{
}

/// Law: the configure frame is determined by the parameters alone — equal
/// parameters yield byte-for-byte equal frames.
pub proof fn lemma_configure_uart_deterministic(p1: UartParameters, p2: UartParameters)
    requires
        p1 == p2,
    ensures
        configure_uart_frame(p1) == configure_uart_frame(p2),
{
}

/// Law: the four baud-rate bytes of a configure frame recombine, in
/// little-endian order, to exactly the configured baud rate.
pub proof fn lemma_configure_frame_baud_le(p: UartParameters)
    ensures
        configure_uart_frame(p).len() == 11,
        configure_uart_frame(p)[3] + 0x100 * configure_uart_frame(p)[4]
            + 0x1_0000 * configure_uart_frame(p)[5]
            + 0x100_0000 * configure_uart_frame(p)[6] == p.baud_rate,
{
    let b = p.baud_rate;
    let frame = configure_uart_frame(p);
    assert(frame[3] == (b & 0xFF) as u8);
    assert(frame[4] == ((b >> 8) & 0xFF) as u8);
    assert(frame[5] == ((b >> 16) & 0xFF) as u8);
    assert(frame[6] == ((b >> 24) & 0xFF) as u8);
    assert(((b & 0xFF) as u8) + 0x100 * (((b >> 8) & 0xFF) as u8)
        + 0x1_0000 * (((b >> 16) & 0xFF) as u8)
        + 0x100_0000 * (((b >> 24) & 0xFF) as u8) == b) by (bit_vector);
}

} // verus!
