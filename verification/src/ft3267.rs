//! FT3267 capacitive-touch register decoder.
//!
//! The touch controller reports a touch count in one register and up to four
//! touch-point blocks of four coordinate bytes each. This module selects the
//! register block for a point index, decodes the raw bytes into coordinates
//! (swapping the axes when the configured rotation asks for it), and fixes
//! the configuration values the controller is initialized with. The
//! serial-bus transactions that carry the bytes belong to the caller.

use vstd::prelude::*;

verus! {

/// Serial-bus address of the touch controller.
pub const FT3267_ADDR: u8 = 0x38;

/// Touch-count register; only its low four bits are meaningful.
pub const FT3267_TOUCH_POINTS: u8 = 0x02;

/// First coordinate byte of each of the four touch-point blocks. The blocks
/// sit six register addresses apart, though only four bytes of each are read.
pub const FT3267_TOUCH1_XH: u8 = 0x03;

pub const FT3267_TOUCH2_XH: u8 = 0x09;

pub const FT3267_TOUCH3_XH: u8 = 0x0F;

pub const FT3267_TOUCH4_XH: u8 = 0x15;

/// Gesture codes the controller can report.
#[derive(Debug, Clone, Copy, PartialEq, Eq, Structural)]
pub enum Ft3265Gesture {
    Ft3267GestureNone,
    Ft3267GestureMoveUp,
    Ft3267GestureMoveLeft,
    Ft3267GestureMoveDown,
    Ft3267GestureMoveRight,
    Ft3267GestureZomeIn,
    Ft3267GestureZomeOut,
}

impl Ft3265Gesture {
    /// The raw register value of each gesture.
    pub fn code(&self) -> (r: u8)
        ensures
            r == match *self {
                Ft3265Gesture::Ft3267GestureNone => 0x00u8,
                Ft3265Gesture::Ft3267GestureMoveUp => 0x10u8,
                Ft3265Gesture::Ft3267GestureMoveLeft => 0x14u8,
                Ft3265Gesture::Ft3267GestureMoveDown => 0x18u8,
                Ft3265Gesture::Ft3267GestureMoveRight => 0x1cu8,
                Ft3265Gesture::Ft3267GestureZomeIn => 0x48u8,
                Ft3265Gesture::Ft3267GestureZomeOut => 0x49u8,
            },
    {
        match self {
            Ft3265Gesture::Ft3267GestureNone => 0x00,
            Ft3265Gesture::Ft3267GestureMoveUp => 0x10,
            Ft3265Gesture::Ft3267GestureMoveLeft => 0x14,
            Ft3265Gesture::Ft3267GestureMoveDown => 0x18,
            Ft3265Gesture::Ft3267GestureMoveRight => 0x1c,
            Ft3265Gesture::Ft3267GestureZomeIn => 0x48,
            Ft3265Gesture::Ft3267GestureZomeOut => 0x49,
        }
    }
}

/// The touch controller: its serial-bus address and the display rotation
/// that decides whether decoded coordinates are swapped.
#[derive(Debug)]
pub struct Ft3267 {
    pub address: u8,
    pub rotation: u8,
}

/// One decoded touch point: the slot it came from and its coordinates.
#[derive(Debug, Clone, Copy, PartialEq, Eq, Structural)]
pub struct TouchPoint {
    pub id: u8,
    pub x: u16,
    pub y: u16,
}

/// A point index outside the four register blocks the controller has.
#[derive(Debug, Clone, Copy, PartialEq, Eq, Structural)]
pub enum Error {
    InvalidPointIndex(u8),
}

/// A twelve-bit coordinate: the low nibble of the high byte, then the low
/// byte.
pub open spec fn coord(hi: u8, lo: u8) -> u16 {
    ((hi & 0x0f) * 256 + lo) as u16
}

/// The touch point held in the four raw bytes of block `n`: coordinates as
/// the registers give them when `rotation` is zero, swapped otherwise.
pub open spec fn point_decoded(rotation: u8, n: u8, b0: u8, b1: u8, b2: u8, b3: u8) -> TouchPoint {
    if rotation == 0 {
        TouchPoint { id: n, x: coord(b0, b1), y: coord(b2, b3) }
    } else {
        TouchPoint { id: n, x: coord(b2, b3), y: coord(b0, b1) }
    }
}

/// First register of the block that holds touch point `n`.
pub open spec fn point_block_reg(n: u8) -> u8 {
    if n == 0 {
        FT3267_TOUCH1_XH
    } else if n == 1 {
        FT3267_TOUCH2_XH
    } else if n == 2 {
        FT3267_TOUCH3_XH
    } else {
        FT3267_TOUCH4_XH
    }
}

/// The register/value pairs that configure the controller: touch, peak,
/// calibration, water, temperature and difference thresholds, then the
/// monitor-entry delay, the active period and the monitor period.
pub open spec fn init_config() -> Seq<(u8, u8)> {
    seq![
        (0x80u8, 70u8),
        (0x81u8, 60u8),
        (0x82u8, 16u8),
        (0x83u8, 60u8),
        (0x84u8, 10u8),
        (0x85u8, 20u8),
        (0x87u8, 2u8),
        (0x88u8, 12u8),
        (0x89u8, 40u8),
    ]
}

impl Ft3267 {
    pub fn new(rotation: u8) -> (r: Self)
        ensures
            r.address == FT3267_ADDR,
            r.rotation == rotation,
    {
        Ft3267 { address: FT3267_ADDR, rotation }
    }

    /// The configuration writes that initialize the controller, in order.
    pub fn init_sequence(&self) -> (r: Vec<(u8, u8)>)
        ensures
            r@ == init_config(),
    {
        let mut seq_out: Vec<(u8, u8)> = Vec::new();
        seq_out.push((0x80, 70));
        seq_out.push((0x81, 60));
        seq_out.push((0x82, 16));
        seq_out.push((0x83, 60));
        seq_out.push((0x84, 10));
        seq_out.push((0x85, 20));
        seq_out.push((0x87, 2));
        seq_out.push((0x88, 12));
        seq_out.push((0x89, 40));
        proof {
            assert(seq_out@ =~= init_config());
        }
        seq_out
    }

    /// The touch count held in the touch-count register: its low four bits.
    pub fn pool_count(&self, raw: u8) -> (r: u8)
        ensures
            r == raw & 0x0f,
    {
        raw & 0x0f
    }

    /// The touch event, if any, held in the touch-count register: a count of
    /// zero means no touch, which is a defined non-event rather than an
    /// error.
    pub fn touch_event(&self, raw: u8) -> (r: Option<u8>)
        ensures
            raw & 0x0f == 0 ==> r is None,
            raw & 0x0f != 0 ==> r == Some(raw & 0x0f),
    {
        let count = raw & 0x0f;
        if count > 0 {
            Some(count)
        } else {
            None
        }
    }

    /// The register at which the four coordinate bytes of point `n` are
    /// read. An index beyond the four blocks is a defined error.
    pub fn point_reg(&self, n: u8) -> (r: Result<u8, Error>)
        ensures
            n <= 3 ==> r == Ok::<u8, Error>(point_block_reg(n)),
            n > 3 ==> r == Err::<u8, Error>(Error::InvalidPointIndex(n)),
    {
        match n {
            0 => Ok(FT3267_TOUCH1_XH),
            1 => Ok(FT3267_TOUCH2_XH),
            2 => Ok(FT3267_TOUCH3_XH),
            3 => Ok(FT3267_TOUCH4_XH),
            _ => Err(Error::InvalidPointIndex(n)),
        }
    }

    /// Decode the four raw bytes of point block `n` into a touch point,
    /// swapping the axes when the configured rotation is non-zero. An index
    /// beyond the four blocks is a defined error.
    pub fn decode_point(&self, n: u8, b0: u8, b1: u8, b2: u8, b3: u8) -> (r: Result<
        TouchPoint,
        Error,
    >)
        ensures
            n <= 3 ==> r == Ok::<TouchPoint, Error>(
                point_decoded(self.rotation, n, b0, b1, b2, b3),
            ),
            n > 3 ==> r == Err::<TouchPoint, Error>(Error::InvalidPointIndex(n)),
    {
        if n > 3 {
            return Err(Error::InvalidPointIndex(n));
        }
        proof {
            let hx = b0;
            let hy = b2;
            assert(((hx & 0x0f) as u16) << 8 == (hx & 0x0f) * 256 && ((hx & 0x0f) as u16) << 8
                <= 0x0f00) by (bit_vector);
            assert(((hy & 0x0f) as u16) << 8 == (hy & 0x0f) * 256 && ((hy & 0x0f) as u16) << 8
                <= 0x0f00) by (bit_vector);
        }
        let x = (((b0 & 0x0f) as u16) << 8) + b1 as u16;
        let y = (((b2 & 0x0f) as u16) << 8) + b3 as u16;

        if self.rotation == 0 {
            Ok(TouchPoint { id: n, x, y })
        } else {
            Ok(TouchPoint { id: n, x: y, y: x })
        }
    }
}

} // verus!
