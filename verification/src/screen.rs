//! The display device: which of the attached devices it is, and the frame
//! that is sent to it.

use crate::framebuffer::{blank_frame, cleared, loaded, FRAME_LEN, FRAME_MARKER, HEADER_LEN};
use bitvec::array::BitArray;
use bitvec::order::Msb0;
use vstd::prelude::*;

verus! {

/// Vendor identity of the keyboard.
pub const STEELSERIES_VENDOR_ID: u16 = 0x1038;

/// Product identity of the keyboard.
pub const APEX7_TKL: u16 = 0x1618;

/// The interface of the keyboard that takes frames.
pub const DISPLAY_INTERFACE: i32 = 1;

/// What identifies an attached device.
#[derive(Clone, Copy, Debug, PartialEq, Eq)]
pub struct DeviceIdentity {
    pub vendor_id: u16,
    pub product_id: u16,
    pub interface_number: i32,
}

/// Why the display could not be opened.
#[derive(Clone, Copy, Debug, PartialEq, Eq)]
pub enum OpenError {
    /// No attached device is the display.
    DeviceNotFound,
    /// The display is attached but could not be claimed.
    OpenFailed,
}

/// Whether a device is the display.
pub open spec fn is_display(device: DeviceIdentity) -> bool {
    device.vendor_id == 0x1038 && device.product_id == 0x1618 && device.interface_number == 1
}

/// Whether any of the devices is the display.
pub open spec fn has_display(devices: Seq<DeviceIdentity>) -> bool {
    exists|i: int| 0 <= i < devices.len() && is_display(#[trigger] devices[i])
}

/// Whether `index` is the place of the first display among the devices.
pub open spec fn is_first_display(devices: Seq<DeviceIdentity>, index: int) -> bool {
    &&& 0 <= index < devices.len()
    &&& is_display(devices[index])
    &&& forall|j: int| 0 <= j < index ==> !is_display(#[trigger] devices[j])
}

/// The 642 bytes of a frame in a `bitvec::array::BitArray`, as the device
/// side keeps them. What it holds goes by the name [`frame_bits`].
#[verifier::external_body]
pub struct FrameBits {
    bits: BitArray<[u8; 642], Msb0>,
}

/// The bytes that a [`FrameBits`] holds, in their order.
pub uninterp spec fn frame_bits(store: FrameBits) -> Seq<u8>;

/// `BitArray::ZERO`: an array of 642 bytes that are all zero.
#[verifier::external_body]
fn bits_zero() -> (store: FrameBits)
    ensures
        frame_bits(store) == Seq::new(642, |i: int| 0u8),
{
    FrameBits { bits: BitArray::ZERO }
}

/// `BitSlice::fill` on the whole array: every bit takes `value`, so that
/// every byte is `0xff` or zero. The array keeps its 642 bytes.
#[verifier::external_body]
fn bits_fill(store: &mut FrameBits, value: bool)
    ensures
        frame_bits(*final(store)) == Seq::new(
            642,
            |i: int|
                if value {
                    0xffu8
                } else {
                    0u8
                },
        ),
{
    store.bits.fill(value);
}

/// A store into `BitArray::as_raw_mut_slice`, the bytes of the array: the
/// byte at `index` becomes `value` and the others stay. The slice has 642
/// bytes, before and after, and an index beyond them is left out.
#[verifier::external_body]
fn bits_store(store: &mut FrameBits, index: usize, value: u8)
    requires
        index < 642,
    ensures
        frame_bits(*old(store)).len() == 642,
        frame_bits(*final(store)) == frame_bits(*old(store)).update(index as int, value),
{
    store.bits.as_raw_mut_slice()[index] = value;
}

/// The field `data` of the `BitArray`: its 642 bytes, borrowed.
#[verifier::external_body]
fn bits_bytes(store: &FrameBits) -> (bytes: &[u8])
    ensures
        bytes@ == frame_bits(*store),
        bytes@.len() == 642,
{
    &store.bits.data
}

/// The frame that the display shows next.
pub struct Screen {
    frame_buffer: FrameBits,
}

impl View for Screen {
    type V = Seq<u8>;

    closed spec fn view(&self) -> Seq<u8> {
        frame_bits(self.frame_buffer)
    }
}

impl Screen {
    /// Whether the frame has its full length and the header that the device
    /// expects: the marker in byte 0 and zero in byte 1. Every screen that
    /// was opened has, whatever was drawn on it since.
    pub open spec fn stamped(&self) -> bool {
        self@.len() == 642 && self@[0] == 0x61u8 && self@[1] == 0u8
    }

    /// Finds the display among the attached devices, in the order in which
    /// they were enumerated: the first that matches is taken.
    pub fn locate(devices: &Vec<DeviceIdentity>) -> (found: Result<usize, OpenError>)
        ensures
            match found {
                Ok(index) => is_first_display(devices@, index as int),
                Err(e) => e == OpenError::DeviceNotFound && !has_display(devices@),
            },
    {
        let mut i: usize = 0;
        while i < devices.len()
            invariant
                i <= devices@.len(),
                forall|j: int| 0 <= j < i ==> !is_display(#[trigger] devices@[j]),
            decreases devices@.len() - i,
        {
            let device: DeviceIdentity = devices[i];
            if device.vendor_id == STEELSERIES_VENDOR_ID && device.product_id == APEX7_TKL
                && device.interface_number == DISPLAY_INTERFACE {
                return Ok(i);
            }
            i = i + 1;
        }
        Err(OpenError::DeviceNotFound)
    }

    /// Opens the screen, once the attached devices are known and the caller
    /// has tried to claim the one that [`Screen::locate`] found: `claimed`
    /// tells whether that went well. A missing display is reported before a
    /// failed claim. A screen that opens shows the blank frame.
    pub fn open(devices: &Vec<DeviceIdentity>, claimed: bool) -> (opened: Result<Screen, OpenError>)
        ensures
            match opened {
                Ok(screen) => has_display(devices@) && claimed && screen@ == blank_frame(),
                Err(OpenError::DeviceNotFound) => !has_display(devices@),
                Err(OpenError::OpenFailed) => has_display(devices@) && !claimed,
            },
    {
        match Screen::locate(devices) {
            Err(e) => Err(e),
            Ok(_) => {
                if claimed {
                    let mut fb: FrameBits = bits_zero();
                    bits_store(&mut fb, 0, FRAME_MARKER);
                    let screen = Screen { frame_buffer: fb };
                    assert(screen@ =~= blank_frame());
                    Ok(screen)
                } else {
                    Err(OpenError::OpenFailed)
                }
            },
        }
    }

    /// Unsets every pixel and stamps the marker again, whatever the frame
    /// held.
    pub fn clear(&mut self)
        ensures
            final(self)@ == cleared(old(self)@),
            final(self).stamped(),
    {
        bits_fill(&mut self.frame_buffer, false);
        bits_store(&mut self.frame_buffer, 0, FRAME_MARKER);
        assert(self@ =~= blank_frame());
    }

    /// Takes over the pixel data of `data`, a frame in wire form, as the
    /// frame to show. The header of the screen stays as it is.
    pub fn draw(&mut self, data: &[u8])
        requires
            data@.len() >= 642,
        ensures
            final(self)@ == loaded(old(self)@, data@),
            final(self)@.len() == 642,
            old(self).stamped() ==> final(self).stamped(),
    {
        let mut i: usize = HEADER_LEN;
        while i < FRAME_LEN
            invariant
                2 <= i <= 642,
                data@.len() >= 642,
                self@.len() == old(self)@.len(),
                i > 2 ==> self@.len() == 642,
                forall|k: int|
                    0 <= k < self@.len() ==> #[trigger] self@[k] == (if 2 <= k < i {
                        data@[k]
                    } else {
                        old(self)@[k]
                    }),
            decreases 642 - i,
        {
            bits_store(&mut self.frame_buffer, i, data[i]);
            i = i + 1;
        }
        assert(self@ =~= loaded(old(self)@, data@));
    }

    /// The frame to send to the device, whole.
    pub fn as_bytes(&self) -> (bytes: &[u8])
        ensures
            bytes@ == self@,
            bytes@.len() == 642,
    {
        bits_bytes(&self.frame_buffer)
    }
}

} // verus!
