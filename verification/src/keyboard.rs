//! The keyboard's screen: its model, its frame buffer and how a matching
//! device is picked among the attached ones.

use crate::bits::{
    bytes_for, lemma_byte_from_bits, lemma_unpack_index, lemma_unpack_skip_first, live_len,
    max_bits, msb_bit, stored_bits, unpack, zeros, BitBuffer,
};
use crate::error::KeyboardError;
use crate::transport::{is_image_payload, padding, ControlTransfer, KeyboardCommand, IMAGE_COMMAND};
use vstd::prelude::*;

verus! {

/// The model of a keyboard: how it identifies itself on the bus and how many
/// pixels its screen has.
#[derive(Debug, Clone, Copy)]
pub struct KeyboardInfo {
    vendor_id: u16,
    product_id: u16,
    width: u32,
    height: u32,
}

/// Whether a screen of `width` by `height` pixels can be driven: it has at
/// least one pixel, their number fits in 32 bits, and a bit vector can hold
/// them behind a command byte.
pub open spec fn valid_size(width: u32, height: u32) -> bool {
    &&& width > 0
    &&& height > 0
    &&& width * height <= u32::MAX
    &&& width * height + 8 <= max_bits()
}

impl KeyboardInfo {
    /// The screen has a size that can be driven (see [`valid_size`]). This
    /// holds of every value that the program handles.
    #[verifier::type_invariant]
    pub closed spec fn wf(self) -> bool {
        valid_size(self.width, self.height)
    }

    /// The vendor identifier.
    pub closed spec fn spec_vendor_id(self) -> u16 {
        self.vendor_id
    }

    /// The product identifier.
    pub closed spec fn spec_product_id(self) -> u16 {
        self.product_id
    }

    /// The width of the screen, in pixels.
    pub closed spec fn spec_width(self) -> u32 {
        self.width
    }

    /// The height of the screen, in pixels.
    pub closed spec fn spec_height(self) -> u32 {
        self.height
    }

    /// The number of pixels of the screen.
    pub open spec fn area(self) -> nat {
        (self.spec_width() * self.spec_height()) as nat
    }

    /// Whether `(x, y)` is a pixel of the screen.
    pub open spec fn contains(self, x: int, y: int) -> bool {
        0 <= x < self.spec_width() && 0 <= y < self.spec_height()
    }

    /// The place of pixel `(x, y)` in the frame buffer, which holds the rows
    /// one after the other.
    pub open spec fn pixel_index(self, x: int, y: int) -> int {
        x + y * self.spec_width()
    }

    /// Describes a keyboard, or refuses a screen size that cannot be driven.
    pub fn new(vendor_id: u16, product_id: u16, width: u32, height: u32) -> (r: Result<
        Self,
        KeyboardError,
    >)
        ensures
            valid_size(width, height) ==> r is Ok,
            !valid_size(width, height) ==> r == Err::<Self, KeyboardError>(
                KeyboardError::InvalidSize,
            ),
            r matches Ok(info) ==> {
                &&& info.wf()
                &&& info.spec_vendor_id() == vendor_id
                &&& info.spec_product_id() == product_id
                &&& info.spec_width() == width
                &&& info.spec_height() == height
            },
    {
        if width == 0 || height == 0 {
            return Err(KeyboardError::InvalidSize);
        }
        assert(width * height <= 0xFFFF_FFFF * 0xFFFF_FFFF) by (nonlinear_arith)
            requires
                width <= 0xFFFF_FFFF,
                height <= 0xFFFF_FFFF,
        ;
        let area: u64 = (width as u64) * (height as u64);
        if area > u32::MAX as u64 || area + 8 > (usize::MAX / 8) as u64 {
            return Err(KeyboardError::InvalidSize);
        }
        Ok(KeyboardInfo { vendor_id, product_id, width, height })
    }

    /// The vendor identifier.
    #[verifier::when_used_as_spec(spec_vendor_id)]
    pub fn vendor_id(self) -> (id: u16)
        ensures
            id == self.spec_vendor_id(),
    {
        self.vendor_id
    }

    /// The product identifier.
    #[verifier::when_used_as_spec(spec_product_id)]
    pub fn product_id(self) -> (id: u16)
        ensures
            id == self.spec_product_id(),
    {
        self.product_id
    }

    /// The width of the screen, in pixels.
    #[verifier::when_used_as_spec(spec_width)]
    pub fn width(self) -> (w: u32)
        ensures
            w == self.spec_width(),
    {
        self.width
    }

    /// The height of the screen, in pixels.
    #[verifier::when_used_as_spec(spec_height)]
    pub fn height(self) -> (h: u32)
        ensures
            h == self.spec_height(),
    {
        self.height
    }
}

/// A type of keyboard whose model is known when the program is built.
pub trait KeyboardType {
    /// The model of this type of keyboard.
    fn info() -> KeyboardInfo;
}

/// The SteelSeries Apex Pro TKL, with a screen of 128 by 40 pixels.
#[derive(Debug, Clone, Copy)]
pub struct ApexProTkl;

impl KeyboardType for ApexProTkl {
    fn info() -> (info: KeyboardInfo)
        ensures
            info.spec_vendor_id() == 0x1038,
            info.spec_product_id() == 0x1614,
            info.spec_width() == 128,
            info.spec_height() == 40,
    {
        KeyboardInfo { vendor_id: 0x1038, product_id: 0x1614, width: 128, height: 40 }
    }
}

/// The vendor and product identifiers read from a device's descriptor.
#[derive(Debug, Clone, Copy, PartialEq, Eq, Structural)]
pub struct DeviceIds {
    pub vendor_id: u16,
    pub product_id: u16,
}

/// Whether an attached device is the keyboard looked for. A device whose
/// descriptor could not be read (`None`) is never it.
pub open spec fn is_keyboard(info: KeyboardInfo, device: Option<DeviceIds>) -> bool {
    match device {
        Some(ids) => ids.vendor_id == info.spec_vendor_id() && ids.product_id
            == info.spec_product_id(),
        None => false,
    }
}

/// Whether any of the attached devices is the keyboard looked for.
pub open spec fn has_keyboard(info: KeyboardInfo, attached: Seq<Option<DeviceIds>>) -> bool {
    exists|i: int| 0 <= i < attached.len() && is_keyboard(info, #[trigger] attached[i])
}

/// Whether the device at `index` is the first of the attached devices that
/// is the keyboard looked for.
pub open spec fn is_first_keyboard(
    info: KeyboardInfo,
    attached: Seq<Option<DeviceIds>>,
    index: int,
) -> bool {
    &&& 0 <= index < attached.len()
    &&& is_keyboard(info, attached[index])
    &&& forall|j: int| 0 <= j < index ==> !is_keyboard(info, #[trigger] attached[j])
}

/// Finds the keyboard among the attached devices, given in the order in which
/// the bus lists them, each with the identifiers read from its descriptor or
/// `None` where the descriptor could not be read. Unreadable devices are
/// passed over; the first device with the wanted identifiers is picked.
pub fn find_keyboard(info: &KeyboardInfo, attached: &Vec<Option<DeviceIds>>) -> (r: Result<
    usize,
    KeyboardError,
>)
    ensures
        has_keyboard(*info, attached@) ==> r is Ok,
        r matches Ok(index) ==> is_first_keyboard(*info, attached@, index as int),
        r matches Err(e) ==> e == KeyboardError::NotFound && !has_keyboard(*info, attached@),
{
    let mut i: usize = 0;
    while i < attached.len()
        invariant
            i <= attached.len(),
            forall|j: int| 0 <= j < i ==> !is_keyboard(*info, #[trigger] attached@[j]),
        decreases attached.len() - i,
    {
        match attached[i] {
            Some(ids) => {
                if ids.product_id == info.product_id() && ids.vendor_id == info.vendor_id() {
                    return Ok(i);
                }
            },
            None => {},
        }
        i = i + 1;
    }
    Err(KeyboardError::NotFound)
}

/// A keyboard that was found on the bus, with the frame buffer of its screen.
pub struct KeyboardDevice {
    info: KeyboardInfo,
    device_index: usize,
    frame_buffer: BitBuffer,
    screen_dirty: bool,
}

impl KeyboardDevice {
    /// The frame buffer has one bit for each pixel of the screen, and the
    /// bytes that it occupies are cleared beyond them. This holds of every
    /// value that the program handles.
    #[verifier::type_invariant]
    pub closed spec fn wf(&self) -> bool {
        &&& self.info.wf()
        &&& live_len(self.frame_buffer) == self.info.area()
        &&& self.frame_buffer.tidy()
    }

    /// The model of this keyboard.
    pub closed spec fn spec_info(&self) -> KeyboardInfo {
        self.info
    }

    /// The place of the device in the list it was found in.
    pub closed spec fn spec_device_index(&self) -> usize {
        self.device_index
    }

    /// The frame buffer: one entry per pixel, row after row, `true` for a lit
    /// pixel.
    pub closed spec fn pixels(&self) -> Seq<bool> {
        self.frame_buffer@
    }

    /// Whether the frame buffer may differ from what the screen shows.
    pub closed spec fn dirty(&self) -> bool {
        self.screen_dirty
    }

    /// Finds the keyboard among the attached devices (see [`find_keyboard`])
    /// and gives it a frame buffer with every pixel dark, which is not on the
    /// screen yet.
    pub fn new(info: KeyboardInfo, attached: &Vec<Option<DeviceIds>>) -> (r: Result<
        Self,
        KeyboardError,
    >)
        ensures
            has_keyboard(info, attached@) ==> r is Ok,
            r matches Ok(device) ==> {
                &&& device.wf()
                &&& device.spec_info() == info
                &&& is_first_keyboard(info, attached@, device.spec_device_index() as int)
                &&& device.pixels() == zeros(info.area())
                &&& device.dirty()
            },
            r matches Err(e) ==> e == KeyboardError::NotFound && !has_keyboard(info, attached@),
    {
        let device_index = match find_keyboard(&info, attached) {
            Ok(index) => index,
            Err(e) => {
                return Err(e);
            },
        };
        proof {
            use_type_invariant(&info);
        }
        let area = Self::screen_area(&info);
        let mut frame_buffer = BitBuffer::with_capacity(area);
        frame_buffer.resize(area, false);
        assert(frame_buffer@ =~= zeros(info.area()));
        Ok(KeyboardDevice { info, device_index, frame_buffer, screen_dirty: true })
    }

    /// The number of pixels of a keyboard's screen.
    pub fn screen_area(info: &KeyboardInfo) -> (area: usize)
        ensures
            area == info.area(),
    {
        proof {
            use_type_invariant(info);
        }
        (info.width() * info.height()) as usize
    }

    /// The model of this keyboard.
    #[verifier::when_used_as_spec(spec_info)]
    pub fn info(&self) -> (info: KeyboardInfo)
        ensures
            info == self.spec_info(),
    {
        self.info
    }

    /// The place of the device in the list it was found in.
    #[verifier::when_used_as_spec(spec_device_index)]
    pub fn device_index(&self) -> (index: usize)
        ensures
            index == self.spec_device_index(),
    {
        self.device_index
    }

    /// The width and the height of the screen, in pixels.
    pub fn size(&self) -> (size: (u32, u32))
        ensures
            size.0 == self.spec_info().spec_width(),
            size.1 == self.spec_info().spec_height(),
    {
        (self.info.width(), self.info.height())
    }

    /// Whether the frame buffer may differ from what the screen shows.
    pub fn is_dirty(&self) -> (dirty: bool)
        ensures
            dirty == self.dirty(),
    {
        self.screen_dirty
    }

    /// Lights (`on`) or darkens the pixel at `(x, y)` and marks the frame
    /// buffer as changed, whether or not the pixel had that value before.
    /// Coordinates outside the screen change nothing at all.
    pub fn set_pixel(&mut self, x: i32, y: i32, on: bool)
        ensures
            final(self).spec_info() == old(self).spec_info(),
            final(self).spec_device_index() == old(self).spec_device_index(),
            old(self).spec_info().contains(x as int, y as int) ==> {
                &&& final(self).pixels() == old(self).pixels().update(
                    old(self).spec_info().pixel_index(x as int, y as int),
                    on,
                )
                &&& final(self).dirty()
            },
            !old(self).spec_info().contains(x as int, y as int) ==> {
                &&& final(self).pixels() == old(self).pixels()
                &&& final(self).dirty() == old(self).dirty()
            },
            final(self).wf(),
    {
        proof {
            use_type_invariant(&*self);
            use_type_invariant(&self.info);
        }
        if x < 0 || y < 0 {
            return ;
        }
        let width = self.info.width();
        let height = self.info.height();
        let x = x as u32;
        let y = y as u32;
        if x >= width || y >= height {
            return ;
        }
        assert(x + y * width < width * height) by (nonlinear_arith)
            requires
                x < width,
                y < height,
        ;
        let p = x + y * width;
        self.frame_buffer.set(p as usize, on);
        self.screen_dirty = true;
        assert(final(self).pixels() =~= old(self).pixels().update(p as int, on));
    }

    /// The pixel at `(x, y)`: `Some(true)` where it is lit, `None` outside the
    /// screen.
    pub fn pixel(&self, x: i32, y: i32) -> (lit: Option<bool>)
        ensures
            self.spec_info().contains(x as int, y as int) ==> lit == Some(
                self.pixels()[self.spec_info().pixel_index(x as int, y as int)],
            ),
            !self.spec_info().contains(x as int, y as int) ==> lit is None,
    {
        proof {
            use_type_invariant(self);
            use_type_invariant(&self.info);
        }
        if x < 0 || y < 0 {
            return None;
        }
        let width = self.info.width();
        let height = self.info.height();
        let x = x as u32;
        let y = y as u32;
        if x >= width || y >= height {
            return None;
        }
        assert(x + y * width < width * height) by (nonlinear_arith)
            requires
                x < width,
                y < height,
        ;
        let p = x + y * width;
        Some(self.frame_buffer.get(p as usize))
    }

    /// What a flush has to transmit: the image of the frame buffer where it
    /// may differ from the screen, nothing where it does not. The frame
    /// buffer stays as it is until [`Self::complete_flush`] is told that the
    /// transmission succeeded.
    pub fn flush_screen(&self) -> (transfer: Option<ControlTransfer>)
        ensures
            self.dirty() <==> transfer is Some,
            transfer matches Some(t) ==> t.shows(self.pixels()),
    {
        if self.screen_dirty {
            Some(KeyboardCommand::Oled.transfer(self.image_payload()))
        } else {
            None
        }
    }

    /// Records how the transmission that [`Self::flush_screen`] asked for
    /// ended, and hands the outcome on. After a success the frame buffer is
    /// on the screen; after a failure it is as likely to differ from the
    /// screen as before.
    pub fn complete_flush(&mut self, outcome: Result<(), KeyboardError>) -> (r: Result<
        (),
        KeyboardError,
    >)
        ensures
            r == outcome,
            final(self).spec_info() == old(self).spec_info(),
            final(self).spec_device_index() == old(self).spec_device_index(),
            final(self).pixels() == old(self).pixels(),
            final(self).dirty() == (old(self).dirty() && outcome is Err),
            final(self).wf(),
    {
        proof {
            use_type_invariant(&*self);
        }
        if outcome.is_ok() {
            self.screen_dirty = false;
        }
        outcome
    }

    /// The payload that shows the frame buffer on the screen.
    pub fn image_payload(&self) -> (payload: Vec<u8>)
        ensures
            is_image_payload(payload@, self.pixels()),
    {
        proof {
            use_type_invariant(self);
            use_type_invariant(&self.info);
        }
        let mut io_buf = BitBuffer::new();
        io_buf.resize(8, false);
        io_buf.store_first_byte(IMAGE_COMMAND);
        let ghost head = stored_bits(io_buf);
        assert(head =~= unpack(seq![IMAGE_COMMAND]));
        io_buf.extend_from_bitslice(&self.frame_buffer);
        let payload = io_buf.as_raw_slice();
        proof {
            let n = self.info.area();
            let frame = stored_bits(self.frame_buffer);
            let all = stored_bits(io_buf);
            assert(all.len() == 8 * bytes_for(8 + n));
            assert(bytes_for(8 + n) == 1 + bytes_for(n));
            assert(unpack(payload@).len() == 8 * payload@.len());
            assert(payload@.len() == 1 + bytes_for(n));
            assert forall|k: int| 0 <= k < 8 implies msb_bit(payload@[0], k) == msb_bit(
                IMAGE_COMMAND,
                k,
            ) by {
                lemma_unpack_index(payload@, 0, k);
                lemma_unpack_index(seq![IMAGE_COMMAND], 0, k);
                assert(all[k] == head[k]);
            }
            lemma_byte_from_bits(payload@[0], IMAGE_COMMAND);
            lemma_unpack_skip_first(payload@);
            let tail = self.pixels() + zeros(padding(n));
            assert(all.skip(8).len() == tail.len());
            assert forall|i: int| 0 <= i < tail.len() implies all.skip(8)[i] == tail[i] by {
                assert(all.skip(8)[i] == all[i + 8]);
                if i < n {
                    assert(all[i + 8] == frame[i]);
                } else {
                    assert(!all[i + 8]);
                }
            }
            assert(all.skip(8) =~= tail);
        }
        payload
    }
}

/// Where just one attached device is the keyboard, that one is found,
/// whatever else is attached and whichever descriptors could not be read.
pub proof fn lemma_only_keyboard_is_found(
    info: KeyboardInfo,
    attached: Seq<Option<DeviceIds>>,
    only: int,
    found: int,
)
    requires
        0 <= only < attached.len(),
        is_keyboard(info, attached[only]),
        forall|j: int|
            0 <= j < attached.len() && j != only ==> !is_keyboard(info, #[trigger] attached[j]),
        is_first_keyboard(info, attached, found),
    ensures
        has_keyboard(info, attached),
        found == only,
{
}

/// A keyboard is found among the attached devices just where one of them is
/// the keyboard, and no device is found where none is.
pub proof fn lemma_found_iff_attached(info: KeyboardInfo, attached: Seq<Option<DeviceIds>>)
    ensures
        has_keyboard(info, attached) <==> exists|i: int|
            is_first_keyboard(info, attached, i),
{
    if has_keyboard(info, attached) {
        let some = choose|i: int| 0 <= i < attached.len() && is_keyboard(info, attached[i]);
        lemma_first_keyboard_exists(info, attached, some);
    }
    if exists|i: int| is_first_keyboard(info, attached, i) {
        let first = choose|i: int| is_first_keyboard(info, attached, i);
        assert(is_keyboard(info, attached[first]));
    }
}

/// Before any attached keyboard there is a first one.
proof fn lemma_first_keyboard_exists(
    info: KeyboardInfo,
    attached: Seq<Option<DeviceIds>>,
    some: int,
)
    requires
        0 <= some < attached.len(),
        is_keyboard(info, attached[some]),
    ensures
        exists|i: int| is_first_keyboard(info, attached, i),
    decreases some,
{
    if exists|j: int| 0 <= j < some && is_keyboard(info, attached[j]) {
        let earlier = choose|j: int| 0 <= j < some && is_keyboard(info, attached[j]);
        lemma_first_keyboard_exists(info, attached, earlier);
    } else {
        assert(is_first_keyboard(info, attached, some));
    }
}

/// Every pixel of the screen has its place in the frame buffer, and no two
/// pixels share one.
pub proof fn lemma_pixel_index(info: KeyboardInfo, x: int, y: int, x2: int, y2: int)
    requires
        info.wf(),
        info.contains(x, y),
        info.contains(x2, y2),
    ensures
        0 <= info.pixel_index(x, y) < info.area(),
        info.pixel_index(x, y) == info.pixel_index(x2, y2) ==> x == x2 && y == y2,
{
    let w = info.spec_width() as int;
    let h = info.spec_height() as int;
    assert(0 <= x + y * w < w * h) by (nonlinear_arith)
        requires
            0 <= x < w,
            0 <= y < h,
    ;
    assert(x + y * w == x2 + y2 * w ==> y == y2) by (nonlinear_arith)
        requires
            0 <= x < w,
            0 <= x2 < w,
            0 <= y,
            0 <= y2,
    ;
}

/// The frame buffer of a device has one entry for each pixel of its screen.
pub proof fn lemma_frame_buffer_len(device: KeyboardDevice)
    requires
        device.wf(),
    ensures
        device.pixels().len() == device.spec_info().area(),
        device.spec_info().wf(),
{
}

/// What `set_pixel` does to a pixel of the screen: afterwards that pixel
/// reads as it was set, every other entry of the frame buffer is as before,
/// and the frame buffer counts as changed.
pub proof fn lemma_set_pixel_in_range(
    before: KeyboardDevice,
    after: KeyboardDevice,
    x: int,
    y: int,
    on: bool,
)
    requires
        before.wf(),
        before.spec_info().contains(x, y),
        after.pixels() == before.pixels().update(before.spec_info().pixel_index(x, y), on),
    ensures
        after.pixels().len() == before.pixels().len(),
        after.pixels()[before.spec_info().pixel_index(x, y)] == on,
        forall|i: int|
            0 <= i < before.pixels().len() && i != before.spec_info().pixel_index(x, y)
                ==> after.pixels()[i] == before.pixels()[i],
{
    lemma_pixel_index(before.spec_info(), x, y, x, y);
}

/// Flushing twice transmits once: after a flush that succeeded the frame
/// buffer no longer counts as changed, so that `flush_screen` asks for no
/// transfer until a pixel of the screen is set again.
pub proof fn lemma_flush_is_idempotent(
    before: KeyboardDevice,
    after: KeyboardDevice,
    outcome: Result<(), KeyboardError>,
)
    requires
        after.dirty() == (before.dirty() && outcome is Err),
        outcome is Ok,
    ensures
        !after.dirty(),
{
}

} // verus!
