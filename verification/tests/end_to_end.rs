use embedded_graphics::drawable::{Drawable, Pixel};
use embedded_graphics::fonts::{Font12x16, Text};
use embedded_graphics::geometry::{Point, Size};
use embedded_graphics::pixelcolor::BinaryColor;
use embedded_graphics::prelude::{Font, Primitive};
use embedded_graphics::primitives::Line;
use embedded_graphics::style::{PrimitiveStyle, TextStyle};
use embedded_graphics::DrawTarget;
use keyboard_oled::keyboard::{DeviceIds, KeyboardDevice, KeyboardInfo};
use keyboard_oled::screen::{host_screen, underline, FontMetrics};
use keyboard_oled::send::{SendState, UsbReply};

struct Surface(KeyboardDevice);

impl DrawTarget<BinaryColor> for Surface {
    type Error = core::convert::Infallible;

    fn draw_pixel(&mut self, item: Pixel<BinaryColor>) -> Result<(), Self::Error> {
        let Pixel(point, color) = item;
        self.0.set_pixel(point.x, point.y, color == BinaryColor::On);
        Ok(())
    }

    fn size(&self) -> Size {
        let (width, height) = self.0.size();
        Size::new(width, height)
    }
}

fn surface() -> Surface {
    let info = KeyboardInfo::new(0x1038, 0x1614, 128, 40).unwrap();
    let attached = vec![None, Some(DeviceIds { vendor_id: 0x1038, product_id: 0x1614 })];
    Surface(KeyboardDevice::new(info, &attached).unwrap())
}

fn font() -> FontMetrics {
    FontMetrics {
        character_width: Font12x16::CHARACTER_SIZE.width,
        character_height: Font12x16::CHARACTER_SIZE.height,
        character_spacing: Font12x16::CHARACTER_SPACING,
        variable_width: Font12x16::VARIABLE_WIDTH,
    }
}

#[test]
fn host_on_a_128_by_40_screen_is_641_bytes() {
    let mut surface = surface();
    Text::new("HOST", Point::new(0, 0))
        .into_styled(TextStyle::new(Font12x16, BinaryColor::On))
        .draw(&mut surface)
        .unwrap();
    let transfer = surface.0.flush_screen().unwrap();
    assert_eq!(transfer.payload.len(), 641);
    assert_eq!(transfer.payload[0], 0x65);
    assert_eq!(transfer.request_type, 0x21);
    assert_eq!(transfer.request, 0x09);
    assert_eq!(transfer.value, 0x0300);
    assert_eq!(transfer.index, 0x0001);
    // the text is drawn: some pixel of the first sixteen rows is lit, none below
    assert!(transfer.payload[1..1 + 16 * 16].iter().any(|b| *b != 0));
    assert!(transfer.payload[1 + 16 * 16..].iter().all(|b| *b == 0));
    // nothing is lit to the right of the four characters
    for y in 0..40 {
        for x in 48..128 {
            assert_eq!(surface.0.pixel(x, y), Some(false));
        }
    }
}

#[test]
fn drawing_beyond_the_screen_is_clipped() {
    let mut surface = surface();
    surface.0.complete_flush(Ok(())).unwrap();
    Line::new(Point::new(-10, 45), Point::new(-1, 60))
        .into_styled(PrimitiveStyle::with_stroke(BinaryColor::On, 1))
        .draw(&mut surface)
        .unwrap();
    assert!(!surface.0.is_dirty());
    assert!(surface.0.flush_screen().is_none());
}

#[test]
fn a_redraw_from_the_hostname_to_the_last_byte() {
    let mut surface = surface();
    assert_eq!(surface.0.device_index(), 1);
    let screen = host_screen(Some("host")).unwrap();
    assert_eq!(screen.text, "HOST");
    assert_eq!(Ok(screen.underline), underline(4, &Vec::new(), &font()));
    Text::new(&screen.text, Point::new(screen.origin.x, screen.origin.y))
        .into_styled(TextStyle::new(Font12x16, BinaryColor::On))
        .draw(&mut surface)
        .unwrap();
    let line = screen.underline;
    Line::new(Point::new(line.start.x, line.start.y), Point::new(line.end.x, line.end.y))
        .into_styled(PrimitiveStyle::with_stroke(BinaryColor::On, 1))
        .draw(&mut surface)
        .unwrap();
    // the underline covers row 16 from the left edge to the width of the text
    for x in 0..=48 {
        assert_eq!(surface.0.pixel(x, 16), Some(true));
    }
    assert_eq!(surface.0.pixel(49, 16), Some(false));
    let transfer = surface.0.flush_screen().unwrap();
    assert_eq!(transfer.payload.len(), 641);
    let mut state = SendState::start();
    for reply in [
        UsbReply::Done,
        UsbReply::Done,
        UsbReply::Count(1),
        UsbReply::Count(2),
        UsbReply::Done,
        UsbReply::Done,
        UsbReply::Written(641),
    ] {
        state = state.advance(reply, transfer.payload.len());
    }
    assert_eq!(surface.0.complete_flush(state.outcome().unwrap()), Ok(()));
    assert!(surface.0.flush_screen().is_none());
}
