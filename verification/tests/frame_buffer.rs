use keyboard_oled::error::KeyboardError;
use keyboard_oled::keyboard::{ApexProTkl, DeviceIds, KeyboardDevice, KeyboardInfo, KeyboardType};

fn apex() -> KeyboardInfo {
    KeyboardInfo::new(0x1038, 0x1614, 128, 40).unwrap()
}

fn small(width: u32, height: u32) -> KeyboardDevice {
    let info = KeyboardInfo::new(1, 2, width, height).unwrap();
    KeyboardDevice::new(info, &vec![Some(DeviceIds { vendor_id: 1, product_id: 2 })]).unwrap()
}

fn attached_apex() -> Vec<Option<DeviceIds>> {
    vec![Some(DeviceIds { vendor_id: 0x1038, product_id: 0x1614 })]
}

fn lit(device: &KeyboardDevice) -> Vec<(i32, i32)> {
    let (width, height) = device.size();
    let mut found = Vec::new();
    for y in 0..height as i32 {
        for x in 0..width as i32 {
            if device.pixel(x, y) == Some(true) {
                found.push((x, y));
            }
        }
    }
    found
}

#[test]
fn keyboard_info_keeps_what_it_was_given() {
    let info = apex();
    assert_eq!(info.vendor_id(), 0x1038);
    assert_eq!(info.product_id(), 0x1614);
    assert_eq!(info.width(), 128);
    assert_eq!(info.height(), 40);
    assert_eq!(KeyboardDevice::screen_area(&info), 5120);
}

#[test]
fn keyboard_info_refuses_a_screen_without_pixels() {
    assert_eq!(KeyboardInfo::new(1, 2, 0, 40).err(), Some(KeyboardError::InvalidSize));
    assert_eq!(KeyboardInfo::new(1, 2, 128, 0).err(), Some(KeyboardError::InvalidSize));
    assert_eq!(KeyboardInfo::new(1, 2, 0, 0).err(), Some(KeyboardError::InvalidSize));
}

#[test]
fn keyboard_info_refuses_a_screen_with_too_many_pixels() {
    assert_eq!(KeyboardInfo::new(1, 2, 65536, 65536).err(), Some(KeyboardError::InvalidSize));
    assert_eq!(
        KeyboardInfo::new(1, 2, u32::MAX, u32::MAX).err(),
        Some(KeyboardError::InvalidSize)
    );
    assert!(KeyboardInfo::new(1, 2, 1, 1).is_ok());
}

#[test]
fn apex_pro_tkl_is_the_known_model() {
    let info = ApexProTkl::info();
    assert_eq!(info.vendor_id(), 0x1038);
    assert_eq!(info.product_id(), 0x1614);
    assert_eq!((info.width(), info.height()), (128, 40));
}

#[test]
fn new_device_is_dark_and_dirty() {
    let device = KeyboardDevice::new(apex(), &attached_apex()).unwrap();
    assert!(device.is_dirty());
    assert_eq!(device.size(), (128, 40));
    assert_eq!(device.device_index(), 0);
    assert_eq!(device.info().vendor_id(), 0x1038);
    assert!(lit(&device).is_empty());
}

#[test]
fn set_pixel_in_range_sets_the_bit_and_marks_dirty() {
    let mut device = KeyboardDevice::new(apex(), &attached_apex()).unwrap();
    device.complete_flush(Ok(())).unwrap();
    assert!(!device.is_dirty());
    device.set_pixel(3, 2, true);
    assert!(device.is_dirty());
    assert_eq!(lit(&device), vec![(3, 2)]);
    // bit 3 + 2 * 128 = 259 is the fourth bit from the top of byte 32
    let payload = device.image_payload();
    assert_eq!(payload[1 + 32], 0b0001_0000);
    assert_eq!(payload.iter().filter(|b| **b != 0).count(), 2);
}

#[test]
fn set_pixel_marks_dirty_even_without_a_change() {
    let mut device = small(4, 4);
    device.complete_flush(Ok(())).unwrap();
    device.set_pixel(1, 1, false);
    assert!(device.is_dirty());
    assert!(lit(&device).is_empty());
}

#[test]
fn set_pixel_can_clear_a_pixel() {
    let mut device = small(4, 4);
    device.set_pixel(1, 1, true);
    device.set_pixel(2, 3, true);
    device.set_pixel(1, 1, false);
    assert_eq!(lit(&device), vec![(2, 3)]);
}

#[test]
fn set_pixel_out_of_range_changes_nothing() {
    let mut device = small(5, 3);
    device.set_pixel(2, 1, true);
    device.complete_flush(Ok(())).unwrap();
    let before = device.image_payload();
    for (x, y) in [
        (-1, 0),
        (0, -1),
        (-1, -1),
        (5, 0),
        (0, 3),
        (5, 3),
        (i32::MIN, 1),
        (1, i32::MIN),
        (i32::MAX, 1),
        (1, i32::MAX),
    ] {
        device.set_pixel(x, y, true);
        assert!(!device.is_dirty());
        assert_eq!(device.pixel(x, y), None);
    }
    assert_eq!(device.image_payload(), before);
    assert_eq!(lit(&device), vec![(2, 1)]);
}

#[test]
fn pixels_sit_row_after_row() {
    let mut device = small(5, 3);
    device.set_pixel(4, 0, true);
    device.set_pixel(0, 1, true);
    device.set_pixel(4, 2, true);
    // 15 bits: 00001 10000 00001, then one bit of padding
    assert_eq!(device.image_payload(), vec![0x65, 0b0000_1100, 0b0000_0010]);
}

#[test]
fn corner_pixels_are_the_first_and_the_last_bit() {
    let mut device = KeyboardDevice::new(apex(), &attached_apex()).unwrap();
    device.set_pixel(0, 0, true);
    device.set_pixel(127, 39, true);
    let payload = device.image_payload();
    assert_eq!(payload.len(), 641);
    assert_eq!(payload[1], 0b1000_0000);
    assert_eq!(payload[640], 0b0000_0001);
}
