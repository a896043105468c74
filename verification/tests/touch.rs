use m5dial::ft3267::{Error, Ft3265Gesture, Ft3267, TouchPoint, FT3267_ADDR};

#[test]
fn coordinate_decode() {
    let touch = Ft3267::new(0);
    let p = touch.decode_point(0, 0x01, 0x23, 0x02, 0x45).unwrap();
    assert_eq!(p.x, 291);
    assert_eq!(p.y, 581);
    assert_eq!(p.id, 0);
}

#[test]
fn coordinate_decode_swaps_axes_under_rotation() {
    let touch = Ft3267::new(1);
    let p = touch.decode_point(2, 0x01, 0x23, 0x02, 0x45).unwrap();
    assert_eq!(p.x, 581);
    assert_eq!(p.y, 291);
    assert_eq!(p.id, 2);
}

#[test]
fn coordinate_decode_masks_high_nibbles() {
    let touch = Ft3267::new(0);
    // Event-flag bits share the coordinate high bytes; only the low nibble
    // belongs to the coordinate.
    let p = touch.decode_point(1, 0xF1, 0x00, 0xFF, 0xFF).unwrap();
    assert_eq!(p.x, 0x0100);
    assert_eq!(p.y, 0x0FFF);
}

#[test]
fn out_of_range_point_index_is_an_error() {
    let touch = Ft3267::new(0);
    assert_eq!(
        touch.decode_point(4, 0, 0, 0, 0),
        Err(Error::InvalidPointIndex(4))
    );
    assert_eq!(touch.point_reg(9), Err(Error::InvalidPointIndex(9)));
}

#[test]
fn point_register_blocks_sit_six_addresses_apart() {
    let touch = Ft3267::new(0);
    assert_eq!(touch.point_reg(0), Ok(0x03));
    assert_eq!(touch.point_reg(1), Ok(0x09));
    assert_eq!(touch.point_reg(2), Ok(0x0F));
    assert_eq!(touch.point_reg(3), Ok(0x15));
}

#[test]
fn touch_count_masks_low_nibble() {
    let touch = Ft3267::new(0);
    assert_eq!(touch.pool_count(0xF3), 3);
    assert_eq!(touch.pool_count(0x00), 0);
}

#[test]
fn zero_touches_is_no_event() {
    let touch = Ft3267::new(0);
    assert_eq!(touch.touch_event(0xF0), None);
    assert_eq!(touch.touch_event(0x02), Some(2));
}

#[test]
fn new_uses_controller_address() {
    let touch = Ft3267::new(1);
    assert_eq!(touch.address, FT3267_ADDR);
    assert_eq!(touch.rotation, 1);
}

#[test]
fn init_sequence_configures_thresholds_and_periods() {
    let touch = Ft3267::new(0);
    let seq = touch.init_sequence();
    assert_eq!(
        seq,
        vec![
            (0x80, 70),
            (0x81, 60),
            (0x82, 16),
            (0x83, 60),
            (0x84, 10),
            (0x85, 20),
            (0x87, 2),
            (0x88, 12),
            (0x89, 40),
        ]
    );
}

#[test]
fn gesture_codes() {
    assert_eq!(Ft3265Gesture::Ft3267GestureNone.code(), 0x00);
    assert_eq!(Ft3265Gesture::Ft3267GestureMoveUp.code(), 0x10);
    assert_eq!(Ft3265Gesture::Ft3267GestureMoveLeft.code(), 0x14);
    assert_eq!(Ft3265Gesture::Ft3267GestureMoveDown.code(), 0x18);
    assert_eq!(Ft3265Gesture::Ft3267GestureMoveRight.code(), 0x1c);
    assert_eq!(Ft3265Gesture::Ft3267GestureZomeIn.code(), 0x48);
    assert_eq!(Ft3265Gesture::Ft3267GestureZomeOut.code(), 0x49);
}

#[test]
fn touch_point_fields_carry_through() {
    let p = TouchPoint { id: 3, x: 1, y: 2 };
    assert_eq!((p.id, p.x, p.y), (3, 1, 2));
}
