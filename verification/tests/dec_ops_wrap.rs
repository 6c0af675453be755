//! Wraparound arithmetic of the decoder selection, including compound
//! assignment.

use c4_display::DecOutput;

#[test]
fn dec_add_1() {
    let mut d = DecOutput::Y0;
    d.add_assign(1);
    assert_eq!(d, DecOutput::Y1);
}

#[test]
fn dec_add_1_overflow() {
    let mut d = DecOutput::Y7;
    d.add_assign(1);
    assert_eq!(d, DecOutput::Y0);
}

#[test]
fn dec_add_3() {
    let mut d = DecOutput::Y0;
    d.add_assign(3);
    assert_eq!(d, DecOutput::Y3);
}

#[test]
fn dec_add_3_overflow() {
    let mut d = DecOutput::Y6;
    d.add_assign(3);
    assert_eq!(d, DecOutput::Y1);
}

#[test]
fn dec_add_10_loopback() {
    let mut d = DecOutput::Y0;
    d.add_assign(10);
    assert_eq!(d, DecOutput::Y2);
}

#[test]
fn dec_add_10_double_overflow() {
    let mut d = DecOutput::Y6;
    d.add_assign(10);
    assert_eq!(d, DecOutput::Y0);
}

#[test]
fn dec_sub_1() {
    let mut d = DecOutput::Y7;
    d.sub_assign(1);
    assert_eq!(d, DecOutput::Y6);
}

#[test]
fn dec_sub_1_underflow() {
    let mut d = DecOutput::Y0;
    d.sub_assign(1);
    assert_eq!(d, DecOutput::Y7);
}

#[test]
fn dec_sub_3() {
    let mut d = DecOutput::Y7;
    d.sub_assign(3);
    assert_eq!(d, DecOutput::Y4);
}

#[test]
fn dec_sub_3_underflow() {
    let mut d = DecOutput::Y7;
    d.sub_assign(3);
    assert_eq!(d, DecOutput::Y4);
}

#[test]
fn dec_sub_10_loopback() {
    let mut d = DecOutput::Y7;
    d.sub_assign(10);
    assert_eq!(d, DecOutput::Y5);
}

#[test]
fn dec_sub_10_double_underflow() {
    let mut d = DecOutput::Y1;
    d.sub_assign(10);
    assert_eq!(d, DecOutput::Y7);
}
