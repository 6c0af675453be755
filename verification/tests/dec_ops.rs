//! Wraparound arithmetic of the column decoder's output selection.

use c4_display::DecOutput;

#[test]
fn add_1() {
    assert_eq!(DecOutput::Y0.add(1), DecOutput::Y1);
}

#[test]
fn add_1_overflow() {
    assert_eq!(DecOutput::Y7.add(1), DecOutput::Y0);
}

#[test]
fn add_3() {
    assert_eq!(DecOutput::Y0.add(3), DecOutput::Y3);
}

#[test]
fn add_3_overflow() {
    assert_eq!(DecOutput::Y6.add(3), DecOutput::Y1);
}

#[test]
fn add_10_loopback() {
    assert_eq!(DecOutput::Y0.add(10), DecOutput::Y2);
}

#[test]
fn add_10_double_overflow() {
    assert_eq!(DecOutput::Y6.add(10), DecOutput::Y0);
}

#[test]
fn sub_1() {
    assert_eq!(DecOutput::Y7.sub(1), DecOutput::Y6);
}

#[test]
fn sub_1_underflow() {
    assert_eq!(DecOutput::Y0.sub(1), DecOutput::Y7);
}

#[test]
fn sub_3() {
    assert_eq!(DecOutput::Y7.sub(3), DecOutput::Y4);
}

#[test]
fn sub_3_underflow() {
    assert_eq!(DecOutput::Y7.sub(3), DecOutput::Y4);
}

#[test]
fn sub_10_loopback() {
    assert_eq!(DecOutput::Y7.sub(10), DecOutput::Y5);
}

#[test]
fn sub_10_double_underflow() {
    assert_eq!(DecOutput::Y1.sub(10), DecOutput::Y7);
}
