use miimic::expression::{
    add_clamped, eye_index, eye_rotate_offset, mouth_index, resolve,
};
use miimic::mask::eyebrow_rotate_offset;
use miimic::mii::{
    EYEBROW_Y, EYE_ROTATE, EYE_TYPE, MOUTH_ASPECT, MOUTH_SCALE, MOUTH_TYPE, MUSTACHE_TYPE,
};
use miimic::{Expression, Mii, MiiData};

const TEST_MII: &str = "0800600308040402020c0301060406020a0000000008000804000a2a003e7f04000214031304160d04000a040109";

fn fixture() -> Mii {
    Mii::from_data(&MiiData::decode(TEST_MII).expect("fixture should decode"))
        .expect("fixture should validate")
}

#[test]
fn resolves_standard_expression_parts() {
    let normal = resolve(fixture(), Expression::Normal);
    assert_eq!(normal.eye_right, 2);
    assert_eq!(normal.eye_left, 2);
    assert_eq!(normal.mouth, 22);

    let wink = resolve(fixture(), Expression::WinkLeft);
    assert_eq!(wink.eye_right, 47);
    assert_eq!(wink.eye_left, 2);

    let surprised = resolve(fixture(), Expression::Surprise);
    assert_eq!(surprised.eye_right, 61);
    assert_eq!(surprised.mii.field(EYEBROW_Y), fixture().field(EYEBROW_Y) - 2);
}

#[test]
fn resolves_extended_expression_adjustments() {
    let animal = resolve(fixture(), Expression::Cat);
    assert_eq!(animal.eye_right, 67);
    assert_eq!(animal.mouth, 48);
    assert_eq!(animal.mii.field(MUSTACHE_TYPE), 0);
    assert_eq!(animal.mii.field(MOUTH_SCALE), 8);

    let singing = resolve(fixture(), Expression::SingingMouthSmall);
    assert_eq!(singing.eye_right, 79);
    assert_eq!(singing.mouth, 51);
    assert_eq!(singing.mii.field(MOUTH_ASPECT), 0);
}

#[test]
fn the_neutral_expression_keeps_the_mii_and_its_own_parts() {
    let mii = fixture();
    let normal = resolve(mii, Expression::Normal);
    assert_eq!(normal.mii, mii);
    assert_eq!(normal.eye_right, mii.field(EYE_TYPE));
    assert_eq!(normal.mouth, mii.field(MOUTH_TYPE));
}

#[test]
fn resolved_parts_stay_inside_the_texture_tables() {
    let mii = fixture();
    for code in 0..70u8 {
        let expression = Expression::try_from(code).expect("expression should convert");
        let resolved = resolve(mii, expression);
        assert!(resolved.eye_right < 80 && resolved.eye_left < 80);
        assert!(resolved.eyebrow < 28);
        assert!(resolved.mouth < 52);
        assert!(resolved.mii.field(EYE_ROTATE) <= 7);
    }
}

#[test]
fn part_indices_follow_their_expression_kind() {
    // Kind 0 keeps the Mii's own part; other kinds select a fixed texture.
    assert_eq!(eye_index(0, 9), 9);
    assert_eq!(mouth_index(0, 17), 17);
    assert_ne!(eye_index(1, 9), 9);
}

#[test]
fn clamped_addition_saturates_at_both_ends() {
    assert_eq!(add_clamped(3, -5, 10), 0);
    assert_eq!(add_clamped(8, 5, 10), 10);
    assert_eq!(add_clamped(4, 2, 10), 6);
}

#[test]
fn rotation_offsets_come_from_their_tables() {
    assert_eq!(eye_rotate_offset(0), 29);
    assert_eq!(eye_rotate_offset(1), 28);
    assert_eq!(eyebrow_rotate_offset(0), 26);
}

#[test]
fn expression_numbers_round_trip() {
    for value in 0..70u8 {
        let expression = Expression::try_from(value).expect("expression should convert");
        assert_eq!(u8::from(expression), value);
        assert_eq!(expression.code(), value);
    }
    assert_eq!(Expression::try_from(70), Err(70));
    assert_eq!(Expression::default(), Expression::Normal);
}
