use chip8_desktop::keymap::key2btn;
use chip8_desktop::keymap::KEY_A;
use chip8_desktop::keymap::KEY_C;
use chip8_desktop::keymap::KEY_D;
use chip8_desktop::keymap::KEY_E;
use chip8_desktop::keymap::KEY_ESCAPE;
use chip8_desktop::keymap::KEY_F;
use chip8_desktop::keymap::KEY_NUM1;
use chip8_desktop::keymap::KEY_NUM2;
use chip8_desktop::keymap::KEY_NUM3;
use chip8_desktop::keymap::KEY_NUM4;
use chip8_desktop::keymap::KEY_Q;
use chip8_desktop::keymap::KEY_R;
use chip8_desktop::keymap::KEY_S;
use chip8_desktop::keymap::KEY_V;
use chip8_desktop::keymap::KEY_W;
use chip8_desktop::keymap::KEY_X;
use chip8_desktop::keymap::KEY_Z;

#[test]
fn mapped_keys_resolve_to_documented_buttons() {
    assert_eq!(key2btn(KEY_NUM1), Some(0x1));
    assert_eq!(key2btn(KEY_NUM2), Some(0x2));
    assert_eq!(key2btn(KEY_NUM3), Some(0x3));
    assert_eq!(key2btn(KEY_NUM4), Some(0xC));
    assert_eq!(key2btn(KEY_Q), Some(0x4));
    assert_eq!(key2btn(KEY_W), Some(0x5));
    assert_eq!(key2btn(KEY_E), Some(0x6));
    assert_eq!(key2btn(KEY_R), Some(0xD));
    assert_eq!(key2btn(KEY_A), Some(0x7));
    assert_eq!(key2btn(KEY_S), Some(0x8));
    assert_eq!(key2btn(KEY_D), Some(0x9));
    assert_eq!(key2btn(KEY_F), Some(0xE));
    assert_eq!(key2btn(KEY_Z), Some(0xA));
    assert_eq!(key2btn(KEY_X), Some(0x0));
    assert_eq!(key2btn(KEY_C), Some(0xB));
    assert_eq!(key2btn(KEY_V), Some(0xF));
}

#[test]
fn unmapped_keys_resolve_to_none() {
    assert_eq!(key2btn(KEY_ESCAPE), None);
    assert_eq!(key2btn(0), None);
    assert_eq!(key2btn(-1), None);
    assert_eq!(key2btn(98), None); // 'b'
    assert_eq!(key2btn(53), None); // '5'
    assert_eq!(key2btn(i32::MAX), None);
    assert_eq!(key2btn(i32::MIN), None);
}

#[test]
fn mapped_buttons_cover_every_index_once() {
    let mapped: Vec<i32> = (i32::from(u8::MIN)..=i32::from(u8::MAX))
        .filter(|k| key2btn(*k).is_some())
        .collect();
    assert_eq!(mapped.len(), 16);
    let mut seen = [false; 16];
    for k in mapped {
        let b = key2btn(k).unwrap();
        assert!(b <= 0xF);
        assert!(!seen[b]);
        seen[b] = true;
    }
    assert!(seen.iter().all(|s| *s));
}
