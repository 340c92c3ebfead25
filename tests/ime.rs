use tao::ime::{
    is_msg_ime_related, ImeOutput, MinimalIme, WM_CHAR, WM_IME_COMPOSITION, WM_IME_ENDCOMPOSITION,
    WM_SYSCHAR,
};

fn nothing() -> ImeOutput {
    ImeOutput { handled: false, text: None }
}

#[test]
fn ime_related_messages() {
    assert!(is_msg_ime_related(WM_CHAR));
    assert!(is_msg_ime_related(WM_SYSCHAR));
    assert!(is_msg_ime_related(WM_IME_COMPOSITION));
    assert!(is_msg_ime_related(WM_IME_ENDCOMPOSITION));
    assert!(!is_msg_ime_related(0x0100));
    assert!(!is_msg_ime_related(0));
}

#[test]
fn characters_outside_a_composition_pass_through() {
    let mut ime = MinimalIme::default();
    assert_eq!(ime.process_message(WM_CHAR, 'a' as usize, None), nothing());
    assert!(!ime.is_collecting());
}

#[test]
fn composed_text_is_delivered_when_characters_stop() {
    let mut ime = MinimalIme::new();
    assert_eq!(ime.process_message(WM_IME_ENDCOMPOSITION, 0, None), nothing());
    assert!(ime.is_collecting());
    assert_eq!(
        ime.process_message(WM_CHAR, 0x4F60, Some(WM_CHAR)),
        ImeOutput { handled: true, text: None }
    );
    assert_eq!(
        ime.process_message(WM_CHAR, 0x597D, Some(0x0100)),
        ImeOutput { handled: true, text: Some(String::from("你好")) }
    );
    assert!(!ime.is_collecting());
    assert_eq!(ime.process_message(WM_CHAR, 'x' as usize, None), nothing());
}

#[test]
fn surrogate_pairs_are_decoded() {
    let mut ime = MinimalIme::new();
    ime.process_message(WM_IME_ENDCOMPOSITION, 0, None);
    assert_eq!(
        ime.process_message(WM_SYSCHAR, 0xD83D, Some(WM_SYSCHAR)),
        ImeOutput { handled: true, text: None }
    );
    assert_eq!(
        ime.process_message(WM_SYSCHAR, 0xDE00, None),
        ImeOutput { handled: true, text: Some(String::from("\u{1F600}")) }
    );
}

#[test]
fn unpaired_surrogate_yields_no_text() {
    let mut ime = MinimalIme::new();
    ime.process_message(WM_IME_ENDCOMPOSITION, 0, None);
    assert_eq!(
        ime.process_message(WM_CHAR, 0xD83D, None),
        ImeOutput { handled: true, text: None }
    );
    assert!(!ime.is_collecting());
}

#[test]
fn wparam_is_truncated_to_one_unit() {
    let mut ime = MinimalIme::new();
    ime.process_message(WM_IME_ENDCOMPOSITION, 0, None);
    assert_eq!(
        ime.process_message(WM_CHAR, 0x1_0041, None),
        ImeOutput { handled: true, text: Some(String::from("A")) }
    );
}
