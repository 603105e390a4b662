use chat_prompts::MistralLitePrompt;

const WHITE_SPACE: [(u32, u32); 11] = [
    (0x0009, 0x000D),
    (0x0020, 0x0020),
    (0x0085, 0x0085),
    (0x00A0, 0x00A0),
    (0x1680, 0x1680),
    (0x2000, 0x200A),
    (0x2028, 0x2028),
    (0x2029, 0x2029),
    (0x202F, 0x202F),
    (0x205F, 0x205F),
    (0x3000, 0x3000),
];

fn is_white_space(code: u32) -> bool {
    WHITE_SPACE.iter().any(|&(low, high)| low <= code && code <= high)
}

/// Checks, for every character with a code in `low..=high`, that the template
/// trims it from both ends of a text exactly if it is listed as whitespace.
fn check_range(low: u32, high: u32) {
    let mut text = String::new();
    let mut expected = String::new();
    for code in low..=high {
        let c = match char::from_u32(code) {
            Some(c) => c,
            None => continue,
        };
        text.clear();
        text.push(c);
        text.push('x');
        text.push(c);
        expected.clear();
        expected.push_str("<|prompter|>");
        if is_white_space(code) {
            expected.push('x');
        } else {
            expected.push_str(&text);
        }
        expected.push_str("</s><|assistant|>");
        let prompt = MistralLitePrompt.append_user_message(&text);
        assert_eq!(prompt, expected, "U+{:04X}", code);
    }
}

#[test]
fn whitespace_in_the_basic_plane_low_half() {
    check_range(0x0000, 0x7FFF);
}

#[test]
fn whitespace_in_the_basic_plane_high_half() {
    check_range(0x8000, 0xFFFF);
}

#[test]
fn whitespace_in_planes_one_to_three() {
    check_range(0x1_0000, 0x3_FFFF);
}

#[test]
fn whitespace_in_planes_four_to_seven() {
    check_range(0x4_0000, 0x7_FFFF);
}

#[test]
fn whitespace_in_planes_eight_to_eleven() {
    check_range(0x8_0000, 0xB_FFFF);
}

#[test]
fn whitespace_in_planes_twelve_to_sixteen() {
    check_range(0xC_0000, 0x10_FFFF);
}

#[test]
fn each_listed_whitespace_character_is_trimmed() {
    let mut count = 0;
    for &(low, high) in WHITE_SPACE.iter() {
        for code in low..=high {
            let c = char::from_u32(code).unwrap();
            let text = format!("{c}{c}a{c}b{c}");
            let prompt = MistralLitePrompt.append_user_message(&text);
            assert_eq!(prompt, format!("<|prompter|>a{c}b</s><|assistant|>"));
            count += 1;
        }
    }
    assert_eq!(count, 25);
}

#[test]
fn look_alikes_are_not_trimmed() {
    for c in ['\u{1c}', '\u{1f}', '\u{180e}', '\u{200b}', '\u{200d}', '\u{2060}', '\u{feff}'] {
        let text = format!("{c}a{c}");
        let prompt = MistralLitePrompt.append_user_message(&text);
        assert_eq!(prompt, format!("<|prompter|>{text}</s><|assistant|>"));
    }
}
