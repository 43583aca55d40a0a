use filename_refactor::fold::{char_from_u32, full2half, string_full2half};

#[test]
fn test_string_full2half() {
    assert_eq!(
        string_full2half("ｔｅｓｔ１２３あいうえおhalfwidth漢字.txt"),
        "test123あいうえおhalfwidth漢字.txt"
    );
}

#[test]
fn fullwidth_to_halfwidth_test_string_full2half() {
    let once = string_full2half("ｔｅｓｔ１２３あいうえおhalfwidth漢字.txt");
    assert_eq!(once, "test123あいうえおhalfwidth漢字.txt");
    assert_eq!(string_full2half(&once), "test123あいうえおhalfwidth漢字.txt");
}

#[test]
fn not_convert() {
    assert_eq!(string_full2half("／"), "／");
}

#[test]
fn fullwidth_to_halfwidth_not_convert() {
    assert_eq!(full2half('／'), '／');
}

#[test]
fn test_full2half_conversions() {
    assert_eq!(full2half('／'), '／');

    assert_eq!(full2half('A'), 'A');
    assert_eq!(full2half('a'), 'a');
    assert_eq!(full2half('1'), '1');
    assert_eq!(full2half(' '), ' ');
    assert_eq!(full2half('!'), '!');

    assert_eq!(full2half('！'), '!');
    assert_eq!(full2half('Ａ'), 'A');
    assert_eq!(full2half('ａ'), 'a');
    assert_eq!(full2half('１'), '1');
    assert_eq!(full2half('＃'), '#');

    assert_eq!(full2half('\u{2002}'), ' ');
    assert_eq!(full2half('\u{2003}'), ' ');
    assert_eq!(full2half('\u{2004}'), ' ');
    assert_eq!(full2half('\u{3000}'), ' ');
    assert_eq!(full2half('\u{FEFF}'), ' ');

    assert_eq!(full2half('あ'), 'あ');
    assert_eq!(full2half('漢'), '漢');
    assert_eq!(full2half('😀'), '😀');
}

#[test]
fn test_char_from_u32() {
    assert_eq!(char_from_u32(0x0041, '?'), 'A');
    assert_eq!(char_from_u32(0x3042, '?'), 'あ');

    assert_eq!(char_from_u32(0x110000, '?'), '?');
}

#[test]
fn test_string_full2half_comprehensive() {
    let input = "ＡＢＣ　１２３！＃＄あいう漢字DEFGHI";
    let expected = "ABC 123!#$あいう漢字DEFGHI";
    assert_eq!(string_full2half(input), expected);

    assert_eq!(string_full2half(""), "");

    let no_change = "ABC123!#$あいう漢字";
    assert_eq!(string_full2half(no_change), no_change);
}

#[test]
fn char_from_u32_rejects_surrogates() {
    assert_eq!(char_from_u32(0xD800, 'x'), 'x');
    assert_eq!(char_from_u32(0xDFFF, 'x'), 'x');
    assert_eq!(char_from_u32(0xD7FF, 'x'), '\u{D7FF}');
    assert_eq!(char_from_u32(0xE000, 'x'), '\u{E000}');
    assert_eq!(char_from_u32(0x10FFFF, 'x'), '\u{10FFFF}');
}

#[test]
fn fullwidth_range_edges() {
    assert_eq!(full2half('\u{FF00}'), '\u{FF00}');
    assert_eq!(full2half('\u{FF01}'), '!');
    assert_eq!(full2half('\u{FF0E}'), '.');
    assert_eq!(full2half('\u{FF0F}'), '\u{FF0F}');
    assert_eq!(full2half('\u{FF10}'), '0');
    assert_eq!(full2half('\u{FF5E}'), '~');
    assert_eq!(full2half('\u{FF5F}'), '\u{FF5F}');
}

#[test]
fn space_range_edges() {
    assert_eq!(full2half('\u{2001}'), '\u{2001}');
    assert_eq!(full2half('\u{2002}'), ' ');
    assert_eq!(full2half('\u{200B}'), ' ');
    assert_eq!(full2half('\u{200C}'), '\u{200C}');
    assert_eq!(full2half('\u{2FFF}'), '\u{2FFF}');
    assert_eq!(full2half('\u{3001}'), '\u{3001}');
    assert_eq!(full2half('\u{FEFE}'), '\u{FEFE}');
}

#[test]
fn every_fullwidth_form_matches_its_offset() {
    let mut code: u32 = 0xFF01;
    while code <= 0xFF5E {
        let c = char::from_u32(code).unwrap();
        let expected = if code == 0xFF0F { c } else { char::from_u32(code - 0xFF01 + 0x21).unwrap() };
        assert_eq!(full2half(c), expected);
        code += 1;
    }
}

#[test]
fn folding_twice_is_folding_once() {
    let inputs = [
        "ｔｅｓｔ１２３あいうえおhalfwidth漢字.txt",
        "ＡＢＣ　１２３！＃＄あいう漢字DEFGHI",
        "／ａ／ｂ\u{2003}ｃ\u{FEFF}",
        "😀 emoji ＆ more",
        "",
    ];
    for input in inputs {
        let once = string_full2half(input);
        assert_eq!(string_full2half(&once), once);
    }
}

#[test]
fn folding_keeps_the_solidus_and_adds_no_separator() {
    let folded = string_full2half("ａ／ｂ／ｃ");
    assert_eq!(folded, "a／b／c");
    assert!(!folded.contains('/'));
    assert_eq!(folded.chars().count(), 5);
}

#[test]
fn folding_leaves_unmapped_characters() {
    assert_eq!(string_full2half("😀🎉漢字кириллица"), "😀🎉漢字кириллица");
}
