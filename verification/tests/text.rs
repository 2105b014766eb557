use obj_vbo::order::{parse_data_order, ActiveKinds, AttributeKind, BufferDataType};
use obj_vbo::text::{
    char_is_whitespace, chars_of, copy_chars, parse_index, split_fields, split_whitespace,
};

fn chars(text: &str) -> Vec<char> {
    text.chars().collect()
}

fn strings(tokens: &Vec<Vec<char>>) -> Vec<String> {
    tokens.iter().map(|t| t.iter().collect()).collect()
}

#[test]
fn whitespace_is_the_unicode_property() {
    let mut code: u32 = 0;
    while code <= 0x10FFFF {
        if let Some(c) = char::from_u32(code) {
            assert_eq!(char_is_whitespace(c), c.is_whitespace(), "U+{:04X}", code);
        }
        code += 1;
    }
}

#[test]
fn chars_of_keeps_every_character() {
    assert_eq!(chars_of(""), Vec::<char>::new());
    assert_eq!(chars_of("v 1"), vec!['v', ' ', '1']);
    assert_eq!(chars_of("é→x"), vec!['é', '→', 'x']);
    assert_eq!(copy_chars(&chars("abc")), vec!['a', 'b', 'c']);
}

#[test]
fn words_are_the_runs_between_whitespace() {
    let tokens = split_whitespace(&chars("  1.0\t2.0   3.0 \u{3000}4 "));
    assert_eq!(strings(&tokens), vec!["1.0", "2.0", "3.0", "4"]);
}

#[test]
fn words_of_an_empty_or_blank_text() {
    assert!(split_whitespace(&chars("")).is_empty());
    assert!(split_whitespace(&chars(" \t \r")).is_empty());
}

#[test]
fn words_agree_with_the_standard_library() {
    let samples = [
        "",
        " ",
        "a",
        " a",
        "a ",
        "a b",
        "a  b",
        "\ta\u{a0}b\u{2003}c\n",
        "1/2/3 4//5 6",
        "x\u{85}y\u{1680}z",
        "no-break\u{202f}narrow \u{205f}math",
    ];
    for sample in samples {
        let expected: Vec<String> = sample.split_whitespace().map(|w| w.to_string()).collect();
        assert_eq!(strings(&split_whitespace(&chars(sample))), expected, "{:?}", sample);
    }
}

#[test]
fn fields_keep_empty_parts() {
    assert_eq!(strings(&split_fields(&chars("1/2/3"), '/')), vec!["1", "2", "3"]);
    assert_eq!(strings(&split_fields(&chars("1//3"), '/')), vec!["1", "", "3"]);
    assert_eq!(strings(&split_fields(&chars("7"), '/')), vec!["7"]);
    assert_eq!(strings(&split_fields(&chars(""), '/')), vec![""]);
    assert_eq!(strings(&split_fields(&chars("/"), '/')), vec!["", ""]);
    assert_eq!(strings(&split_fields(&chars("1/"), '/')), vec!["1", ""]);
}

#[test]
fn fields_agree_with_the_standard_library() {
    let samples = ["", "/", "//", "a", "a/b", "/a", "a/", "12/34/56/78", "1//", "//3"];
    for sample in samples {
        let expected: Vec<String> = sample.split('/').map(|w| w.to_string()).collect();
        assert_eq!(strings(&split_fields(&chars(sample), '/')), expected, "{:?}", sample);
    }
}

#[test]
fn an_index_is_a_run_of_digits() {
    assert_eq!(parse_index(&chars("1")), Some(1));
    assert_eq!(parse_index(&chars("0")), Some(0));
    assert_eq!(parse_index(&chars("12")), Some(12));
    assert_eq!(parse_index(&chars("007")), Some(7));
    assert_eq!(parse_index(&chars("+5")), Some(5));
    assert_eq!(parse_index(&chars("4096")), Some(4096));
}

#[test]
fn what_is_no_index() {
    assert_eq!(parse_index(&chars("")), None);
    assert_eq!(parse_index(&chars("+")), None);
    assert_eq!(parse_index(&chars("-1")), None);
    assert_eq!(parse_index(&chars("++1")), None);
    assert_eq!(parse_index(&chars("1.0")), None);
    assert_eq!(parse_index(&chars("1 ")), None);
    assert_eq!(parse_index(&chars("x")), None);
    assert_eq!(parse_index(&chars("٣")), None);
}

#[test]
fn an_index_must_fit_the_machine() {
    let largest = usize::MAX.to_string();
    assert_eq!(parse_index(&chars(&largest)), Some(usize::MAX));
    let padded = format!("000{}", largest);
    assert_eq!(parse_index(&chars(&padded)), Some(usize::MAX));
    let too_large = format!("{}0", largest);
    assert_eq!(parse_index(&chars(&too_large)), None);
    let next = (usize::MAX as u128 + 1).to_string();
    assert_eq!(parse_index(&chars(&next)), None);
}

#[test]
fn indices_agree_with_the_standard_library() {
    let samples = [
        "", "0", "1", "42", "+42", "-42", "+", "-", "4 2", "42a", "a42", "00", "+0",
        "18446744073709551615", "18446744073709551616", "99999999999999999999999",
        "4294967295", "4294967296",
    ];
    for sample in samples {
        assert_eq!(parse_index(&chars(sample)), sample.parse::<usize>().ok(), "{:?}", sample);
    }
}

#[test]
fn slots_by_name() {
    assert_eq!(BufferDataType::from_token(&chars("vx")), BufferDataType::PosX);
    assert_eq!(BufferDataType::from_token(&chars("vy")), BufferDataType::PosY);
    assert_eq!(BufferDataType::from_token(&chars("vz")), BufferDataType::PosZ);
    assert_eq!(BufferDataType::from_token(&chars("nx")), BufferDataType::NormX);
    assert_eq!(BufferDataType::from_token(&chars("ny")), BufferDataType::NormY);
    assert_eq!(BufferDataType::from_token(&chars("nz")), BufferDataType::NormZ);
    assert_eq!(BufferDataType::from_token(&chars("tu")), BufferDataType::TexU);
    assert_eq!(BufferDataType::from_token(&chars("tv")), BufferDataType::TexV);
    assert_eq!(BufferDataType::from_token(&chars("tw")), BufferDataType::TexW);
}

#[test]
fn any_other_word_is_void() {
    for word in ["*", "", "v", "vxx", "VX", "xv", "tx", "nu", "vw", "position"] {
        assert_eq!(BufferDataType::from_token(&chars(word)), BufferDataType::Void, "{:?}", word);
    }
}

#[test]
fn an_order_is_read_word_by_word() {
    assert_eq!(
        parse_data_order("tu tv tw vx vy * nz *"),
        vec![
            BufferDataType::TexU,
            BufferDataType::TexV,
            BufferDataType::TexW,
            BufferDataType::PosX,
            BufferDataType::PosY,
            BufferDataType::Void,
            BufferDataType::NormZ,
            BufferDataType::Void,
        ]
    );
    assert_eq!(parse_data_order("   "), Vec::<BufferDataType>::new());
}

#[test]
fn a_kind_is_active_when_a_slot_reads_it() {
    let none = ActiveKinds { position: false, texcoord: false, normal: false };
    assert_eq!(ActiveKinds::from_order(&vec![]), none);
    assert_eq!(ActiveKinds::from_order(&vec![BufferDataType::Void, BufferDataType::Void]), none);
    assert_eq!(
        ActiveKinds::from_order(&vec![BufferDataType::Void, BufferDataType::PosY]),
        ActiveKinds { position: true, texcoord: false, normal: false }
    );
    assert_eq!(
        ActiveKinds::from_order(&vec![BufferDataType::NormZ, BufferDataType::TexU]),
        ActiveKinds { position: false, texcoord: true, normal: true }
    );
    assert_eq!(
        ActiveKinds::from_order(&parse_data_order("tu tv tw vx vy * nz *")),
        ActiveKinds { position: true, texcoord: true, normal: true }
    );
}

#[test]
fn a_slot_tells_its_kind() {
    assert_eq!(BufferDataType::PosZ.attribute(), Some(AttributeKind::Position));
    assert_eq!(BufferDataType::NormX.attribute(), Some(AttributeKind::Normal));
    assert_eq!(BufferDataType::TexV.attribute(), Some(AttributeKind::TexCoord));
    assert_eq!(BufferDataType::Void.attribute(), None);
}
