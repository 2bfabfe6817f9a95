use cyb_runtime::position::{map_span, pos_to_utf8_linecol, WasmPosition};

fn at(line: u32, character: u32) -> WasmPosition {
    WasmPosition { line, character }
}

#[test]
fn the_start_of_a_text_is_line_zero_column_zero() {
    assert_eq!(pos_to_utf8_linecol("abc\ndef".as_bytes(), 0), (0, 0));
    assert_eq!(pos_to_utf8_linecol("".as_bytes(), 0), (0, 0));
    assert_eq!(pos_to_utf8_linecol("".as_bytes(), 7), (0, 0));
}

#[test]
fn columns_count_bytes_in_plain_text() {
    let text = "let a = 1;\nlet b = ;\nlet c = 3;\n";
    let bytes = text.as_bytes();
    assert_eq!(pos_to_utf8_linecol(bytes, 4), (0, 4));
    assert_eq!(pos_to_utf8_linecol(bytes, 10), (0, 10));
    assert_eq!(pos_to_utf8_linecol(bytes, 11), (1, 0));
    assert_eq!(pos_to_utf8_linecol(bytes, 19), (1, 8));
    assert_eq!(pos_to_utf8_linecol(bytes, 21), (2, 0));
    assert_eq!(pos_to_utf8_linecol(bytes, text.len()), (3, 0));
}

#[test]
fn columns_count_characters_not_bytes() {
    let text = "// żółw 🦀\nfn main() { ł }\n";
    let error_at = text.find("ł }").unwrap();
    assert_eq!(error_at, 28);
    let (start, end) = map_span(text, error_at, error_at + "ł".len());
    assert_eq!(start, at(1, 12));
    assert_eq!(end, at(1, 13));
    let crab = text.find('🦀').unwrap();
    let (start, end) = map_span(text, crab, crab + 4);
    assert_eq!(start, at(0, 8));
    assert_eq!(end, at(0, 9));
}

#[test]
fn an_offset_inside_a_character_counts_the_character() {
    let text = "a🦀b";
    let bytes = text.as_bytes();
    assert_eq!(pos_to_utf8_linecol(bytes, 1), (0, 1));
    assert_eq!(pos_to_utf8_linecol(bytes, 2), (0, 2));
    assert_eq!(pos_to_utf8_linecol(bytes, 4), (0, 2));
    assert_eq!(pos_to_utf8_linecol(bytes, 5), (0, 2));
    assert_eq!(pos_to_utf8_linecol(bytes, 6), (0, 3));
}

#[test]
fn an_offset_past_the_end_is_the_end() {
    let text = "ab\ncd";
    let bytes = text.as_bytes();
    assert_eq!(pos_to_utf8_linecol(bytes, 5), (1, 2));
    assert_eq!(pos_to_utf8_linecol(bytes, 6), (1, 2));
    assert_eq!(pos_to_utf8_linecol(bytes, usize::MAX), (1, 2));
}

#[test]
fn positions_agree_with_the_compiler() {
    let texts = [
        "",
        "\n",
        "\n\n\n",
        "abc",
        "abc\n",
        "pub fn main(x) {\n    x + 1\n}\n",
        "żółw\r\n🦀🦀\n\nłódź = \"√2\";\n// end",
        "\u{2028}a\u{85}b\u{a0}\n\tc",
    ];
    for text in texts {
        let source = rune::Source::memory(text).unwrap();
        let mut offset = 0;
        while offset <= text.len() + 2 {
            assert_eq!(
                pos_to_utf8_linecol(text.as_bytes(), offset),
                source.pos_to_utf8_linecol(offset),
                "{text:?} at {offset}"
            );
            offset += 1;
        }
    }
}

#[test]
fn a_position_keeps_thirty_two_bits() {
    assert_eq!(WasmPosition::from((3, 9)), at(3, 9));
    assert_eq!(WasmPosition::from((u32::MAX as usize, 0)), at(u32::MAX, 0));
    assert_eq!(WasmPosition::from((0x1_0000_0005, 0x2_0000_0000)), at(5, 0));
}

#[test]
fn a_span_maps_both_ends() {
    let text = "one\ntwo\nthree";
    assert_eq!(map_span(text, 4, 7), (at(1, 0), at(1, 3)));
    assert_eq!(map_span(text, 2, 9), (at(0, 2), at(2, 1)));
    assert_eq!(map_span(text, 0, 0), (at(0, 0), at(0, 0)));
}
