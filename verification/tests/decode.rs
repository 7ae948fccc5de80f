use cuesplit::decode::read_cue_file_content;

#[test]
fn japanese_in_the_windows_code_page_decodes() {
    let bytes: &[u8] = &[
        0x82, 0xb1, 0x82, 0xea, 0x82, 0xcd, 0x93, 0xfa, 0x96, 0x7b, 0x8c, 0xea, 0x82, 0xcc, 0x83, 0x65,
        0x83, 0x4c, 0x83, 0x58, 0x83, 0x67, 0x82, 0xc5, 0x82, 0xb7, 0x81, 0x42, 0x87, 0x40, 0x94, 0xd4,
        0x96, 0xda, 0x82, 0xcc, 0x83, 0x67, 0x83, 0x89, 0x83, 0x62, 0x83, 0x4e, 0x82, 0xc5, 0x82, 0xb7,
        0x81, 0x42, 0x89, 0xb9, 0x8a, 0x79, 0x82, 0xf0, 0x92, 0xae, 0x82, 0xab, 0x82, 0xdc, 0x82, 0xb7,
        0x81, 0x42, 0x0a,
    ];
    assert_eq!(
        read_cue_file_content(bytes),
        Ok("これは日本語のテキストです。①番目のトラックです。音楽を聴きます。\n".to_string())
    );
}

#[test]
fn korean_in_the_windows_code_page_decodes() {
    let bytes: &[u8] = &[
        0x8c, 0x63, 0xb9, 0xe6, 0xb0, 0xa2, 0xc7, 0xcf, 0x20, 0xc7, 0xd1, 0xb1, 0xb9, 0xbe, 0xee, 0x20,
        0xc5, 0xd8, 0xbd, 0xba, 0xc6, 0xae, 0xc0, 0xd4, 0xb4, 0xcf, 0xb4, 0xd9, 0x20, 0xc0, 0xbd, 0xbe,
        0xc7, 0xc0, 0xbb, 0x20, 0xb5, 0xe8, 0xbd, 0xc0, 0xb4, 0xcf, 0xb4, 0xd9, 0x20, 0xbc, 0x84, 0xbd,
        0xc3, 0xc4, 0xdd, 0xb6, 0xf3, 0x0a,
    ];
    assert_eq!(
        read_cue_file_content(bytes),
        Ok("똠방각하 한국어 텍스트입니다 음악을 듣습니다 펲시콜라\n".to_string())
    );
}

#[test]
fn russian_in_the_mac_code_page_decodes() {
    let bytes: &[u8] = &[
        0x9d, 0xf2, 0xee, 0x20, 0xf0, 0xf3, 0xf1, 0xf1, 0xea, 0xe8, 0xe9, 0x20, 0xf2, 0xe5, 0xea, 0xf1,
        0xf2, 0x20, 0xe4, 0xeb, 0xdf, 0x20, 0xef, 0xf0, 0xee, 0xe2, 0xe5, 0xf0, 0xea, 0xe8, 0x20, 0xee,
        0xef, 0xf0, 0xe5, 0xe4, 0xe5, 0xeb, 0xe5, 0xed, 0xe8, 0xdf, 0x20, 0xea, 0xee, 0xe4, 0xe8, 0xf0,
        0xee, 0xe2, 0xea, 0xe8, 0x20, 0xf4, 0xe0, 0xe9, 0xeb, 0xe0, 0x2e, 0x20, 0x84, 0xee, 0xf0, 0xee,
        0xe3, 0xe0, 0x20, 0xe4, 0xee, 0xec, 0xee, 0xe9, 0x2e, 0x0a,
    ];
    assert_eq!(
        read_cue_file_content(bytes),
        Ok("Это русский текст для проверки определения кодировки файла. Дорога домой.\n".to_string())
    );
}
