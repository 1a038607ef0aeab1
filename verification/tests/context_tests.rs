use bitcode_recomp::context::FileContext;
use bitcode_recomp::errors::ErrorKind;
use bitcode_recomp::macho::{locate_bundle_section, LoadCmd, SectionRec};
use bitcode_recomp::strutil::{contains_sub, leaf_string, str_eq};

fn sec(segname: &str, sectname: &str, offset: u32, size: usize) -> SectionRec {
    SectionRec {
        segname: segname.to_string(),
        sectname: sectname.to_string(),
        addr: 0x1000,
        size,
        offset,
    }
}

#[test]
fn read_u8_advances_and_stops() {
    let data = [7u8, 8, 9];
    let mut ctxt = FileContext::new(&data);
    assert_eq!(ctxt.read_u8().unwrap(), 7);
    assert_eq!(ctxt.read_u8().unwrap(), 8);
    assert_eq!(ctxt.read_u8().unwrap(), 9);
    assert!(matches!(ctxt.read_u8(), Err(ErrorKind::ExtractionFailed)));
}

#[test]
fn section_hex_copies_verbatim() {
    let data = [0u8, 1, 2, 3, 4, 5, 6, 7];
    let mut ctxt = FileContext::new(&data);
    ctxt.seek(3);
    let got = ctxt.section_hex(0x1000, 4).unwrap();
    assert_eq!(got, vec![3u8, 4, 5, 6]);
}

#[test]
fn section_hex_out_of_range_fails() {
    let data = [0u8, 1, 2];
    let mut ctxt = FileContext::new(&data);
    ctxt.seek(1);
    assert!(matches!(ctxt.section_hex(0, 3), Err(ErrorKind::ExtractionFailed)));
}

#[test]
fn hexdump_one_line() {
    let data = [0x00u8, 0xab, 0x10];
    let mut ctxt = FileContext::new(&data);
    let w = ctxt.hexdump(0, 3).unwrap();
    assert_eq!(String::from_utf8(w).unwrap(), "0000000000000000\t00 ab 10 \n");
}

#[test]
fn hexdump_wraps_every_sixteen_bytes() {
    let data: Vec<u8> = (0u8..18).collect();
    let mut ctxt = FileContext::new(&data);
    let w = ctxt.hexdump(0x20, 18).unwrap();
    let text = String::from_utf8(w).unwrap();
    assert_eq!(
        text,
        "0000000000000020\t00 01 02 03 04 05 06 07 08 09 0a 0b 0c 0d 0e 0f \n\
         0000000000000030\t10 11 \n"
    );
}

#[test]
fn hexdump_of_nothing_is_one_newline() {
    let data = [9u8];
    let mut ctxt = FileContext::new(&data);
    let w = ctxt.hexdump(0, 0).unwrap();
    assert_eq!(String::from_utf8(w).unwrap(), "\n");
}

#[test]
fn hexdump_exactly_sixteen_bytes_is_one_line() {
    let data = [0xffu8; 16];
    let mut ctxt = FileContext::new(&data);
    let w = ctxt.hexdump(0, 16).unwrap();
    let text = String::from_utf8(w).unwrap();
    assert_eq!(text.matches('\t').count(), 1);
    assert_eq!(text, format!("0000000000000000\t{}\n", "ff ".repeat(16)));
}

#[test]
fn hexdump_past_end_fails() {
    let data = [1u8, 2];
    let mut ctxt = FileContext::new(&data);
    assert!(matches!(ctxt.hexdump(0, 3), Err(ErrorKind::ExtractionFailed)));
}

#[test]
fn string_helpers() {
    assert!(str_eq("abc", "abc"));
    assert!(!str_eq("abc", "abd"));
    assert!(!str_eq("abc", "ab"));
    assert!(contains_sub("/usr/lib/libz.dylib", "/usr/lib"));
    assert!(!contains_sub("/usr/local/lib", "/usr/lib"));
    assert!(contains_sub("anything", ""));
    assert_eq!(leaf_string("/a/b/Core.framework"), "Core.framework");
    assert_eq!(leaf_string("Core"), "Core");
    assert_eq!(leaf_string("dir/"), "");
}

#[test]
fn locate_returns_first_bundle_section() {
    let cmds = vec![
        LoadCmd::Other,
        LoadCmd::Segment { sections: vec![sec("__TEXT", "__text", 10, 1)] },
        LoadCmd::Segment {
            sections: vec![
                sec("__LLVM", "__asm", 20, 2),
                sec("__LLVM", "__bundle", 30, 3),
                sec("__LLVM", "__bundle", 40, 4),
            ],
        },
        LoadCmd::Segment { sections: vec![sec("__LLVM", "__bundle", 50, 5)] },
    ];
    let found = locate_bundle_section(&cmds).unwrap();
    assert_eq!(found.offset, 30);
    assert_eq!(found.size, 3);
}

#[test]
fn locate_without_bundle_is_none() {
    let cmds = vec![
        LoadCmd::Other,
        LoadCmd::Segment { sections: vec![sec("__TEXT", "__text", 10, 1)] },
        LoadCmd::Segment { sections: vec![sec("__LLVM", "__asm", 20, 2)] },
    ];
    assert!(locate_bundle_section(&cmds).is_none());
}
