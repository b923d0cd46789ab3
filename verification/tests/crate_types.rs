use chamber::crate_types::{
    crate_type_from_name, has_kind, parse_crate_types_from_list, split_at_commas, CrateType,
};

fn list(words: &[&str]) -> Vec<String> {
    words.iter().map(|word| word.to_string()).collect()
}

#[test]
fn every_kind_has_its_name() {
    assert_eq!(crate_type_from_name(&"bin".to_string()), Some(CrateType::Executable));
    assert_eq!(crate_type_from_name(&"lib".to_string()), Some(CrateType::Rlib));
    assert_eq!(crate_type_from_name(&"rlib".to_string()), Some(CrateType::Rlib));
    assert_eq!(crate_type_from_name(&"dylib".to_string()), Some(CrateType::Dylib));
    assert_eq!(crate_type_from_name(&"staticlib".to_string()), Some(CrateType::Staticlib));
}

#[test]
fn other_names_are_no_kind() {
    assert_eq!(crate_type_from_name(&"".to_string()), None);
    assert_eq!(crate_type_from_name(&"Bin".to_string()), None);
    assert_eq!(crate_type_from_name(&"bin ".to_string()), None);
    assert_eq!(crate_type_from_name(&"exe".to_string()), None);
}

#[test]
fn split_keeps_every_piece() {
    assert_eq!(split_at_commas(""), list(&[""]));
    assert_eq!(split_at_commas("bin"), list(&["bin"]));
    assert_eq!(split_at_commas("bin,lib"), list(&["bin", "lib"]));
    assert_eq!(split_at_commas(","), list(&["", ""]));
    assert_eq!(split_at_commas("a,,b,"), list(&["a", "", "b", ""]));
    assert_eq!(split_at_commas(",a b"), list(&["", "a b"]));
}

#[test]
fn split_counts_characters_not_bytes() {
    assert_eq!(split_at_commas("\u{e9}t\u{e9},\u{4e2d}\u{6587},x"), list(&["\u{e9}t\u{e9}", "\u{4e2d}\u{6587}", "x"]));
}

#[test]
fn empty_list_gives_no_kinds() {
    assert_eq!(parse_crate_types_from_list(&Vec::new()), Ok(Vec::new()));
}

#[test]
fn kinds_come_in_the_order_given() {
    assert_eq!(
        parse_crate_types_from_list(&list(&["staticlib,bin", "dylib", "rlib"])),
        Ok(vec![
            CrateType::Staticlib,
            CrateType::Executable,
            CrateType::Dylib,
            CrateType::Rlib
        ])
    );
}

#[test]
fn kind_named_twice_is_kept_once() {
    assert_eq!(
        parse_crate_types_from_list(&list(&["bin,lib,bin", "rlib", "dylib,bin"])),
        Ok(vec![CrateType::Executable, CrateType::Rlib, CrateType::Dylib])
    );
}

#[test]
fn first_unknown_token_is_quoted() {
    assert_eq!(
        parse_crate_types_from_list(&list(&["bin", "lib,nope,worse", "bad"])),
        Err("unknown crate type: `nope`".to_string())
    );
}

#[test]
fn empty_token_is_unknown() {
    assert_eq!(
        parse_crate_types_from_list(&list(&[""])),
        Err("unknown crate type: ``".to_string())
    );
    assert_eq!(
        parse_crate_types_from_list(&list(&["bin,"])),
        Err("unknown crate type: ``".to_string())
    );
}

#[test]
fn has_kind_finds_what_is_there() {
    let kinds = vec![CrateType::Dylib, CrateType::Rlib];
    assert!(has_kind(&kinds, CrateType::Rlib));
    assert!(has_kind(&kinds, CrateType::Dylib));
    assert!(!has_kind(&kinds, CrateType::Executable));
    assert!(!has_kind(&Vec::new(), CrateType::Executable));
}

#[test]
fn pieces_joined_give_the_string_back() {
    for text in ["", ",", "bin", "bin,lib", ",bin,,lib,", "a b,c\u{e9},"] {
        let pieces = split_at_commas(text);
        assert!(pieces.iter().all(|piece| !piece.contains(',')));
        assert_eq!(pieces.join(","), text);
    }
}
