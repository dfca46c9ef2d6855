use ra_ide_api::syntax::SyntaxKind;
use ra_ide_api::text::{FileId, FilePosition, FileRange, RangeInfo, TextRange};

#[test]
fn range_keeps_its_ends() {
    let range = TextRange::from_to(3, 8);
    assert_eq!(range.start(), 3);
    assert_eq!(range.end(), 8);
    assert_eq!(range, TextRange { start: 3, end: 8 });
}

#[test]
fn range_length() {
    assert_eq!(TextRange::from_to(3, 8).len(), 5);
    assert_eq!(TextRange::from_to(0, u32::MAX).len(), u32::MAX);
    assert_eq!(TextRange::from_to(4, 4).len(), 0);
    assert!(TextRange::from_to(4, 4).is_empty());
    assert!(!TextRange::from_to(4, 5).is_empty());
}

#[test]
fn inverted_range_holds_nothing() {
    let range = TextRange::from_to(8, 3);
    assert_eq!(range.len(), 0);
    assert!(range.is_empty());
    assert!(!range.contains_offset(5));
}

#[test]
fn range_contains_range() {
    let full = TextRange::from_to(10, 20);
    assert!(full.contains_range(full));
    assert!(full.contains_range(TextRange::from_to(10, 10)));
    assert!(full.contains_range(TextRange::from_to(12, 20)));
    assert!(!full.contains_range(TextRange::from_to(9, 12)));
    assert!(!full.contains_range(TextRange::from_to(12, 21)));
}

#[test]
fn range_contains_offset_at_both_ends() {
    let range = TextRange::from_to(10, 20);
    assert!(range.contains_offset(10));
    assert!(range.contains_offset(15));
    assert!(range.contains_offset(20));
    assert!(!range.contains_offset(9));
    assert!(!range.contains_offset(21));
}

#[test]
fn range_info_holds_both() {
    let info = RangeInfo::new(TextRange::from_to(1, 2), "info");
    assert_eq!(info.range, TextRange::from_to(1, 2));
    assert_eq!(info.info, "info");
}

#[test]
fn positions_and_ranges_compare_by_value() {
    assert_eq!(
        FilePosition { file_id: FileId(1), offset: 4 },
        FilePosition { file_id: FileId(1), offset: 4 }
    );
    assert_ne!(
        FilePosition { file_id: FileId(1), offset: 4 },
        FilePosition { file_id: FileId(2), offset: 4 }
    );
    assert_eq!(
        FileRange { file_id: FileId(1), range: TextRange::from_to(0, 1) },
        FileRange { file_id: FileId(1), range: TextRange::from_to(0, 1) }
    );
    assert_eq!(format!("{:?}", FileId(7)), "FileId(7)");
}

const KINDS: [(SyntaxKind, &str); 18] = [
    (SyntaxKind::StructDef, "STRUCT_DEF"),
    (SyntaxKind::EnumDef, "ENUM_DEF"),
    (SyntaxKind::EnumVariant, "ENUM_VARIANT"),
    (SyntaxKind::FnDef, "FN_DEF"),
    (SyntaxKind::TypeAliasDef, "TYPE_ALIAS_DEF"),
    (SyntaxKind::ConstDef, "CONST_DEF"),
    (SyntaxKind::StaticDef, "STATIC_DEF"),
    (SyntaxKind::TraitDef, "TRAIT_DEF"),
    (SyntaxKind::NamedFieldDef, "NAMED_FIELD_DEF"),
    (SyntaxKind::Module, "MODULE"),
    (SyntaxKind::MacroCall, "MACRO_CALL"),
    (SyntaxKind::SourceFile, "SOURCE_FILE"),
    (SyntaxKind::PosFieldDef, "POS_FIELD_DEF"),
    (SyntaxKind::BindPat, "BIND_PAT"),
    (SyntaxKind::SelfParam, "SELF_PARAM"),
    (SyntaxKind::Name, "NAME"),
    (SyntaxKind::NameRef, "NAME_REF"),
    (SyntaxKind::Other, "OTHER"),
];

#[test]
fn kinds_have_their_names() {
    for (kind, name) in KINDS {
        assert_eq!(kind.name(), name);
    }
}

#[test]
fn kinds_are_found_by_their_names() {
    for (kind, name) in KINDS {
        assert_eq!(SyntaxKind::from_name(&name.to_string()), kind);
    }
}

#[test]
fn kinds_are_found_by_the_names_of_the_tree() {
    assert_eq!(SyntaxKind::from_name(&"TYPE_DEF".to_string()), SyntaxKind::TypeAliasDef);
    assert_eq!(SyntaxKind::from_name(&"ROOT".to_string()), SyntaxKind::SourceFile);
    assert_eq!(SyntaxKind::from_name(&"POS_FIELD".to_string()), SyntaxKind::PosFieldDef);
}

#[test]
fn unknown_names_are_other() {
    assert_eq!(SyntaxKind::from_name(&"IMPL_ITEM".to_string()), SyntaxKind::Other);
    assert_eq!(SyntaxKind::from_name(&"struct_def".to_string()), SyntaxKind::Other);
    assert_eq!(SyntaxKind::from_name(&"".to_string()), SyntaxKind::Other);
    assert_eq!(SyntaxKind::from_name(&"STRUCT_DEF ".to_string()), SyntaxKind::Other);
}

#[test]
fn declaration_kinds_are_the_eleven_of_the_table() {
    let declarations: Vec<SyntaxKind> =
        KINDS.iter().map(|(kind, _)| *kind).filter(|kind| kind.is_declaration()).collect();
    assert_eq!(
        declarations,
        vec![
            SyntaxKind::StructDef,
            SyntaxKind::EnumDef,
            SyntaxKind::EnumVariant,
            SyntaxKind::FnDef,
            SyntaxKind::TypeAliasDef,
            SyntaxKind::ConstDef,
            SyntaxKind::StaticDef,
            SyntaxKind::TraitDef,
            SyntaxKind::NamedFieldDef,
            SyntaxKind::Module,
            SyntaxKind::MacroCall,
        ]
    );
}
