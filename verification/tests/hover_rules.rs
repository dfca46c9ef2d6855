use ra_ide_api::hover::{hover, type_of, HoverResult};
use ra_ide_api::semantics::{
    FieldSource, FileSymbol, InferredTypes, Module, ModuleDef, ModuleSource, NameRefKind, Semantics,
    Source,
};
use ra_ide_api::syntax::{AstNode, Cursor, Name, NameSite, SyntaxKind, SyntaxNode};
use ra_ide_api::text::{FileId, RangeInfo, TextRange};

const TABLE: [SyntaxKind; 11] = [
    SyntaxKind::StructDef,
    SyntaxKind::EnumDef,
    SyntaxKind::EnumVariant,
    SyntaxKind::FnDef,
    SyntaxKind::TypeAliasDef,
    SyntaxKind::ConstDef,
    SyntaxKind::StaticDef,
    SyntaxKind::TraitDef,
    SyntaxKind::NamedFieldDef,
    SyntaxKind::Module,
    SyntaxKind::MacroCall,
];

const BOTH: &str = "```rust\nsig\n```\n\nDocs.";

fn range(start: u32, end: u32) -> TextRange {
    TextRange::from_to(start, end)
}

fn described(kind: SyntaxKind, label: Option<&str>, docs: Option<&str>) -> AstNode {
    AstNode {
        kind,
        range: range(10, 40),
        name: Some(Name { text: "thing".to_string(), range: range(17, 22) }),
        docs: docs.map(|it| it.to_string()),
        label: label.map(|it| it.to_string()),
        has_semi: false,
    }
}

fn source(kind: SyntaxKind) -> Source {
    Source { file_id: FileId(3), ast: described(kind, Some("sig"), Some("Docs.")) }
}

fn silent(kind: SyntaxKind) -> Source {
    Source { file_id: FileId(3), ast: described(kind, None, None) }
}

fn symbol(description: Option<&str>, docs: Option<&str>) -> FileSymbol {
    FileSymbol {
        file_id: FileId(2),
        name: "candidate".to_string(),
        kind: SyntaxKind::FnDef,
        range: range(0, 30),
        name_range: None,
        container_name: None,
        docs: docs.map(|it| it.to_string()),
        description: description.map(|it| it.to_string()),
    }
}

fn node(kind: SyntaxKind, start: u32, end: u32, is_expr: bool, is_pat: bool) -> SyntaxNode {
    SyntaxNode { kind, range: range(start, end), is_expr, is_pat }
}

fn on_reference() -> Cursor {
    Cursor {
        name_ref: Some(node(SyntaxKind::NameRef, 60, 65, false, false)),
        name: None,
        expr_or_pat: Some(node(SyntaxKind::Other, 60, 70, true, false)),
    }
}

fn on_name(parent: Option<AstNode>) -> Cursor {
    Cursor {
        name_ref: None,
        name: Some(NameSite { name: node(SyntaxKind::Name, 17, 22, false, false), parent }),
        expr_or_pat: Some(node(SyntaxKind::BindPat, 17, 22, false, true)),
    }
}

fn no_semantics() -> Semantics {
    Semantics { name_ref_kind: None, symbols: Vec::new(), child_module: None, type_text: None }
}

fn classified(kind: NameRefKind) -> Semantics {
    Semantics { name_ref_kind: Some(kind), ..no_semantics() }
}

fn blocks(found: &RangeInfo<HoverResult>) -> Vec<String> {
    found.info.results().to_vec()
}

#[test]
fn hover_on_nothing_is_none() {
    let cursor = Cursor { name_ref: None, name: None, expr_or_pat: None };
    let semantics = Semantics {
        name_ref_kind: Some(NameRefKind::Method(source(SyntaxKind::FnDef))),
        symbols: vec![symbol(Some("fn a()"), None)],
        type_text: Some("u8".to_string()),
        ..no_semantics()
    };
    assert!(hover(&cursor, &semantics).is_none());
}

#[test]
fn hover_on_a_reference_shows_what_it_refers_to() {
    let kinds = vec![
        NameRefKind::Method(source(SyntaxKind::FnDef)),
        NameRefKind::FieldAccess(FieldSource::Named(source(SyntaxKind::NamedFieldDef))),
        NameRefKind::AssocItem(source(SyntaxKind::ConstDef)),
        NameRefKind::Def(ModuleDef::Item(source(SyntaxKind::StructDef))),
        NameRefKind::Def(ModuleDef::Module(Module {
            name: Some("m".to_string()),
            definition: ModuleSource::Module(source(SyntaxKind::Module)),
        })),
        NameRefKind::SelfType(Some(source(SyntaxKind::EnumDef))),
    ];
    for kind in kinds {
        let semantics = Semantics {
            symbols: vec![symbol(Some("fn unused()"), None)],
            type_text: Some("unused".to_string()),
            ..classified(kind)
        };
        let found = hover(&on_reference(), &semantics).unwrap();
        assert_eq!(found.range, range(60, 65));
        assert_eq!(blocks(&found), vec![BOTH.to_string()]);
        assert!(found.info.is_exact());
    }
}

#[test]
fn hover_on_a_macro_shows_its_docs_alone() {
    let found =
        hover(&on_reference(), &classified(NameRefKind::Macro(source(SyntaxKind::MacroCall))))
            .unwrap();
    assert_eq!(found.range, range(60, 65));
    assert_eq!(blocks(&found), vec!["Docs.".to_string()]);
}

#[test]
fn hover_without_a_block_asks_the_index() {
    let kinds = vec![
        None,
        Some(NameRefKind::GenericParam(1)),
        Some(NameRefKind::SelfType(None)),
        Some(NameRefKind::Def(ModuleDef::BuiltinType)),
        Some(NameRefKind::FieldAccess(FieldSource::Pos(source(SyntaxKind::PosFieldDef)))),
        Some(NameRefKind::Method(silent(SyntaxKind::FnDef))),
        Some(NameRefKind::Macro(silent(SyntaxKind::MacroCall))),
        Some(NameRefKind::Def(ModuleDef::Module(Module {
            name: Some("m".to_string()),
            definition: ModuleSource::SourceFile(source(SyntaxKind::SourceFile)),
        }))),
    ];
    for kind in kinds {
        let semantics = Semantics {
            name_ref_kind: kind,
            symbols: vec![symbol(Some("fn a()"), None), symbol(None, Some("Docs of b"))],
            type_text: Some("unused".to_string()),
            child_module: None,
        };
        let found = hover(&on_reference(), &semantics).unwrap();
        assert_eq!(found.range, range(60, 65));
        assert_eq!(blocks(&found), vec!["```rust\nfn a()\n```".to_string(), "Docs of b".to_string()]);
        assert!(found.info.is_exact());
    }
}

#[test]
fn hover_on_a_local_shows_its_type_and_asks_no_index() {
    let kinds = vec![
        NameRefKind::Pat(described(SyntaxKind::BindPat, None, None)),
        NameRefKind::SelfParam(range(5, 9)),
    ];
    for kind in kinds {
        let semantics = Semantics {
            symbols: vec![symbol(Some("fn shadowed()"), Some("Docs."))],
            type_text: Some("i32".to_string()),
            ..classified(kind)
        };
        let found = hover(&on_reference(), &semantics).unwrap();
        assert_eq!(found.range, range(60, 70));
        assert_eq!(blocks(&found), vec!["```rust\ni32\n```".to_string()]);
        assert!(found.info.is_exact());
    }
}

#[test]
fn hover_on_a_local_without_type_is_none() {
    let semantics = Semantics {
        symbols: vec![symbol(Some("fn shadowed()"), None)],
        ..classified(NameRefKind::SelfParam(range(5, 9)))
    };
    assert!(hover(&on_reference(), &semantics).is_none());
}

#[test]
fn hover_shows_one_block_for_each_candidate_that_has_one() {
    let candidates = vec![
        symbol(Some("fn a()"), Some("Docs of a")),
        symbol(None, None),
        symbol(Some("fn c()"), None),
        symbol(None, Some("Docs of d")),
    ];
    let all = Semantics { symbols: candidates.clone(), ..no_semantics() };
    let together = blocks(&hover(&on_reference(), &all).unwrap());
    assert_eq!(
        together,
        vec![
            "```rust\nfn a()\n```\n\nDocs of a".to_string(),
            "```rust\nfn c()\n```".to_string(),
            "Docs of d".to_string(),
        ]
    );

    let mut one_by_one = Vec::new();
    for candidate in candidates {
        let alone = Semantics { symbols: vec![candidate], ..no_semantics() };
        match hover(&on_reference(), &alone) {
            Some(found) => {
                assert_eq!(found.info.len(), 1);
                one_by_one.extend(blocks(&found));
            }
            None => {}
        }
    }
    assert_eq!(together, one_by_one);
}

#[test]
fn hover_falls_back_to_the_type_where_the_index_is_silent() {
    let semantics = Semantics {
        symbols: vec![symbol(None, None)],
        type_text: Some("u8".to_string()),
        ..no_semantics()
    };
    let found = hover(&on_reference(), &semantics).unwrap();
    assert_eq!(found.range, range(60, 70));
    assert_eq!(blocks(&found), vec!["```rust\nu8\n```".to_string()]);
}

#[test]
fn hover_on_a_reference_ignores_the_declared_name() {
    let cursor = Cursor {
        name: on_name(Some(described(SyntaxKind::StructDef, Some("sig"), None))).name,
        ..on_reference()
    };
    assert!(hover(&cursor, &Semantics { type_text: None, ..no_semantics() }).is_none());
}

#[test]
fn hover_on_a_declared_name_shows_the_declaration() {
    for kind in TABLE {
        let cursor = on_name(Some(described(kind, Some("sig"), Some("Docs."))));
        let found = hover(&cursor, &Semantics { type_text: Some("u8".to_string()), ..no_semantics() })
            .unwrap();
        assert_eq!(found.range, range(17, 22));
        let expected = if kind == SyntaxKind::MacroCall { "Docs." } else { BOTH };
        assert_eq!(blocks(&found), vec![expected.to_string()]);
        assert!(found.info.is_exact());
    }
}

#[test]
fn hover_on_a_declared_name_ignores_class_and_index() {
    let cursor = on_name(Some(described(SyntaxKind::FnDef, Some("fn here()"), None)));
    let semantics = Semantics {
        name_ref_kind: Some(NameRefKind::Method(source(SyntaxKind::FnDef))),
        symbols: vec![symbol(Some("fn elsewhere()"), None)],
        ..no_semantics()
    };
    let found = hover(&cursor, &semantics).unwrap();
    assert_eq!(blocks(&found), vec!["```rust\nfn here()\n```".to_string()]);
}

#[test]
fn hover_on_a_name_of_no_category_shows_the_type() {
    for parent in [Some(described(SyntaxKind::BindPat, Some("sig"), Some("Docs."))), None] {
        let found = hover(&on_name(parent), &Semantics { type_text: Some("u8".to_string()), ..no_semantics() })
            .unwrap();
        assert_eq!(found.range, range(17, 22));
        assert_eq!(blocks(&found), vec!["```rust\nu8\n```".to_string()]);
    }
}

#[test]
fn hover_on_a_silent_declaration_shows_the_type() {
    let cursor = on_name(Some(described(SyntaxKind::MacroCall, Some("ignored"), None)));
    let found =
        hover(&cursor, &Semantics { type_text: Some("u8".to_string()), ..no_semantics() }).unwrap();
    assert_eq!(blocks(&found), vec!["```rust\nu8\n```".to_string()]);
    assert!(hover(&cursor, &no_semantics()).is_none());
}

#[test]
fn hover_on_an_expression_shows_its_type() {
    let cursor = Cursor {
        name_ref: None,
        name: None,
        expr_or_pat: Some(node(SyntaxKind::Other, 95, 100, true, false)),
    };
    let found =
        hover(&cursor, &Semantics { type_text: Some("u32".to_string()), ..no_semantics() }).unwrap();
    assert_eq!(found.range, range(95, 100));
    assert_eq!(found.info.len(), 1);
    assert_eq!(found.info.first(), Some("```rust\nu32\n```"));
    assert!(found.info.is_exact());
    assert_eq!(found.info.to_markup(), "```rust\nu32\n```");
    assert!(hover(&cursor, &no_semantics()).is_none());
}

fn chain(nodes: &[(u32, u32, bool, bool)]) -> Vec<SyntaxNode> {
    nodes.iter().map(|&(start, end, e, p)| node(SyntaxKind::Other, start, end, e, p)).collect()
}

fn types(as_expr: Option<&str>, as_pat: Option<&str>) -> InferredTypes {
    InferredTypes {
        as_expr: as_expr.map(|it| it.to_string()),
        as_pat: as_pat.map(|it| it.to_string()),
    }
}

#[test]
fn type_of_an_expression() {
    let ancestors = chain(&[(4, 7, false, false), (4, 7, true, false), (0, 9, true, false)]);
    assert_eq!(type_of(&ancestors, &types(Some("u32"), Some("p"))), Some("u32".to_string()));
}

#[test]
fn type_of_a_pattern() {
    let ancestors = chain(&[(4, 7, false, false), (4, 7, false, true)]);
    assert_eq!(type_of(&ancestors, &types(Some("e"), Some("i32"))), Some("i32".to_string()));
}

#[test]
fn type_of_a_node_that_is_both_prefers_the_expression() {
    let ancestors = chain(&[(4, 7, true, true)]);
    assert_eq!(type_of(&ancestors, &types(Some("e"), Some("p"))), Some("e".to_string()));
    assert_eq!(type_of(&ancestors, &types(None, Some("p"))), Some("p".to_string()));
}

#[test]
fn type_of_without_a_known_type_is_none() {
    assert_eq!(type_of(&chain(&[(4, 7, true, false)]), &types(None, Some("p"))), None);
    assert_eq!(type_of(&chain(&[(4, 7, false, true)]), &types(Some("e"), None)), None);
}

#[test]
fn type_of_stops_where_the_range_grows() {
    let ancestors = chain(&[(4, 7, false, false), (4, 7, false, false), (2, 7, true, false)]);
    assert_eq!(type_of(&ancestors, &types(Some("e"), Some("p"))), None);
    assert_eq!(type_of(&chain(&[]), &types(Some("e"), Some("p"))), None);
}

#[test]
fn type_of_a_selection_within_is_that_of_the_whole() {
    let ancestors = chain(&[
        (4, 9, false, false),
        (4, 9, false, false),
        (4, 9, true, false),
        (4, 9, true, false),
        (0, 20, true, false),
    ]);
    let known = types(Some("usize"), None);
    let whole = type_of(&ancestors, &known);
    assert_eq!(whole, Some("usize".to_string()));
    for from in 0..3 {
        assert_eq!(type_of(&ancestors[from..].to_vec(), &known), whole);
    }
}
