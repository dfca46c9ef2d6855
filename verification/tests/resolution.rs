use ra_ide_api::goto_definition::{
    goto_definition, name_definition, named_target, reference_definition, ReferenceResult,
};
use ra_ide_api::navigation_target::NavigationTarget;
use ra_ide_api::semantics::{
    classify_name_ref, FieldSource, FileSymbol, Module, ModuleDef, ModuleSource, NameRefKind,
    PathResolution, Resolutions, Semantics, Source,
};
use ra_ide_api::syntax::{AstNode, Cursor, Name, NameSite, SyntaxKind, SyntaxNode};
use ra_ide_api::text::{FileId, FilePosition, TextRange};

const TABLE: [SyntaxKind; 11] = [
    SyntaxKind::StructDef,
    SyntaxKind::EnumDef,
    SyntaxKind::EnumVariant,
    SyntaxKind::FnDef,
    SyntaxKind::TypeAliasDef,
    SyntaxKind::ConstDef,
    SyntaxKind::StaticDef,
    SyntaxKind::TraitDef,
    SyntaxKind::NamedFieldDef,
    SyntaxKind::Module,
    SyntaxKind::MacroCall,
];

fn range(start: u32, end: u32) -> TextRange {
    TextRange::from_to(start, end)
}

/// A declaration of `kind` at `[10; 40)` that declares `thing` at `[17; 22)`.
fn declaration(kind: SyntaxKind) -> AstNode {
    AstNode {
        kind,
        range: range(10, 40),
        name: Some(Name { text: "thing".to_string(), range: range(17, 22) }),
        docs: Some("Docs of thing".to_string()),
        label: Some("label of thing".to_string()),
        has_semi: false,
    }
}

fn nameless(kind: SyntaxKind) -> AstNode {
    AstNode { name: None, docs: None, label: None, ..declaration(kind) }
}

fn source(file: u32, kind: SyntaxKind) -> Source {
    Source { file_id: FileId(file), ast: declaration(kind) }
}

fn symbol(file: u32, name: &str, start: u32) -> FileSymbol {
    FileSymbol {
        file_id: FileId(file),
        name: name.to_string(),
        kind: SyntaxKind::FnDef,
        range: range(start, start + 20),
        name_range: Some(range(start + 3, start + 6)),
        container_name: Some("container".to_string()),
        docs: Some(format!("docs of {}", name)),
        description: Some(format!("fn {}()", name)),
    }
}

fn name_node(start: u32, end: u32) -> SyntaxNode {
    SyntaxNode { kind: SyntaxKind::Name, range: range(start, end), is_expr: false, is_pat: false }
}

fn name_ref_node(start: u32, end: u32) -> SyntaxNode {
    SyntaxNode { kind: SyntaxKind::NameRef, range: range(start, end), is_expr: false, is_pat: false }
}

fn site(parent: Option<AstNode>) -> NameSite {
    NameSite { name: name_node(17, 22), parent }
}

fn no_semantics() -> Semantics {
    Semantics { name_ref_kind: None, symbols: Vec::new(), child_module: None, type_text: None }
}

fn position() -> FilePosition {
    FilePosition { file_id: FileId(1), offset: 18 }
}

fn exact(res: ReferenceResult) -> NavigationTarget {
    match res {
        ReferenceResult::Exact(target) => target,
        ReferenceResult::Approximate(targets) => panic!("{} candidates", targets.len()),
    }
}

fn approximate(res: ReferenceResult) -> Vec<NavigationTarget> {
    match res {
        ReferenceResult::Exact(target) => panic!("exact: {:?}", target),
        ReferenceResult::Approximate(targets) => targets,
    }
}

/// What a target holds, in the order of its fields.
fn fields(
    nav: &NavigationTarget,
) -> (u32, String, SyntaxKind, TextRange, Option<TextRange>, Option<String>, Option<String>, Option<String>)
{
    (
        nav.file_id().0,
        nav.name().to_string(),
        nav.kind(),
        nav.full_range(),
        nav.focus_range(),
        nav.container_name().map(|it| it.to_string()),
        nav.description().map(|it| it.to_string()),
        nav.docs().map(|it| it.to_string()),
    )
}

fn lies_well(nav: &NavigationTarget) -> bool {
    match nav.focus_range() {
        Some(focus) => nav.full_range().contains_range(focus),
        None => true,
    }
}

#[test]
fn to_vec_of_exact_is_the_one_target() {
    let target = NavigationTarget::from_def_source(&source(3, SyntaxKind::FnDef));
    let expected = fields(&target);
    let targets = ReferenceResult::Exact(target).to_vec();
    assert_eq!(targets.len(), 1);
    assert_eq!(fields(&targets[0]), expected);
}

#[test]
fn to_vec_of_approximate_keeps_order_and_duplicates() {
    let a = symbol(1, "a", 0);
    let b = symbol(2, "b", 100);
    let candidates = vec![
        NavigationTarget::from_symbol(&a),
        NavigationTarget::from_symbol(&b),
        NavigationTarget::from_symbol(&a),
    ];
    let targets = ReferenceResult::Approximate(candidates).to_vec();
    let names: Vec<&str> = targets.iter().map(|it| it.name()).collect();
    assert_eq!(names, vec!["a", "b", "a"]);
    assert!(ReferenceResult::Approximate(Vec::new()).to_vec().is_empty());
}

#[test]
fn named_target_spans_the_declaration_and_focuses_on_the_name() {
    for kind in TABLE {
        let node = declaration(kind);
        let nav = named_target(FileId(4), &node).unwrap();
        let label = if kind == SyntaxKind::MacroCall { None } else { Some("label of thing".to_string()) };
        assert_eq!(
            fields(&nav),
            (
                4,
                "thing".to_string(),
                kind,
                range(10, 40),
                Some(range(17, 22)),
                None,
                label,
                Some("Docs of thing".to_string())
            )
        );
        assert_eq!(nav.range(), range(17, 22));
        assert!(lies_well(&nav));
    }
}

#[test]
fn named_target_knows_no_other_category() {
    for kind in [
        SyntaxKind::SourceFile,
        SyntaxKind::PosFieldDef,
        SyntaxKind::BindPat,
        SyntaxKind::SelfParam,
        SyntaxKind::Name,
        SyntaxKind::NameRef,
        SyntaxKind::Other,
    ] {
        assert!(named_target(FileId(1), &declaration(kind)).is_none());
    }
}

#[test]
fn named_target_without_a_name_has_no_focus() {
    let nav = named_target(FileId(1), &nameless(SyntaxKind::MacroCall)).unwrap();
    assert_eq!(
        fields(&nav),
        (1, String::new(), SyntaxKind::MacroCall, range(10, 40), None, None, None, None)
    );
    assert_eq!(nav.range(), range(10, 40));
}

#[test]
fn name_definition_without_a_parent_is_none() {
    assert!(name_definition(FileId(1), &site(None), &None).is_none());
}

#[test]
fn name_definition_of_an_unknown_category_is_none() {
    assert!(name_definition(FileId(1), &site(Some(declaration(SyntaxKind::BindPat))), &None).is_none());
    assert!(name_definition(FileId(1), &site(Some(declaration(SyntaxKind::Other))), &None).is_none());
}

#[test]
fn name_definition_gives_exactly_the_declaration() {
    for kind in TABLE {
        let navs = name_definition(FileId(2), &site(Some(declaration(kind))), &None).unwrap();
        assert_eq!(navs.len(), 1);
        assert_eq!(navs[0].file_id(), FileId(2));
        assert_eq!(navs[0].kind(), kind);
        assert_eq!(navs[0].full_range(), range(10, 40));
        assert_eq!(navs[0].focus_range(), Some(range(17, 22)));
    }
}

fn child_module() -> Module {
    Module {
        name: Some("child".to_string()),
        definition: ModuleSource::SourceFile(Source {
            file_id: FileId(9),
            ast: AstNode {
                kind: SyntaxKind::SourceFile,
                range: range(0, 300),
                name: None,
                docs: Some("ignored".to_string()),
                label: Some("ignored".to_string()),
                has_semi: false,
            },
        }),
    }
}

#[test]
fn module_declared_by_reference_leads_to_its_file() {
    let decl = AstNode { has_semi: true, ..declaration(SyntaxKind::Module) };
    let navs = name_definition(FileId(1), &site(Some(decl)), &Some(child_module())).unwrap();
    assert_eq!(navs.len(), 1);
    assert_eq!(
        fields(&navs[0]),
        (9, "child".to_string(), SyntaxKind::SourceFile, range(0, 300), None, None, None, None)
    );
}

#[test]
fn module_declared_by_reference_without_target_leads_to_the_declaration() {
    let decl = AstNode { has_semi: true, ..declaration(SyntaxKind::Module) };
    let navs = name_definition(FileId(1), &site(Some(decl)), &None).unwrap();
    assert_eq!(navs.len(), 1);
    assert_eq!(navs[0].kind(), SyntaxKind::Module);
    assert_eq!(navs[0].file_id(), FileId(1));
    assert_eq!(navs[0].focus_range(), Some(range(17, 22)));
}

#[test]
fn module_with_a_body_leads_to_the_declaration() {
    let navs =
        name_definition(FileId(1), &site(Some(declaration(SyntaxKind::Module))), &Some(child_module()))
            .unwrap();
    assert_eq!(navs[0].kind(), SyntaxKind::Module);
    assert_eq!(navs[0].full_range(), range(10, 40));
}

#[test]
fn semicolon_counts_for_modules_only() {
    let decl = AstNode { has_semi: true, ..declaration(SyntaxKind::StructDef) };
    let navs = name_definition(FileId(1), &site(Some(decl)), &Some(child_module())).unwrap();
    assert_eq!(navs[0].kind(), SyntaxKind::StructDef);
}

fn resolve(kind: NameRefKind) -> ReferenceResult {
    let symbols = vec![symbol(5, "other", 0)];
    reference_definition(FileId(1), &Some(kind), &symbols)
}

#[test]
fn method_leads_to_the_function() {
    let nav = exact(resolve(NameRefKind::Method(source(3, SyntaxKind::FnDef))));
    assert_eq!(
        fields(&nav),
        (
            3,
            "thing".to_string(),
            SyntaxKind::FnDef,
            range(10, 40),
            Some(range(17, 22)),
            None,
            Some("label of thing".to_string()),
            Some("Docs of thing".to_string())
        )
    );
}

#[test]
fn macro_leads_to_its_definition_without_signature() {
    let nav = exact(resolve(NameRefKind::Macro(source(3, SyntaxKind::MacroCall))));
    assert_eq!(
        fields(&nav),
        (
            3,
            "thing".to_string(),
            SyntaxKind::MacroCall,
            range(10, 40),
            Some(range(17, 22)),
            None,
            None,
            Some("Docs of thing".to_string())
        )
    );
}

#[test]
fn named_field_leads_to_its_declaration() {
    let field = FieldSource::Named(source(2, SyntaxKind::NamedFieldDef));
    let nav = exact(resolve(NameRefKind::FieldAccess(field)));
    assert_eq!(nav.kind(), SyntaxKind::NamedFieldDef);
    assert_eq!(nav.name(), "thing");
    assert_eq!(nav.focus_range(), Some(range(17, 22)));
    assert_eq!(nav.description(), Some("label of thing"));
}

#[test]
fn field_of_a_tuple_struct_has_neither_name_nor_focus() {
    let field = FieldSource::Pos(source(2, SyntaxKind::PosFieldDef));
    let nav = exact(resolve(NameRefKind::FieldAccess(field)));
    assert_eq!(
        fields(&nav),
        (2, String::new(), SyntaxKind::PosFieldDef, range(10, 40), None, None, None, None)
    );
}

#[test]
fn associated_item_leads_to_its_declaration() {
    let nav = exact(resolve(NameRefKind::AssocItem(source(6, SyntaxKind::ConstDef))));
    assert_eq!(nav.file_id(), FileId(6));
    assert_eq!(nav.kind(), SyntaxKind::ConstDef);
    assert_eq!(nav.full_range(), range(10, 40));
    assert_eq!(nav.focus_range(), Some(range(17, 22)));
}

#[test]
fn definition_leads_to_its_source() {
    let nav = exact(resolve(NameRefKind::Def(ModuleDef::Item(source(7, SyntaxKind::TraitDef)))));
    assert_eq!(nav.file_id(), FileId(7));
    assert_eq!(nav.kind(), SyntaxKind::TraitDef);
}

#[test]
fn module_leads_to_where_it_is_defined() {
    let nav = exact(resolve(NameRefKind::Def(ModuleDef::Module(child_module()))));
    assert_eq!(
        fields(&nav),
        (9, "child".to_string(), SyntaxKind::SourceFile, range(0, 300), None, None, None, None)
    );

    let inline = Module {
        name: None,
        definition: ModuleSource::Module(source(2, SyntaxKind::Module)),
    };
    let nav = exact(resolve(NameRefKind::Def(ModuleDef::Module(inline))));
    assert_eq!(
        fields(&nav),
        (
            2,
            String::new(),
            SyntaxKind::Module,
            range(10, 40),
            Some(range(17, 22)),
            None,
            Some("label of thing".to_string()),
            Some("Docs of thing".to_string())
        )
    );
}

#[test]
fn builtin_type_leads_nowhere_and_asks_no_index() {
    assert!(approximate(resolve(NameRefKind::Def(ModuleDef::BuiltinType))).is_empty());
}

#[test]
fn self_type_leads_to_the_type_it_stands_for() {
    let nav = exact(resolve(NameRefKind::SelfType(Some(source(1, SyntaxKind::EnumDef)))));
    assert_eq!(nav.kind(), SyntaxKind::EnumDef);
    assert_eq!(nav.focus_range(), Some(range(17, 22)));
}

#[test]
fn self_type_of_another_type_leads_nowhere_and_asks_no_index() {
    assert!(approximate(resolve(NameRefKind::SelfType(None))).is_empty());
}

#[test]
fn generic_parameter_leads_nowhere_and_asks_no_index() {
    assert!(approximate(resolve(NameRefKind::GenericParam(0))).is_empty());
}

#[test]
fn local_variable_leads_to_its_binding_in_the_cursors_file() {
    let nav = exact(resolve(NameRefKind::Pat(declaration(SyntaxKind::BindPat))));
    assert_eq!(
        fields(&nav),
        (
            1,
            "thing".to_string(),
            SyntaxKind::BindPat,
            range(10, 40),
            Some(range(17, 22)),
            None,
            None,
            None
        )
    );
}

#[test]
fn self_leads_to_the_parameter() {
    let nav = exact(resolve(NameRefKind::SelfParam(range(33, 38))));
    assert_eq!(
        fields(&nav),
        (1, "self".to_string(), SyntaxKind::Name, range(33, 38), None, None, None, None)
    );
    assert_eq!(nav.range(), range(33, 38));
}

#[test]
fn unclassified_reference_is_looked_up_in_the_index() {
    let symbols = vec![symbol(5, "zed", 50), symbol(2, "abc", 0), symbol(5, "zed", 50)];
    let navs = approximate(reference_definition(FileId(1), &None, &symbols));
    assert_eq!(navs.len(), 3);
    assert_eq!(
        fields(&navs[0]),
        (
            5,
            "zed".to_string(),
            SyntaxKind::FnDef,
            range(50, 70),
            Some(range(53, 56)),
            Some("container".to_string()),
            Some("fn zed()".to_string()),
            Some("docs of zed".to_string())
        )
    );
    assert_eq!(navs[1].name(), "abc");
    assert_eq!(navs[1].file_id(), FileId(2));
    assert_eq!(fields(&navs[2]), fields(&navs[0]));
}

#[test]
fn unclassified_reference_without_symbols_finds_nothing() {
    assert!(approximate(reference_definition(FileId(1), &None, &Vec::new())).is_empty());
}

#[test]
fn goto_definition_on_no_name_is_none() {
    let cursor = Cursor {
        name_ref: None,
        name: None,
        expr_or_pat: Some(SyntaxNode {
            kind: SyntaxKind::Other,
            range: range(0, 9),
            is_expr: true,
            is_pat: false,
        }),
    };
    let semantics = Semantics {
        name_ref_kind: Some(NameRefKind::Method(source(1, SyntaxKind::FnDef))),
        symbols: vec![symbol(1, "a", 0)],
        ..no_semantics()
    };
    assert!(goto_definition(position(), &cursor, &semantics).is_none());
}

#[test]
fn goto_definition_on_a_reference_reports_the_reference_and_its_target() {
    let cursor = Cursor { name_ref: Some(name_ref_node(60, 65)), name: None, expr_or_pat: None };
    let semantics = Semantics {
        name_ref_kind: Some(NameRefKind::Method(source(3, SyntaxKind::FnDef))),
        ..no_semantics()
    };
    let found = goto_definition(position(), &cursor, &semantics).unwrap();
    assert_eq!(found.range, range(60, 65));
    assert_eq!(found.info.len(), 1);
    assert_eq!(found.info[0].file_id(), FileId(3));
}

#[test]
fn goto_definition_on_an_unresolved_reference_is_some_with_no_target() {
    let cursor = Cursor { name_ref: Some(name_ref_node(60, 65)), name: None, expr_or_pat: None };
    let found = goto_definition(position(), &cursor, &no_semantics()).unwrap();
    assert_eq!(found.range, range(60, 65));
    assert!(found.info.is_empty());
}

#[test]
fn goto_definition_prefers_the_reference_to_the_name() {
    let cursor = Cursor {
        name_ref: Some(name_ref_node(60, 65)),
        name: Some(site(Some(declaration(SyntaxKind::StructDef)))),
        expr_or_pat: None,
    };
    let semantics = Semantics { symbols: vec![symbol(4, "a", 0), symbol(5, "b", 0)], ..no_semantics() };
    let found = goto_definition(position(), &cursor, &semantics).unwrap();
    assert_eq!(found.range, range(60, 65));
    assert_eq!(found.info.len(), 2);
    assert_eq!(found.info[1].file_id(), FileId(5));
}

#[test]
fn goto_definition_on_a_declared_name_of_no_category_is_none() {
    let cursor = Cursor {
        name_ref: None,
        name: Some(site(Some(declaration(SyntaxKind::BindPat)))),
        expr_or_pat: None,
    };
    assert!(goto_definition(position(), &cursor, &no_semantics()).is_none());
}

#[test]
fn declared_name_leads_to_exactly_its_declaration() {
    for kind in TABLE {
        let cursor =
            Cursor { name_ref: None, name: Some(site(Some(declaration(kind)))), expr_or_pat: None };
        let found = goto_definition(position(), &cursor, &no_semantics()).unwrap();
        assert_eq!(found.range, range(17, 22));
        assert_eq!(found.info.len(), 1);
        let nav = &found.info[0];
        assert_eq!(nav.file_id(), FileId(1));
        assert_eq!(nav.kind(), kind);
        assert_eq!(nav.name(), "thing");
        assert_eq!(nav.full_range(), range(10, 40));
        assert_eq!(nav.focus_range(), Some(range(17, 22)));
    }
}

#[test]
fn usage_and_declaration_lead_to_the_same_place() {
    for kind in TABLE {
        let src = source(3, kind);
        let usages = vec![
            NameRefKind::Method(src.clone()),
            NameRefKind::Macro(src.clone()),
            NameRefKind::FieldAccess(FieldSource::Named(src.clone())),
            NameRefKind::AssocItem(src.clone()),
            NameRefKind::Def(ModuleDef::Item(src.clone())),
            NameRefKind::SelfType(Some(src.clone())),
        ];
        let module = Module {
            name: Some("thing".to_string()),
            definition: ModuleSource::Module(source(3, SyntaxKind::Module)),
        };
        let site_of_module = site(Some(source(3, SyntaxKind::Module).ast));
        let declared_module = name_definition(FileId(3), &site_of_module, &None).unwrap();
        let used_module = exact(reference_definition(
            FileId(1),
            &Some(NameRefKind::Def(ModuleDef::Module(module))),
            &Vec::new(),
        ));
        assert_eq!(fields(&used_module), fields(&declared_module[0]));
        let declared = name_definition(FileId(3), &site(Some(src.ast.clone())), &None).unwrap();
        assert_eq!(declared.len(), 1);
        for usage in usages {
            let used = exact(reference_definition(FileId(1), &Some(usage), &Vec::new()));
            assert_eq!(used.file_id(), declared[0].file_id());
            assert_eq!(used.name(), declared[0].name());
            assert_eq!(used.kind(), declared[0].kind());
            assert_eq!(used.full_range(), declared[0].full_range());
            assert_eq!(used.focus_range(), declared[0].focus_range());
        }
    }
}

#[test]
fn targets_lie_well() {
    for kind in TABLE {
        assert!(lies_well(&exact(resolve(NameRefKind::Method(source(3, kind))))));
    }
    assert!(lies_well(&exact(resolve(NameRefKind::SelfParam(range(5, 9))))));
    assert!(lies_well(&exact(resolve(NameRefKind::Def(ModuleDef::Module(child_module()))))));
    for nav in approximate(reference_definition(FileId(1), &None, &vec![symbol(1, "a", 7)])) {
        assert!(lies_well(&nav));
    }
}

fn answers() -> Resolutions {
    Resolutions {
        method_call: Some(source(1, SyntaxKind::FnDef)),
        macro_call: Some(source(2, SyntaxKind::MacroCall)),
        field_expr: Some(FieldSource::Named(source(3, SyntaxKind::NamedFieldDef))),
        named_field: Some(FieldSource::Pos(source(4, SyntaxKind::PosFieldDef))),
        path: Some(PathResolution::GenericParam(5)),
    }
}

#[test]
fn classification_takes_the_first_answer() {
    let all = answers();
    assert_eq!(
        classify_name_ref(all.clone()),
        Some(NameRefKind::Method(source(1, SyntaxKind::FnDef)))
    );
    let all = Resolutions { method_call: None, ..all };
    assert_eq!(
        classify_name_ref(all.clone()),
        Some(NameRefKind::Macro(source(2, SyntaxKind::MacroCall)))
    );
    let all = Resolutions { macro_call: None, ..all };
    assert_eq!(
        classify_name_ref(all.clone()),
        Some(NameRefKind::FieldAccess(FieldSource::Named(source(3, SyntaxKind::NamedFieldDef))))
    );
    let all = Resolutions { field_expr: None, ..all };
    assert_eq!(
        classify_name_ref(all.clone()),
        Some(NameRefKind::FieldAccess(FieldSource::Pos(source(4, SyntaxKind::PosFieldDef))))
    );
    let all = Resolutions { named_field: None, ..all };
    assert_eq!(classify_name_ref(all.clone()), Some(NameRefKind::GenericParam(5)));
    let all = Resolutions { path: None, ..all };
    assert_eq!(classify_name_ref(all), None);
}

#[test]
fn classification_of_a_path_follows_what_it_resolves_to() {
    let classify = |resolution: PathResolution| {
        classify_name_ref(Resolutions {
            method_call: None,
            macro_call: None,
            field_expr: None,
            named_field: None,
            path: Some(resolution),
        })
    };
    let item = ModuleDef::Item(source(1, SyntaxKind::StructDef));
    assert_eq!(classify(PathResolution::Def(item.clone())), Some(NameRefKind::Def(item)));
    assert_eq!(
        classify(PathResolution::Def(ModuleDef::BuiltinType)),
        Some(NameRefKind::Def(ModuleDef::BuiltinType))
    );
    assert_eq!(
        classify(PathResolution::LocalBinding(declaration(SyntaxKind::BindPat))),
        Some(NameRefKind::Pat(declaration(SyntaxKind::BindPat)))
    );
    assert_eq!(
        classify(PathResolution::SelfParam(range(3, 7))),
        Some(NameRefKind::SelfParam(range(3, 7)))
    );
    assert_eq!(classify(PathResolution::GenericParam(2)), Some(NameRefKind::GenericParam(2)));
    assert_eq!(
        classify(PathResolution::Macro(source(2, SyntaxKind::MacroCall))),
        Some(NameRefKind::Macro(source(2, SyntaxKind::MacroCall)))
    );
    assert_eq!(classify(PathResolution::SelfType(None)), Some(NameRefKind::SelfType(None)));
    assert_eq!(
        classify(PathResolution::SelfType(Some(source(1, SyntaxKind::EnumDef)))),
        Some(NameRefKind::SelfType(Some(source(1, SyntaxKind::EnumDef))))
    );
    assert_eq!(
        classify(PathResolution::AssocItem(source(1, SyntaxKind::ConstDef))),
        Some(NameRefKind::AssocItem(source(1, SyntaxKind::ConstDef)))
    );
}
