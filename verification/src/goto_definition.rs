//! Where the thing under the cursor is defined.
use crate::navigation_target::{
    def_target, field_target, module_target, named_target_of, self_param_target, source_target,
    symbol_target, symbol_targets, targets_view, NavigationTarget, NavigationTargetView,
};
use crate::semantics::{
    FieldSource, FileSymbol, Module, ModuleDef, ModuleSource, NameRefKind, Semantics, Source,
};
use crate::syntax::{clone_text, AstNode, Cursor, Name, NameSite, SyntaxKind};
use crate::text::{FileId, FilePosition, RangeInfo, TextRange};
use vstd::prelude::*;

verus! {

/// The definition that a name reference leads to: the one that the semantic
/// model found, or the candidates that the symbol index offers.
#[derive(Debug)]
pub enum ReferenceResult {
    Exact(NavigationTarget),
    Approximate(Vec<NavigationTarget>),
}

pub enum ReferenceResultView {
    Exact(NavigationTargetView),
    Approximate(Seq<NavigationTargetView>),
}

impl View for ReferenceResult {
    type V = ReferenceResultView;

    open spec fn view(&self) -> ReferenceResultView {
        match *self {
            ReferenceResult::Exact(target) => ReferenceResultView::Exact(target@),
            ReferenceResult::Approximate(targets) => ReferenceResultView::Approximate(
                targets_view(targets@),
            ),
        }
    }
}

impl ReferenceResultView {
    /// The targets of a result: the exact one alone, or the candidates in
    /// their order.
    pub open spec fn targets(self) -> Seq<NavigationTargetView> {
        match self {
            ReferenceResultView::Exact(target) => seq![target],
            ReferenceResultView::Approximate(targets) => targets,
        }
    }
}

impl ReferenceResult {
    pub fn to_vec(self) -> (targets: Vec<NavigationTarget>)
        ensures
            targets_view(targets@) == self@.targets(),
    {
        match self {
            ReferenceResult::Exact(target) => {
                let targets = vec![target];
                assert(targets_view(targets@) =~= seq![target@]);
                targets
            },
            ReferenceResult::Approximate(targets) => targets,
        }
    }
}

/// The target that a classified name reference leads to.
///
/// A macro leads to its definition, a field to its declaration, an item of
/// an implementation block and a method to theirs, a definition at module
/// level to its source, `Self` to the struct, union or enum that it stands
/// for, a local variable to the pattern that binds it, `self` to the
/// parameter. There is none for a built-in type, for a `Self` that stands for
/// another type, and for a generic parameter.
pub open spec fn classified_target(file_id: FileId, kind: NameRefKind) -> Option<
    NavigationTargetView,
> {
    match kind {
        NameRefKind::Macro(src) => Some(
            named_target_of(src.file_id, src.ast@, src.ast@.docs, None),
        ),
        NameRefKind::FieldAccess(field) => Some(field_target(field)),
        NameRefKind::AssocItem(src) => Some(source_target(src)),
        NameRefKind::Method(src) => Some(source_target(src)),
        NameRefKind::Def(def) => def_target(def),
        NameRefKind::SelfType(Some(src)) => Some(source_target(src)),
        NameRefKind::SelfType(None) => None,
        NameRefKind::Pat(pat) => Some(named_target_of(file_id, pat@, None, None)),
        NameRefKind::SelfParam(range) => Some(self_param_target(file_id, range)),
        NameRefKind::GenericParam(_) => None,
    }
}

/// The definition of a name reference in `file_id`.
///
/// A reference that the semantic model classified leads to its target
/// exactly; where its class has no target, to nothing. Only a reference
/// without a class is looked up in the symbol index, whose candidates are
/// kept in their order.
pub open spec fn reference_definition_of(
    file_id: FileId,
    kind: Option<NameRefKind>,
    symbols: Seq<FileSymbol>,
) -> ReferenceResultView {
    match kind {
        Some(kind) => match classified_target(file_id, kind) {
            Some(target) => ReferenceResultView::Exact(target),
            None => ReferenceResultView::Approximate(Seq::empty()),
        },
        None => ReferenceResultView::Approximate(symbol_targets(symbols)),
    }
}

/// The target at a declaration whose category is one of the table. A macro
/// has no signature.
pub open spec fn declaration_target(file_id: FileId, node: AstNode) -> Option<
    NavigationTargetView,
> {
    if node.kind == SyntaxKind::MacroCall {
        Some(named_target_of(file_id, node@, node@.docs, None))
    } else if node.kind.spec_is_declaration() {
        Some(named_target_of(file_id, node@, node@.docs, node@.label))
    } else {
        None
    }
}

/// The definition of the name at `site`: the declaration above it, if its
/// category is one of the table. A module declared by reference (`mod foo;`)
/// leads to the module that it points at, where that is known.
pub open spec fn name_definition_of(
    file_id: FileId,
    site: NameSite,
    child_module: Option<Module>,
) -> Option<Seq<NavigationTargetView>> {
    match site.parent {
        None => None,
        Some(parent) => if parent.kind == SyntaxKind::Module && parent.has_semi
            && child_module is Some {
            Some(seq![module_target(child_module.unwrap())])
        } else {
            match declaration_target(file_id, parent) {
                Some(target) => Some(seq![target]),
                None => None,
            }
        },
    }
}

/// The range under the cursor and the targets that it leads to: for a name
/// reference its definition, else for a declared name its declaration.
pub open spec fn goto_definition_of(
    position: FilePosition,
    cursor: Cursor,
    semantics: Semantics,
) -> Option<(TextRange, Seq<NavigationTargetView>)> {
    match cursor.name_ref {
        Some(name_ref) => Some(
            (
                name_ref.range,
                reference_definition_of(
                    position.file_id,
                    semantics.name_ref_kind,
                    semantics.symbols@,
                ).targets(),
            ),
        ),
        None => match cursor.name {
            Some(site) => match name_definition_of(
                position.file_id,
                site,
                semantics.child_module,
            ) {
                Some(targets) => Some((site.name.range, targets)),
                None => None,
            },
            None => None,
        },
    }
}

/// Where to go from the cursor: the range of the name under it and the
/// targets. `None` where the cursor is on no name, or on a declared name
/// whose declaration is of no category of the table.
pub fn goto_definition(position: FilePosition, cursor: &Cursor, semantics: &Semantics) -> (res:
    Option<RangeInfo<Vec<NavigationTarget>>>)
    ensures
        match goto_definition_of(position, *cursor, *semantics) {
            Some((range, targets)) => res matches Some(found) && found.range == range
                && targets_view(found.info@) == targets,
            None => res is None,
        },
{
    match &cursor.name_ref {
        Some(name_ref) => {
            let navs = reference_definition(
                position.file_id,
                &semantics.name_ref_kind,
                &semantics.symbols,
            ).to_vec();
            Some(RangeInfo::new(name_ref.range, navs))
        },
        None => match &cursor.name {
            Some(site) => match name_definition(position.file_id, site, &semantics.child_module) {
                Some(navs) => Some(RangeInfo::new(site.name.range, navs)),
                None => None,
            },
            None => None,
        },
    }
}

fn no_targets() -> (targets: Vec<NavigationTarget>)
    ensures
        targets_view(targets@) == Seq::<NavigationTargetView>::empty(),
{
    let targets: Vec<NavigationTarget> = Vec::new();
    assert(targets_view(targets@) =~= Seq::empty());
    targets
}

/// The definition of a name reference in `file_id`, given its class and the
/// symbols of the index that carry its name.
pub fn reference_definition(
    file_id: FileId,
    kind: &Option<NameRefKind>,
    symbols: &Vec<FileSymbol>,
) -> (res: ReferenceResult)
    ensures
        res@ == reference_definition_of(file_id, *kind, symbols@),
{
    match kind {
        Some(NameRefKind::Macro(mac)) => {
            return ReferenceResult::Exact(NavigationTarget::from_macro_def(mac));
        },
        Some(NameRefKind::FieldAccess(field)) => {
            return ReferenceResult::Exact(NavigationTarget::from_field(field));
        },
        Some(NameRefKind::AssocItem(assoc)) => {
            return ReferenceResult::Exact(NavigationTarget::from_def_source(assoc));
        },
        Some(NameRefKind::Method(func)) => {
            return ReferenceResult::Exact(NavigationTarget::from_def_source(func));
        },
        Some(NameRefKind::Def(def)) => match NavigationTarget::from_def(def) {
            Some(nav) => {
                return ReferenceResult::Exact(nav);
            },
            None => {
                return ReferenceResult::Approximate(no_targets());
            },
        },
        Some(NameRefKind::SelfType(ty)) => match ty {
            Some(adt) => {
                return ReferenceResult::Exact(NavigationTarget::from_def_source(adt));
            },
            None => {
                return ReferenceResult::Approximate(no_targets());
            },
        },
        Some(NameRefKind::Pat(pat)) => {
            return ReferenceResult::Exact(NavigationTarget::from_pat(file_id, pat));
        },
        Some(NameRefKind::SelfParam(par)) => {
            return ReferenceResult::Exact(NavigationTarget::from_self_param(file_id, *par));
        },
        Some(NameRefKind::GenericParam(_)) => {
            return ReferenceResult::Approximate(no_targets());
        },
        None => {},
    }
    let mut navs: Vec<NavigationTarget> = no_targets();
    assert(symbol_targets(symbols@.take(0)) =~= Seq::empty());
    let mut i: usize = 0;
    while i < symbols.len()
        invariant
            i <= symbols.len(),
            targets_view(navs@) == symbol_targets(symbols@.take(i as int)),
        decreases symbols.len() - i,
    {
        let nav = NavigationTarget::from_symbol(&symbols[i]);
        proof {
            assert(symbols@.take(i + 1) =~= symbols@.take(i as int).push(symbols[i as int]));
            assert(targets_view(navs@.push(nav)) =~= targets_view(navs@).push(nav@));
            assert(symbol_targets(symbols@.take(i as int).push(symbols[i as int]))
                =~= symbol_targets(symbols@.take(i as int)).push(
                symbol_target(symbols[i as int]@),
            ));
        }
        navs.push(nav);
        i += 1;
    }
    assert(symbols@.take(i as int) =~= symbols@);
    ReferenceResult::Approximate(navs)
}

/// The definition of the declared name at `site` in `file_id`.
/// `child_module` is the module that the declaration `mod foo;` above the
/// name points at, where the name stands in one and the module is known.
pub fn name_definition(file_id: FileId, site: &NameSite, child_module: &Option<Module>) -> (res:
    Option<Vec<NavigationTarget>>)
    ensures
        match name_definition_of(file_id, *site, *child_module) {
            Some(targets) => res matches Some(found) && targets_view(found@) == targets,
            None => res is None,
        },
{
    match &site.parent {
        None => None,
        Some(parent) => {
            match parent.kind {
                SyntaxKind::Module => {
                    if parent.has_semi {
                        match child_module {
                            Some(child_module) => {
                                let nav = NavigationTarget::from_module(child_module);
                                let navs = vec![nav];
                                assert(targets_view(navs@) =~= seq![nav@]);
                                return Some(navs);
                            },
                            None => {},
                        }
                    }
                },
                _ => {},
            }
            match named_target(file_id, parent) {
                Some(nav) => {
                    let navs = vec![nav];
                    assert(targets_view(navs@) =~= seq![nav@]);
                    Some(navs)
                },
                None => None,
            }
        },
    }
}

/// The target at `node` in `file_id`, where the node is a declaration of one
/// of these categories: struct, enum, enum variant, function, type alias,
/// constant, static, trait, named field, module, macro. The target spans the
/// whole node and focuses on the name that the node declares.
pub fn named_target(file_id: FileId, node: &AstNode) -> (res: Option<NavigationTarget>)
    ensures
        match declaration_target(file_id, *node) {
            Some(target) => res matches Some(found) && found@ == target,
            None => res is None,
        },
        res matches Some(found) ==> found@.full_range == node.range && found@.focus_range == (
        match node.name {
            Some(name) => Some(name.range),
            None => None,
        }),
        res is Some <==> node.kind.spec_is_declaration(),
        res matches Some(found) ==> (node@.wf() ==> found@.wf()),
{
    match node.kind {
        SyntaxKind::StructDef => Some(
            NavigationTarget::from_named(
                file_id,
                node,
                clone_text(&node.docs),
                clone_text(&node.label),
            ),
        ),
        SyntaxKind::EnumDef => Some(
            NavigationTarget::from_named(
                file_id,
                node,
                clone_text(&node.docs),
                clone_text(&node.label),
            ),
        ),
        SyntaxKind::EnumVariant => Some(
            NavigationTarget::from_named(
                file_id,
                node,
                clone_text(&node.docs),
                clone_text(&node.label),
            ),
        ),
        SyntaxKind::FnDef => Some(
            NavigationTarget::from_named(
                file_id,
                node,
                clone_text(&node.docs),
                clone_text(&node.label),
            ),
        ),
        SyntaxKind::TypeAliasDef => Some(
            NavigationTarget::from_named(
                file_id,
                node,
                clone_text(&node.docs),
                clone_text(&node.label),
            ),
        ),
        SyntaxKind::ConstDef => Some(
            NavigationTarget::from_named(
                file_id,
                node,
                clone_text(&node.docs),
                clone_text(&node.label),
            ),
        ),
        SyntaxKind::StaticDef => Some(
            NavigationTarget::from_named(
                file_id,
                node,
                clone_text(&node.docs),
                clone_text(&node.label),
            ),
        ),
        SyntaxKind::TraitDef => Some(
            NavigationTarget::from_named(
                file_id,
                node,
                clone_text(&node.docs),
                clone_text(&node.label),
            ),
        ),
        SyntaxKind::NamedFieldDef => Some(
            NavigationTarget::from_named(
                file_id,
                node,
                clone_text(&node.docs),
                clone_text(&node.label),
            ),
        ),
        SyntaxKind::Module => Some(
            NavigationTarget::from_named(
                file_id,
                node,
                clone_text(&node.docs),
                clone_text(&node.label),
            ),
        ),
        SyntaxKind::MacroCall => Some(
            NavigationTarget::from_named(file_id, node, clone_text(&node.docs), None),
        ),
        _ => None,
    }
}

/// A declaration that is a module declared by reference whose target is
/// known: its name leads to the module's own file, not to the declaration.
pub open spec fn leads_to_child_module(decl: AstNode, child_module: Option<Module>) -> bool {
    decl.kind == SyntaxKind::Module && decl.has_semi && child_module is Some
}

/// With the cursor on the name that a declaration declares, and the
/// declaration of one of the categories of the table, there is exactly one
/// target. It lies in the cursor's file, spans the whole declaration and
/// focuses on exactly the name.
///
/// A module declared by reference whose target is known is left out: its
/// name leads to the file of the module.
pub proof fn lemma_declared_name_leads_to_its_declaration(
    position: FilePosition,
    cursor: Cursor,
    semantics: Semantics,
    site: NameSite,
    decl: AstNode,
    name: Name,
)
    requires
        cursor.name_ref is None,
        cursor.name == Some(site),
        site.parent == Some(decl),
        decl.name == Some(name),
        name.range == site.name.range,
        decl.kind.spec_is_declaration(),
        !leads_to_child_module(decl, semantics.child_module),
    ensures
        goto_definition_of(position, cursor, semantics) matches Some((range, targets)) && range
            == site.name.range && targets.len() == 1 && targets[0].file_id == position.file_id
            && targets[0].kind == decl.kind && targets[0].name == name.text@
            && targets[0].full_range == decl.range && targets[0].focus_range == Some(
            site.name.range,
        ),
{
}

/// The classes that lead to the declaration `src`: a method, a macro, a
/// named field, an item of an implementation block, a definition at module
/// level, a module with a body, and `Self`.
pub open spec fn refers_to(kind: NameRefKind, src: Source) -> bool {
    ||| kind == NameRefKind::Method(src)
    ||| kind == NameRefKind::Macro(src)
    ||| kind == NameRefKind::FieldAccess(FieldSource::Named(src))
    ||| kind == NameRefKind::AssocItem(src)
    ||| kind == NameRefKind::Def(ModuleDef::Item(src))
    ||| kind == NameRefKind::SelfType(Some(src))
    ||| kind matches NameRefKind::Def(ModuleDef::Module(module)) && module.definition
        == ModuleSource::Module(src)
}

/// A use of a name and the name's own declaration lead to the same place:
/// where a reference is classified as a use of the declaration `src`, of one
/// of the categories of the table, its target has the file, the category,
/// the full and focus ranges and the doc comment of the target that the
/// declared name itself leads to. It has its name too, unless it is a use of
/// a module, which goes under the name that the semantic model knows it by.
///
/// Left out are a module declared by reference whose target is known, as
/// above, and the classes that lead to no declaration of the table: a
/// module that is a file of its own, a field of a tuple struct, a local
/// variable, `self`, a generic parameter and a built-in type.
pub proof fn lemma_usage_agrees_with_declaration(
    file_id: FileId,
    kind: NameRefKind,
    symbols: Seq<FileSymbol>,
    src: Source,
    site: NameSite,
    child_module: Option<Module>,
)
    requires
        refers_to(kind, src),
        src.ast.kind.spec_is_declaration(),
        site.parent == Some(src.ast),
        !leads_to_child_module(src.ast, child_module),
    ensures
        reference_definition_of(file_id, Some(kind), symbols) matches ReferenceResultView::Exact(
            usage,
        ) && name_definition_of(src.file_id, site, child_module) matches Some(targets)
            && targets.len() == 1 && targets[0].file_id == usage.file_id && targets[0].kind
            == usage.kind && targets[0].full_range == usage.full_range && targets[0].focus_range
            == usage.focus_range && targets[0].docs == usage.docs && (kind matches NameRefKind::Def(
            ModuleDef::Module(_),
        ) || targets[0].name == usage.name),
{
}

/// On a name reference there is always an answer, be it without a target: a
/// reference that leads nowhere is told from a cursor that is on no name.
pub proof fn lemma_reference_always_answers(
    position: FilePosition,
    cursor: Cursor,
    semantics: Semantics,
)
    requires
        cursor.name_ref is Some,
    ensures
        goto_definition_of(position, cursor, semantics) matches Some((range, targets)) && range
            == cursor.name_ref.unwrap().range && (semantics.name_ref_kind is Some
            ==> targets.len() <= 1) && (semantics.name_ref_kind is None ==> targets.len()
            == semantics.symbols@.len()),
{
}

/// What was handed in lies well: each declaration that the class of the
/// reference names holds its name within it, as does the declaration above
/// the name under the cursor, and each symbol of the index has its name
/// within its range.
pub open spec fn facts_wf(cursor: Cursor, semantics: Semantics) -> bool {
    &&& semantics.name_ref_kind matches Some(kind) ==> kind.wf()
    &&& forall|i: int|
        0 <= i < semantics.symbols@.len() ==> (#[trigger] semantics.symbols@[i])@.wf()
    &&& cursor.name matches Some(site) ==> (site.parent matches Some(decl) ==> decl@.wf())
    &&& semantics.child_module matches Some(module) ==> module.wf()
}

/// Every target lies well: its focus range, where it has one, is within its
/// full range, provided that this holds of what was handed in.
pub proof fn lemma_targets_lie_well(
    position: FilePosition,
    cursor: Cursor,
    semantics: Semantics,
    i: int,
)
    requires
        facts_wf(cursor, semantics),
        goto_definition_of(position, cursor, semantics) matches Some((_, targets)) && 0 <= i
            < targets.len(),
    ensures
        goto_definition_of(position, cursor, semantics).unwrap().1[i].wf(),
{
}

/// The range that is reported spans the cursor, where the nodes under the
/// cursor were located at it. With the cursor on a declared name, every
/// target then lies well, provided that the module that a `mod foo;` points
/// at does.
pub proof fn lemma_answer_spans_the_cursor(
    position: FilePosition,
    cursor: Cursor,
    semantics: Semantics,
)
    requires
        cursor@.is_at(position.offset),
        semantics.child_module matches Some(module) ==> module.wf(),
    ensures
        goto_definition_of(position, cursor, semantics) matches Some((range, targets))
            ==> range.spec_contains_offset(position.offset) && (cursor.name_ref is None
            ==> forall|i: int| 0 <= i < targets.len() ==> (#[trigger] targets[i]).wf()),
{
}

} // verus!
