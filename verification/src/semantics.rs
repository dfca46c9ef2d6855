//! What the semantic model and the symbol index report, as plain values.
//!
//! The library does not resolve names or infer types. For the name reference
//! under a cursor it is told what the semantic model answers of the
//! reference, and with that where the entity referred to is declared; which
//! symbols of the index carry the same name; and what type the expression
//! around the cursor has. From the answers it classifies the reference.
use crate::syntax::{text_view, AstNode, SyntaxKind};
use crate::text::{FileId, TextRange};
use vstd::prelude::*;

verus! {

/// A declaration in its file. The file may be another than the one the
/// cursor is in.
#[derive(Clone, Debug, PartialEq, Eq)]
pub struct Source {
    pub file_id: FileId,
    pub ast: AstNode,
}

/// Where a field is declared.
#[derive(Clone, Debug, PartialEq, Eq)]
pub enum FieldSource {
    /// A field of a struct with named fields.
    Named(Source),
    /// A field of a tuple struct.
    Pos(Source),
}

/// Where a module is defined.
#[derive(Clone, Debug, PartialEq, Eq)]
pub enum ModuleSource {
    /// A file of its own.
    SourceFile(Source),
    /// A `mod` item with a body.
    Module(Source),
}

/// A module: its name, if it has one, and where it is defined.
#[derive(Clone, Debug, PartialEq, Eq)]
pub struct Module {
    pub name: Option<String>,
    pub definition: ModuleSource,
}

impl Module {
    /// The declaration of a module with a body holds its name within it.
    pub open spec fn wf(self) -> bool {
        self.definition matches ModuleSource::Module(src) ==> src.ast@.wf()
    }
}

/// A definition at module level.
#[derive(Clone, Debug, PartialEq, Eq)]
pub enum ModuleDef {
    Module(Module),
    /// A function, struct, union, enum, enum variant, constant, static,
    /// trait or type alias.
    Item(Source),
    /// A type built into the language: it has no source.
    BuiltinType,
}

/// How the semantic model classifies a name reference.
#[derive(Clone, Debug, PartialEq, Eq)]
pub enum NameRefKind {
    /// The method of a method call.
    Method(Source),
    /// The macro of a macro call.
    Macro(Source),
    /// A field, in a field access or a struct literal.
    FieldAccess(FieldSource),
    /// An item of an implementation block.
    AssocItem(Source),
    Def(ModuleDef),
    /// `Self`, with the struct, union or enum it stands for, if it stands
    /// for one.
    SelfType(Option<Source>),
    /// A local variable, with the pattern that binds it. The pattern is in
    /// the cursor's file.
    Pat(AstNode),
    /// The `self` parameter, with its range.
    SelfParam(TextRange),
    GenericParam(u32),
}

/// What the semantic model resolves a path to.
#[derive(Clone, Debug, PartialEq, Eq)]
pub enum PathResolution {
    /// A definition at module level.
    Def(ModuleDef),
    /// A local variable, with the pattern that binds it.
    LocalBinding(AstNode),
    /// The `self` parameter, with its range.
    SelfParam(TextRange),
    GenericParam(u32),
    Macro(Source),
    /// `Self`, with the struct, union or enum that the implementation block
    /// is for, if it is for one.
    SelfType(Option<Source>),
    /// An item of an implementation block.
    AssocItem(Source),
}

/// What the semantic model answers of one name reference. Each answer
/// belongs to a place that the reference can stand in, and is `None` where
/// the reference does not stand there or the model does not know.
#[derive(Clone, Debug, PartialEq, Eq)]
pub struct Resolutions {
    /// The function called, where the reference names the method of a
    /// method call.
    pub method_call: Option<Source>,
    /// The macro called, where the reference names the macro of a macro
    /// call.
    pub macro_call: Option<Source>,
    /// The field, where the reference names the field of a field access.
    pub field_expr: Option<FieldSource>,
    /// The field, where the reference names a field in a struct literal.
    pub named_field: Option<FieldSource>,
    /// What the path resolves to, where the reference is part of a path.
    pub path: Option<PathResolution>,
}

/// The class of a path that resolves to `resolution`.
pub open spec fn path_class(resolution: PathResolution) -> NameRefKind {
    match resolution {
        PathResolution::Def(def) => NameRefKind::Def(def),
        PathResolution::LocalBinding(pat) => NameRefKind::Pat(pat),
        PathResolution::SelfParam(range) => NameRefKind::SelfParam(range),
        PathResolution::GenericParam(index) => NameRefKind::GenericParam(index),
        PathResolution::Macro(src) => NameRefKind::Macro(src),
        PathResolution::SelfType(adt) => NameRefKind::SelfType(adt),
        PathResolution::AssocItem(src) => NameRefKind::AssocItem(src),
    }
}

/// The class of a name reference: that of the first answer that the
/// semantic model gives, asked in this order: as the method of a method
/// call, as the macro of a macro call, as the field of a field access, as a
/// field in a struct literal, as part of a path. A reference of which the
/// model answers nothing has no class.
pub open spec fn class_of(resolutions: Resolutions) -> Option<NameRefKind> {
    match resolutions.method_call {
        Some(func) => Some(NameRefKind::Method(func)),
        None => match resolutions.macro_call {
            Some(mac) => Some(NameRefKind::Macro(mac)),
            None => match resolutions.field_expr {
                Some(field) => Some(NameRefKind::FieldAccess(field)),
                None => match resolutions.named_field {
                    Some(field) => Some(NameRefKind::FieldAccess(field)),
                    None => match resolutions.path {
                        Some(resolution) => Some(path_class(resolution)),
                        None => None,
                    },
                },
            },
        },
    }
}

/// Classifies a name reference from what the semantic model answers of it.
/// The reference gets exactly one class, or none.
pub fn classify_name_ref(resolutions: Resolutions) -> (kind: Option<NameRefKind>)
    ensures
        kind == class_of(resolutions),
{
    match resolutions.method_call {
        Some(func) => {
            return Some(NameRefKind::Method(func));
        },
        None => {},
    }
    match resolutions.macro_call {
        Some(mac) => {
            return Some(NameRefKind::Macro(mac));
        },
        None => {},
    }
    match resolutions.field_expr {
        Some(field) => {
            return Some(NameRefKind::FieldAccess(field));
        },
        None => {},
    }
    match resolutions.named_field {
        Some(field) => {
            return Some(NameRefKind::FieldAccess(field));
        },
        None => {},
    }
    match resolutions.path {
        Some(resolved) => match resolved {
            PathResolution::Def(def) => Some(NameRefKind::Def(def)),
            PathResolution::LocalBinding(pat) => Some(NameRefKind::Pat(pat)),
            PathResolution::SelfParam(par) => Some(NameRefKind::SelfParam(par)),
            PathResolution::GenericParam(par) => Some(NameRefKind::GenericParam(par)),
            PathResolution::Macro(def) => Some(NameRefKind::Macro(def)),
            PathResolution::SelfType(adt) => Some(NameRefKind::SelfType(adt)),
            PathResolution::AssocItem(assoc) => Some(NameRefKind::AssocItem(assoc)),
        },
        None => None,
    }
}

/// A name reference has a class exactly if the semantic model answers
/// something of it.
pub proof fn lemma_class_needs_an_answer(resolutions: Resolutions)
    ensures
        class_of(resolutions) is None <==> resolutions.method_call is None
            && resolutions.macro_call is None && resolutions.field_expr is None
            && resolutions.named_field is None && resolutions.path is None,
{
}

impl NameRefKind {
    /// Each declaration that the class names holds its name within it.
    pub open spec fn wf(self) -> bool {
        match self {
            NameRefKind::Method(src) => src.ast@.wf(),
            NameRefKind::Macro(src) => src.ast@.wf(),
            NameRefKind::FieldAccess(FieldSource::Named(src)) => src.ast@.wf(),
            NameRefKind::AssocItem(src) => src.ast@.wf(),
            NameRefKind::Def(ModuleDef::Item(src)) => src.ast@.wf(),
            NameRefKind::Def(ModuleDef::Module(module)) => module.wf(),
            NameRefKind::SelfType(Some(src)) => src.ast@.wf(),
            NameRefKind::Pat(pat) => pat@.wf(),
            _ => true,
        }
    }
}

/// A symbol of the index. Its documentation and description are stored with
/// it, independent of the semantic model.
#[derive(Clone, Debug, PartialEq, Eq)]
pub struct FileSymbol {
    pub file_id: FileId,
    pub name: String,
    pub kind: SyntaxKind,
    pub range: TextRange,
    pub name_range: Option<TextRange>,
    pub container_name: Option<String>,
    pub docs: Option<String>,
    pub description: Option<String>,
}

pub struct FileSymbolView {
    pub file_id: FileId,
    pub name: Seq<char>,
    pub kind: SyntaxKind,
    pub range: TextRange,
    pub name_range: Option<TextRange>,
    pub container_name: Option<Seq<char>>,
    pub docs: Option<Seq<char>>,
    pub description: Option<Seq<char>>,
}

impl View for FileSymbol {
    type V = FileSymbolView;

    open spec fn view(&self) -> FileSymbolView {
        FileSymbolView {
            file_id: self.file_id,
            name: self.name@,
            kind: self.kind,
            range: self.range,
            name_range: self.name_range,
            container_name: text_view(self.container_name),
            docs: text_view(self.docs),
            description: text_view(self.description),
        }
    }
}

impl FileSymbolView {
    /// The name, where its range is known, lies within the symbol.
    pub open spec fn wf(self) -> bool {
        self.name_range matches Some(name) ==> self.range.spec_contains_range(name)
    }
}

/// What is known of one cursor position beyond its syntax.
#[derive(Clone, Debug, PartialEq, Eq)]
pub struct Semantics {
    /// The class of the name reference at the cursor; `None` where the
    /// semantic model cannot classify it, or where there is none.
    pub name_ref_kind: Option<NameRefKind>,
    /// The symbols of the index that carry the name of that reference, in
    /// the order of the index.
    pub symbols: Vec<FileSymbol>,
    /// The module that the declaration `mod foo;` at the cursor points at.
    pub child_module: Option<Module>,
    /// The type of the expression or pattern around the cursor, as text.
    pub type_text: Option<String>,
}

/// What the semantic model infers of one node: its type as text, once with
/// the node read as an expression and once with it read as a pattern. Either
/// is `None` where the model has no type.
#[derive(Clone, Debug, PartialEq, Eq)]
pub struct InferredTypes {
    pub as_expr: Option<String>,
    pub as_pat: Option<String>,
}

} // verus!
