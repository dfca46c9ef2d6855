//! What the library reads off a syntax tree.
//!
//! A node of the tree is described by plain values: the category it belongs
//! to, the range of text it spans, and, for a node that declares something,
//! its name, its doc comment and its one-line signature.
use crate::text::TextRange;
use vstd::prelude::*;

verus! {

/// The categories of syntax node that the library tells apart. Every other
/// category is `Other`.
#[derive(Clone, Copy, Debug, PartialEq, Eq, Hash, Structural)]
pub enum SyntaxKind {
    StructDef,
    EnumDef,
    EnumVariant,
    FnDef,
    TypeAliasDef,
    ConstDef,
    StaticDef,
    TraitDef,
    NamedFieldDef,
    Module,
    MacroCall,
    SourceFile,
    PosFieldDef,
    BindPat,
    SelfParam,
    Name,
    NameRef,
    Other,
}

/// The category that a syntax tree calls `name`. A tree may call a type
/// alias `TYPE_DEF`, a source file `ROOT` and a field of a tuple struct
/// `POS_FIELD`.
pub open spec fn kind_of_name(name: Seq<char>) -> SyntaxKind {
    if name == "STRUCT_DEF"@ {
        SyntaxKind::StructDef
    } else if name == "ENUM_DEF"@ {
        SyntaxKind::EnumDef
    } else if name == "ENUM_VARIANT"@ {
        SyntaxKind::EnumVariant
    } else if name == "FN_DEF"@ {
        SyntaxKind::FnDef
    } else if name == "TYPE_ALIAS_DEF"@ || name == "TYPE_DEF"@ {
        SyntaxKind::TypeAliasDef
    } else if name == "CONST_DEF"@ {
        SyntaxKind::ConstDef
    } else if name == "STATIC_DEF"@ {
        SyntaxKind::StaticDef
    } else if name == "TRAIT_DEF"@ {
        SyntaxKind::TraitDef
    } else if name == "NAMED_FIELD_DEF"@ {
        SyntaxKind::NamedFieldDef
    } else if name == "MODULE"@ {
        SyntaxKind::Module
    } else if name == "MACRO_CALL"@ {
        SyntaxKind::MacroCall
    } else if name == "SOURCE_FILE"@ || name == "ROOT"@ {
        SyntaxKind::SourceFile
    } else if name == "POS_FIELD_DEF"@ || name == "POS_FIELD"@ {
        SyntaxKind::PosFieldDef
    } else if name == "BIND_PAT"@ {
        SyntaxKind::BindPat
    } else if name == "SELF_PARAM"@ {
        SyntaxKind::SelfParam
    } else if name == "NAME"@ {
        SyntaxKind::Name
    } else if name == "NAME_REF"@ {
        SyntaxKind::NameRef
    } else {
        SyntaxKind::Other
    }
}

fn is_text(name: &String, text: &str) -> (same: bool)
    ensures
        same == (name@ == text@),
{
    *name == String::from_str(text)
}

impl SyntaxKind {
    /// The name of the category, in capitals.
    pub open spec fn spec_name(&self) -> Seq<char> {
        match *self {
            SyntaxKind::StructDef => "STRUCT_DEF"@,
            SyntaxKind::EnumDef => "ENUM_DEF"@,
            SyntaxKind::EnumVariant => "ENUM_VARIANT"@,
            SyntaxKind::FnDef => "FN_DEF"@,
            SyntaxKind::TypeAliasDef => "TYPE_ALIAS_DEF"@,
            SyntaxKind::ConstDef => "CONST_DEF"@,
            SyntaxKind::StaticDef => "STATIC_DEF"@,
            SyntaxKind::TraitDef => "TRAIT_DEF"@,
            SyntaxKind::NamedFieldDef => "NAMED_FIELD_DEF"@,
            SyntaxKind::Module => "MODULE"@,
            SyntaxKind::MacroCall => "MACRO_CALL"@,
            SyntaxKind::SourceFile => "SOURCE_FILE"@,
            SyntaxKind::PosFieldDef => "POS_FIELD_DEF"@,
            SyntaxKind::BindPat => "BIND_PAT"@,
            SyntaxKind::SelfParam => "SELF_PARAM"@,
            SyntaxKind::Name => "NAME"@,
            SyntaxKind::NameRef => "NAME_REF"@,
            SyntaxKind::Other => "OTHER"@,
        }
    }

    pub fn name(&self) -> (name: &'static str)
        ensures
            name@ == self.spec_name(),
    {
        match *self {
            SyntaxKind::StructDef => "STRUCT_DEF",
            SyntaxKind::EnumDef => "ENUM_DEF",
            SyntaxKind::EnumVariant => "ENUM_VARIANT",
            SyntaxKind::FnDef => "FN_DEF",
            SyntaxKind::TypeAliasDef => "TYPE_ALIAS_DEF",
            SyntaxKind::ConstDef => "CONST_DEF",
            SyntaxKind::StaticDef => "STATIC_DEF",
            SyntaxKind::TraitDef => "TRAIT_DEF",
            SyntaxKind::NamedFieldDef => "NAMED_FIELD_DEF",
            SyntaxKind::Module => "MODULE",
            SyntaxKind::MacroCall => "MACRO_CALL",
            SyntaxKind::SourceFile => "SOURCE_FILE",
            SyntaxKind::PosFieldDef => "POS_FIELD_DEF",
            SyntaxKind::BindPat => "BIND_PAT",
            SyntaxKind::SelfParam => "SELF_PARAM",
            SyntaxKind::Name => "NAME",
            SyntaxKind::NameRef => "NAME_REF",
            SyntaxKind::Other => "OTHER",
        }
    }

    /// The category that a syntax tree calls `name`; `Other` for a name
    /// that the library does not tell apart.
    pub fn from_name(name: &String) -> (kind: SyntaxKind)
        ensures
            kind == kind_of_name(name@),
    {
        if is_text(name, "STRUCT_DEF") {
            SyntaxKind::StructDef
        } else if is_text(name, "ENUM_DEF") {
            SyntaxKind::EnumDef
        } else if is_text(name, "ENUM_VARIANT") {
            SyntaxKind::EnumVariant
        } else if is_text(name, "FN_DEF") {
            SyntaxKind::FnDef
        } else if is_text(name, "TYPE_ALIAS_DEF") || is_text(name, "TYPE_DEF") {
            SyntaxKind::TypeAliasDef
        } else if is_text(name, "CONST_DEF") {
            SyntaxKind::ConstDef
        } else if is_text(name, "STATIC_DEF") {
            SyntaxKind::StaticDef
        } else if is_text(name, "TRAIT_DEF") {
            SyntaxKind::TraitDef
        } else if is_text(name, "NAMED_FIELD_DEF") {
            SyntaxKind::NamedFieldDef
        } else if is_text(name, "MODULE") {
            SyntaxKind::Module
        } else if is_text(name, "MACRO_CALL") {
            SyntaxKind::MacroCall
        } else if is_text(name, "SOURCE_FILE") || is_text(name, "ROOT") {
            SyntaxKind::SourceFile
        } else if is_text(name, "POS_FIELD_DEF") || is_text(name, "POS_FIELD") {
            SyntaxKind::PosFieldDef
        } else if is_text(name, "BIND_PAT") {
            SyntaxKind::BindPat
        } else if is_text(name, "SELF_PARAM") {
            SyntaxKind::SelfParam
        } else if is_text(name, "NAME") {
            SyntaxKind::Name
        } else if is_text(name, "NAME_REF") {
            SyntaxKind::NameRef
        } else {
            SyntaxKind::Other
        }
    }

    /// The declaration categories whose name, when the cursor is on it,
    /// leads to the declaration itself.
    pub open spec fn spec_is_declaration(&self) -> bool {
        match *self {
            SyntaxKind::StructDef
            | SyntaxKind::EnumDef
            | SyntaxKind::EnumVariant
            | SyntaxKind::FnDef
            | SyntaxKind::TypeAliasDef
            | SyntaxKind::ConstDef
            | SyntaxKind::StaticDef
            | SyntaxKind::TraitDef
            | SyntaxKind::NamedFieldDef
            | SyntaxKind::Module
            | SyntaxKind::MacroCall => true,
            _ => false,
        }
    }

    #[verifier::when_used_as_spec(spec_is_declaration)]
    pub fn is_declaration(&self) -> (yes: bool)
        ensures
            yes == self.spec_is_declaration(),
    {
        match *self {
            SyntaxKind::StructDef
            | SyntaxKind::EnumDef
            | SyntaxKind::EnumVariant
            | SyntaxKind::FnDef
            | SyntaxKind::TypeAliasDef
            | SyntaxKind::ConstDef
            | SyntaxKind::StaticDef
            | SyntaxKind::TraitDef
            | SyntaxKind::NamedFieldDef
            | SyntaxKind::Module
            | SyntaxKind::MacroCall => true,
            _ => false,
        }
    }
}

/// A category is found again by its name.
pub proof fn lemma_kind_is_found_by_its_name(kind: SyntaxKind)
    requires
        kind != SyntaxKind::Other,
    ensures
        kind_of_name(kind.spec_name()) == kind,
{
    reveal_strlit("STRUCT_DEF");
    reveal_strlit("ENUM_DEF");
    reveal_strlit("ENUM_VARIANT");
    reveal_strlit("FN_DEF");
    reveal_strlit("TYPE_ALIAS_DEF");
    reveal_strlit("TYPE_DEF");
    reveal_strlit("CONST_DEF");
    reveal_strlit("STATIC_DEF");
    reveal_strlit("TRAIT_DEF");
    reveal_strlit("NAMED_FIELD_DEF");
    reveal_strlit("MODULE");
    reveal_strlit("MACRO_CALL");
    reveal_strlit("SOURCE_FILE");
    reveal_strlit("ROOT");
    reveal_strlit("POS_FIELD_DEF");
    reveal_strlit("POS_FIELD");
    reveal_strlit("BIND_PAT");
    reveal_strlit("SELF_PARAM");
    reveal_strlit("NAME");
    reveal_strlit("NAME_REF");
    // Names of different length differ.
    assert("STRUCT_DEF"@.len() == 10);
    assert("ENUM_DEF"@.len() == 8);
    assert("ENUM_VARIANT"@.len() == 12);
    assert("FN_DEF"@.len() == 6);
    assert("TYPE_ALIAS_DEF"@.len() == 14);
    assert("TYPE_DEF"@.len() == 8);
    assert("CONST_DEF"@.len() == 9);
    assert("STATIC_DEF"@.len() == 10);
    assert("TRAIT_DEF"@.len() == 9);
    assert("NAMED_FIELD_DEF"@.len() == 15);
    assert("MODULE"@.len() == 6);
    assert("MACRO_CALL"@.len() == 10);
    assert("SOURCE_FILE"@.len() == 11);
    assert("ROOT"@.len() == 4);
    assert("POS_FIELD_DEF"@.len() == 13);
    assert("POS_FIELD"@.len() == 9);
    assert("BIND_PAT"@.len() == 8);
    assert("SELF_PARAM"@.len() == 10);
    assert("NAME"@.len() == 4);
    assert("NAME_REF"@.len() == 8);
    // Names of the same length differ in a letter.
    if kind == SyntaxKind::StructDef {
    } else if kind == SyntaxKind::EnumDef {
    } else if kind == SyntaxKind::EnumVariant {
    } else if kind == SyntaxKind::FnDef {
    } else if kind == SyntaxKind::TypeAliasDef {
    } else if kind == SyntaxKind::ConstDef {
    } else if kind == SyntaxKind::StaticDef {
        assert("STATIC_DEF"@[2] != "STRUCT_DEF"@[2]);
    } else if kind == SyntaxKind::TraitDef {
        assert("TRAIT_DEF"@[0] != "CONST_DEF"@[0]);
    } else if kind == SyntaxKind::NamedFieldDef {
    } else if kind == SyntaxKind::Module {
        assert("MODULE"@[0] != "FN_DEF"@[0]);
    } else if kind == SyntaxKind::MacroCall {
        assert("MACRO_CALL"@[0] != "STRUCT_DEF"@[0]);
        assert("MACRO_CALL"@[0] != "STATIC_DEF"@[0]);
    } else if kind == SyntaxKind::SourceFile {
    } else if kind == SyntaxKind::PosFieldDef {
    } else if kind == SyntaxKind::BindPat {
        assert("BIND_PAT"@[0] != "ENUM_DEF"@[0]);
        assert("BIND_PAT"@[0] != "TYPE_DEF"@[0]);
    } else if kind == SyntaxKind::SelfParam {
        assert("SELF_PARAM"@[1] != "STRUCT_DEF"@[1]);
        assert("SELF_PARAM"@[1] != "STATIC_DEF"@[1]);
        assert("SELF_PARAM"@[0] != "MACRO_CALL"@[0]);
    } else if kind == SyntaxKind::Name {
        assert("NAME"@[0] != "ROOT"@[0]);
    } else if kind == SyntaxKind::NameRef {
        assert("NAME_REF"@[0] != "ENUM_DEF"@[0]);
        assert("NAME_REF"@[0] != "TYPE_DEF"@[0]);
        assert("NAME_REF"@[0] != "BIND_PAT"@[0]);
    }
}

/// One node of the tree, as the tree itself knows it.
#[derive(Clone, Copy, Debug, PartialEq, Eq, Hash, Structural)]
pub struct SyntaxNode {
    pub kind: SyntaxKind,
    pub range: TextRange,
    /// The node is an expression.
    pub is_expr: bool,
    /// The node is a pattern.
    pub is_pat: bool,
}

/// A name token: its text and where it stands.
#[derive(Clone, Debug, PartialEq, Eq)]
pub struct Name {
    pub text: String,
    pub range: TextRange,
}

pub struct NameView {
    pub text: Seq<char>,
    pub range: TextRange,
}

impl View for Name {
    type V = NameView;

    open spec fn view(&self) -> NameView {
        NameView { text: self.text@, range: self.range }
    }
}

/// A node read as a declaration: besides kind and range it has the name it
/// declares, the doc comment attached to it and its one-line signature, each
/// where there is one. `has_semi` tells a module declared by reference
/// (`mod foo;`) from one with a body.
#[derive(Clone, Debug, PartialEq, Eq)]
pub struct AstNode {
    pub kind: SyntaxKind,
    pub range: TextRange,
    pub name: Option<Name>,
    pub docs: Option<String>,
    pub label: Option<String>,
    pub has_semi: bool,
}

pub struct AstNodeView {
    pub kind: SyntaxKind,
    pub range: TextRange,
    pub name: Option<NameView>,
    pub docs: Option<Seq<char>>,
    pub label: Option<Seq<char>>,
    pub has_semi: bool,
}

impl View for AstNode {
    type V = AstNodeView;

    open spec fn view(&self) -> AstNodeView {
        AstNodeView {
            kind: self.kind,
            range: self.range,
            name: name_view(self.name),
            docs: text_view(self.docs),
            label: text_view(self.label),
            has_semi: self.has_semi,
        }
    }
}

impl AstNodeView {
    /// The name, if there is one, lies within the node.
    pub open spec fn wf(self) -> bool {
        self.name matches Some(name) ==> self.range.spec_contains_range(name.range)
    }
}

/// The characters of an optional text.
pub open spec fn text_view(text: Option<String>) -> Option<Seq<char>> {
    match text {
        Some(text) => Some(text@),
        None => None,
    }
}

pub open spec fn name_view(name: Option<Name>) -> Option<NameView> {
    match name {
        Some(name) => Some(name@),
        None => None,
    }
}

/// The characters of each text of a list.
pub open spec fn texts_view(texts: Seq<String>) -> Seq<Seq<char>> {
    texts.map_values(|text: String| text@)
}

/// A copy of an optional text.
pub fn clone_text(text: &Option<String>) -> (copy: Option<String>)
    ensures
        copy == *text,
{
    match text {
        Some(text) => Some(text.clone()),
        None => None,
    }
}

/// The name under the cursor and the node that it names.
#[derive(Clone, Debug, PartialEq, Eq)]
pub struct NameSite {
    pub name: SyntaxNode,
    /// The node directly above the name in the tree.
    pub parent: Option<AstNode>,
}

pub struct NameSiteView {
    pub name: SyntaxNode,
    pub parent: Option<AstNodeView>,
}

impl View for NameSite {
    type V = NameSiteView;

    open spec fn view(&self) -> NameSiteView {
        NameSiteView {
            name: self.name,
            parent: match self.parent {
                Some(parent) => Some(parent@),
                None => None,
            },
        }
    }
}

/// What stands at a cursor position, as far as syntax tells.
#[derive(Clone, Debug, PartialEq, Eq)]
pub struct Cursor {
    /// The innermost name reference (a use of a name) at the cursor.
    pub name_ref: Option<SyntaxNode>,
    /// The innermost name (the name a declaration gives) at the cursor.
    pub name: Option<NameSite>,
    /// The smallest expression or pattern around the cursor.
    pub expr_or_pat: Option<SyntaxNode>,
}

pub struct CursorView {
    pub name_ref: Option<SyntaxNode>,
    pub name: Option<NameSiteView>,
    pub expr_or_pat: Option<SyntaxNode>,
}

impl View for Cursor {
    type V = CursorView;

    open spec fn view(&self) -> CursorView {
        CursorView {
            name_ref: self.name_ref,
            name: match self.name {
                Some(site) => Some(site@),
                None => None,
            },
            expr_or_pat: self.expr_or_pat,
        }
    }
}

} // verus!
