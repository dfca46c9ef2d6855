//! The destinations that a navigation leads to.
use crate::semantics::{FieldSource, FileSymbol, FileSymbolView, Module, ModuleDef, ModuleSource, Source};
use crate::syntax::{clone_text, text_view, AstNode, AstNodeView, SyntaxKind};
use crate::text::{FileId, TextRange};
use vstd::prelude::*;

verus! {

/// One destination: a declaration in a file, with the range of the whole
/// declaration, the range of its name within it, the name, and what there is
/// to say of it.
///
/// Two targets may describe the same entity.
#[derive(Debug, Clone)]
pub struct NavigationTarget {
    file_id: FileId,
    name: String,
    kind: SyntaxKind,
    full_range: TextRange,
    focus_range: Option<TextRange>,
    container_name: Option<String>,
    description: Option<String>,
    docs: Option<String>,
}

pub struct NavigationTargetView {
    pub file_id: FileId,
    pub name: Seq<char>,
    pub kind: SyntaxKind,
    pub full_range: TextRange,
    pub focus_range: Option<TextRange>,
    pub container_name: Option<Seq<char>>,
    pub description: Option<Seq<char>>,
    pub docs: Option<Seq<char>>,
}

impl View for NavigationTarget {
    type V = NavigationTargetView;

    closed spec fn view(&self) -> NavigationTargetView {
        NavigationTargetView {
            file_id: self.file_id,
            name: self.name@,
            kind: self.kind,
            full_range: self.full_range,
            focus_range: self.focus_range,
            container_name: text_view(self.container_name),
            description: text_view(self.description),
            docs: text_view(self.docs),
        }
    }
}

impl NavigationTargetView {
    /// The focus range, where there is one, lies within the full range.
    pub open spec fn wf(self) -> bool {
        self.focus_range matches Some(focus) ==> self.full_range.spec_contains_range(focus)
    }

    /// The range to put the cursor on: the focus range, or else the full
    /// range.
    pub open spec fn range(self) -> TextRange {
        match self.focus_range {
            Some(focus) => focus,
            None => self.full_range,
        }
    }
}

/// The views of a list of targets.
pub open spec fn targets_view(targets: Seq<NavigationTarget>) -> Seq<NavigationTargetView> {
    targets.map_values(|target: NavigationTarget| target@)
}

/// The target at `node` in `file_id`, under the name `name`.
pub open spec fn syntax_target(
    file_id: FileId,
    name: Seq<char>,
    focus_range: Option<TextRange>,
    node: AstNodeView,
    docs: Option<Seq<char>>,
    description: Option<Seq<char>>,
) -> NavigationTargetView {
    NavigationTargetView {
        file_id,
        name,
        kind: node.kind,
        full_range: node.range,
        focus_range,
        container_name: None,
        description,
        docs,
    }
}

/// The target at the declaration `node` in `file_id`: it spans the node,
/// carries the name that the node declares and focuses on that name. A node
/// without a name gives a target with an empty name and no focus.
pub open spec fn named_target_of(
    file_id: FileId,
    node: AstNodeView,
    docs: Option<Seq<char>>,
    description: Option<Seq<char>>,
) -> NavigationTargetView {
    match node.name {
        Some(name) => syntax_target(file_id, name.text, Some(name.range), node, docs, description),
        None => syntax_target(file_id, Seq::empty(), None, node, docs, description),
    }
}

/// The target at a declaration in its own file, with its doc comment and
/// signature.
pub open spec fn source_target(src: Source) -> NavigationTargetView {
    named_target_of(src.file_id, src.ast@, src.ast@.docs, src.ast@.label)
}

/// The target for a symbol of the index.
pub open spec fn symbol_target(symbol: FileSymbolView) -> NavigationTargetView {
    NavigationTargetView {
        file_id: symbol.file_id,
        name: symbol.name,
        kind: symbol.kind,
        full_range: symbol.range,
        focus_range: symbol.name_range,
        container_name: symbol.container_name,
        description: symbol.description,
        docs: symbol.docs,
    }
}

/// The targets for the symbols of the index, in their order.
pub open spec fn symbol_targets(symbols: Seq<FileSymbol>) -> Seq<NavigationTargetView> {
    symbols.map_values(|symbol: FileSymbol| symbol_target(symbol@))
}

/// The target for the `self` parameter at `range`.
pub open spec fn self_param_target(file_id: FileId, range: TextRange) -> NavigationTargetView {
    NavigationTargetView {
        file_id,
        name: "self"@,
        kind: SyntaxKind::Name,
        full_range: range,
        focus_range: None,
        container_name: None,
        description: None,
        docs: None,
    }
}

/// The name of a module; a module without a name has the empty name.
pub open spec fn module_name(module: Module) -> Seq<char> {
    match module.name {
        Some(name) => name@,
        None => Seq::empty(),
    }
}

/// The range of the name that a node declares.
pub open spec fn declared_range(node: AstNodeView) -> Option<TextRange> {
    match node.name {
        Some(name) => Some(name.range),
        None => None,
    }
}

/// The target for a module: where it is defined, under the module's name. A
/// module with a body is focused on the name that its declaration gives it,
/// as the target is that the declared name itself leads to. A module that is
/// a file of its own has no focus, and neither doc comment nor signature.
pub open spec fn module_target(module: Module) -> NavigationTargetView {
    match module.definition {
        ModuleSource::SourceFile(src) => syntax_target(
            src.file_id,
            module_name(module),
            None,
            src.ast@,
            None,
            None,
        ),
        ModuleSource::Module(src) => syntax_target(
            src.file_id,
            module_name(module),
            declared_range(src.ast@),
            src.ast@,
            src.ast@.docs,
            src.ast@.label,
        ),
    }
}

/// The target for a field. A field of a tuple struct has no name.
pub open spec fn field_target(field: FieldSource) -> NavigationTargetView {
    match field {
        FieldSource::Named(src) => source_target(src),
        FieldSource::Pos(src) => syntax_target(
            src.file_id,
            Seq::empty(),
            None,
            src.ast@,
            None,
            None,
        ),
    }
}

/// The target for a definition at module level. A built-in type has none.
pub open spec fn def_target(def: ModuleDef) -> Option<NavigationTargetView> {
    match def {
        ModuleDef::Module(module) => Some(module_target(module)),
        ModuleDef::Item(src) => Some(source_target(src)),
        ModuleDef::BuiltinType => None,
    }
}

impl NavigationTarget {
    pub fn file_id(&self) -> (file_id: FileId)
        ensures
            file_id == self@.file_id,
    {
        self.file_id
    }

    pub fn name(&self) -> (name: &str)
        ensures
            name@ == self@.name,
    {
        self.name.as_str()
    }

    pub fn kind(&self) -> (kind: SyntaxKind)
        ensures
            kind == self@.kind,
    {
        self.kind
    }

    pub fn full_range(&self) -> (range: TextRange)
        ensures
            range == self@.full_range,
    {
        self.full_range
    }

    /// The most interesting range within the full range: that of the name.
    pub fn focus_range(&self) -> (range: Option<TextRange>)
        ensures
            range == self@.focus_range,
    {
        self.focus_range
    }

    /// The focus range where there is one, else the full range.
    pub fn range(&self) -> (range: TextRange)
        ensures
            range == self@.range(),
    {
        match self.focus_range {
            Some(focus) => focus,
            None => self.full_range,
        }
    }

    pub fn container_name(&self) -> (name: Option<&str>)
        ensures
            match name {
                Some(name) => self@.container_name == Some(name@),
                None => self@.container_name is None,
            },
    {
        match &self.container_name {
            Some(name) => Some(name.as_str()),
            None => None,
        }
    }

    pub fn description(&self) -> (description: Option<&str>)
        ensures
            match description {
                Some(description) => self@.description == Some(description@),
                None => self@.description is None,
            },
    {
        match &self.description {
            Some(description) => Some(description.as_str()),
            None => None,
        }
    }

    pub fn docs(&self) -> (docs: Option<&str>)
        ensures
            match docs {
                Some(docs) => self@.docs == Some(docs@),
                None => self@.docs is None,
            },
    {
        match &self.docs {
            Some(docs) => Some(docs.as_str()),
            None => None,
        }
    }

    fn from_syntax(
        file_id: FileId,
        name: String,
        focus_range: Option<TextRange>,
        node: &AstNode,
        docs: Option<String>,
        description: Option<String>,
    ) -> (target: NavigationTarget)
        ensures
            target@ == syntax_target(
                file_id,
                name@,
                focus_range,
                node@,
                text_view(docs),
                text_view(description),
            ),
    {
        NavigationTarget {
            file_id,
            name,
            kind: node.kind,
            full_range: node.range,
            focus_range,
            container_name: None,
            description,
            docs,
        }
    }

    /// The target at a declaration, with the doc comment and the signature
    /// given.
    pub fn from_named(
        file_id: FileId,
        node: &AstNode,
        docs: Option<String>,
        description: Option<String>,
    ) -> (target: NavigationTarget)
        ensures
            target@ == named_target_of(file_id, node@, text_view(docs), text_view(description)),
            node@.wf() ==> target@.wf(),
    {
        match &node.name {
            Some(name) => NavigationTarget::from_syntax(
                file_id,
                name.text.clone(),
                Some(name.range),
                node,
                docs,
                description,
            ),
            None => NavigationTarget::from_syntax(
                file_id,
                String::new(),
                None,
                node,
                docs,
                description,
            ),
        }
    }

    /// The target at a declaration that the semantic model resolved.
    pub fn from_def_source(src: &Source) -> (target: NavigationTarget)
        ensures
            target@ == source_target(*src),
            src.ast@.wf() ==> target@.wf(),
    {
        NavigationTarget::from_named(
            src.file_id,
            &src.ast,
            clone_text(&src.ast.docs),
            clone_text(&src.ast.label),
        )
    }

    /// The target at the definition of a macro.
    pub fn from_macro_def(src: &Source) -> (target: NavigationTarget)
        ensures
            target@ == named_target_of(src.file_id, src.ast@, src.ast@.docs, None),
            src.ast@.wf() ==> target@.wf(),
    {
        NavigationTarget::from_named(src.file_id, &src.ast, clone_text(&src.ast.docs), None)
    }

    pub fn from_symbol(symbol: &FileSymbol) -> (target: NavigationTarget)
        ensures
            target@ == symbol_target(symbol@),
    {
        NavigationTarget {
            file_id: symbol.file_id,
            name: symbol.name.clone(),
            kind: symbol.kind,
            full_range: symbol.range,
            focus_range: symbol.name_range,
            container_name: clone_text(&symbol.container_name),
            description: clone_text(&symbol.description),
            docs: clone_text(&symbol.docs),
        }
    }

    /// The target at the pattern that binds a local variable.
    pub fn from_pat(file_id: FileId, pat: &AstNode) -> (target: NavigationTarget)
        ensures
            target@ == named_target_of(file_id, pat@, None, None),
            pat@.wf() ==> target@.wf(),
    {
        NavigationTarget::from_named(file_id, pat, None, None)
    }

    pub fn from_self_param(file_id: FileId, range: TextRange) -> (target: NavigationTarget)
        ensures
            target@ == self_param_target(file_id, range),
            target@.wf(),
    {
        NavigationTarget {
            file_id,
            name: String::from_str("self"),
            kind: SyntaxKind::Name,
            full_range: range,
            focus_range: None,
            container_name: None,
            description: None,
            docs: None,
        }
    }

    pub fn from_module(module: &Module) -> (target: NavigationTarget)
        ensures
            target@ == module_target(*module),
            module.wf() ==> target@.wf(),
    {
        let name = match &module.name {
            Some(name) => name.clone(),
            None => String::new(),
        };
        match &module.definition {
            ModuleSource::SourceFile(src) => NavigationTarget::from_syntax(
                src.file_id,
                name,
                None,
                &src.ast,
                None,
                None,
            ),
            ModuleSource::Module(src) => {
                let focus_range = match &src.ast.name {
                    Some(declared) => Some(declared.range),
                    None => None,
                };
                NavigationTarget::from_syntax(
                    src.file_id,
                    name,
                    focus_range,
                    &src.ast,
                    clone_text(&src.ast.docs),
                    clone_text(&src.ast.label),
                )
            },
        }
    }

    pub fn from_field(field: &FieldSource) -> (target: NavigationTarget)
        ensures
            target@ == field_target(*field),
    {
        match field {
            FieldSource::Named(src) => NavigationTarget::from_def_source(src),
            FieldSource::Pos(src) => NavigationTarget::from_syntax(
                src.file_id,
                String::new(),
                None,
                &src.ast,
                None,
                None,
            ),
        }
    }

    pub fn from_def(def: &ModuleDef) -> (target: Option<NavigationTarget>)
        ensures
            match def_target(*def) {
                Some(expected) => target matches Some(target) && target@ == expected,
                None => target is None,
            },
    {
        match def {
            ModuleDef::Module(module) => Some(NavigationTarget::from_module(module)),
            ModuleDef::Item(src) => Some(NavigationTarget::from_def_source(src)),
            ModuleDef::BuiltinType => None,
        }
    }
}

} // verus!
