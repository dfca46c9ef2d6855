//! What to show when the cursor hovers over a place in the source.
use crate::display::{
    append_joined, code_markup, code_markup_with_doc, join, rust_code_markup,
    rust_code_markup_with_doc,
};
use crate::locator::{at_or_below_widened, lemma_widen_is_idempotent, widen, widened};
use crate::semantics::{
    FieldSource, FileSymbol, InferredTypes, ModuleDef, ModuleSource, NameRefKind, Semantics, Source,
};
use crate::syntax::{clone_text, text_view, texts_view, AstNode, Cursor, SyntaxKind, SyntaxNode};
use crate::text::{RangeInfo, TextRange};
use vstd::prelude::*;

verus! {

/// The blocks of text to show for a place in the source, in order, and
/// whether they were found exactly or are a best guess.
#[derive(Debug, Clone)]
pub struct HoverResult {
    results: Vec<String>,
    exact: bool,
}

pub struct HoverResultView {
    pub results: Seq<Seq<char>>,
    pub exact: bool,
}

impl View for HoverResult {
    type V = HoverResultView;

    closed spec fn view(&self) -> HoverResultView {
        HoverResultView { results: texts_view(self.results@), exact: self.exact }
    }
}

impl Default for HoverResult {
    fn default() -> (res: HoverResult)
        ensures
            res@.results.len() == 0,
            res@.exact,
    {
        HoverResult::new()
    }
}

/// The line that stands between two blocks of a rendered result.
pub open spec fn separator() -> Seq<char> {
    "\n\n---\n"@
}

/// What precedes the blocks of a result: nothing where it is exact, else a
/// warning that it is a guess.
pub open spec fn caveat(res: HoverResultView) -> Seq<char> {
    if res.exact {
        Seq::empty()
    } else if res.results.len() == 0 {
        "Failed to exactly resolve the symbol. This is probably because rust_analyzer does not yet support traits."@
            + separator()
    } else {
        "Failed to exactly resolve the symbol. This is probably because rust_analyzer does not yet support traits."@
            + "  \nThese items were found instead:"@ + separator()
    }
}

/// A result as one text.
pub open spec fn markup_of(res: HoverResultView) -> Seq<char> {
    caveat(res) + join(res.results, separator())
}

/// `item` as a list of none or one.
pub open spec fn optional(item: Option<Seq<char>>) -> Seq<Seq<char>> {
    match item {
        Some(item) => seq![item],
        None => Seq::empty(),
    }
}

impl HoverResult {
    /// An empty result. It counts as exact.
    pub fn new() -> (res: HoverResult)
        ensures
            res@.results.len() == 0,
            res@.exact,
    {
        HoverResult { results: Vec::new(), exact: true }
    }

    /// An empty result that is marked as a guess.
    pub fn approximate() -> (res: HoverResult)
        ensures
            res@.results.len() == 0,
            !res@.exact,
    {
        HoverResult { results: Vec::new(), exact: false }
    }

    /// Adds `item`, if there is one, behind the blocks already there.
    pub fn extend(&mut self, item: Option<String>)
        ensures
            final(self)@.results == old(self)@.results + optional(text_view(item)),
            final(self)@.exact == old(self)@.exact,
    {
        match item {
            Some(item) => {
                proof {
                    assert(texts_view(self.results@.push(item)) =~= texts_view(self.results@).push(
                        item@,
                    ));
                }
                self.results.push(item);
            },
            None => {},
        }
    }

    pub fn is_exact(&self) -> (exact: bool)
        ensures
            exact == self@.exact,
    {
        self.exact
    }

    pub fn is_empty(&self) -> (empty: bool)
        ensures
            empty == (self@.results.len() == 0),
    {
        self.results.is_empty()
    }

    pub fn len(&self) -> (len: usize)
        ensures
            len == self@.results.len(),
    {
        self.results.len()
    }

    /// The first block, if there is any.
    pub fn first(&self) -> (first: Option<&str>)
        ensures
            self@.results.len() == 0 ==> first is None,
            self@.results.len() > 0 ==> first is Some && first.unwrap()@ == self@.results[0],
    {
        if self.results.len() > 0 {
            Some(self.results[0].as_str())
        } else {
            None
        }
    }

    /// The blocks, in order.
    pub fn results(&self) -> (results: &[String])
        ensures
            texts_view(results@) == self@.results,
    {
        self.results.as_slice()
    }

    /// The result as one text to display: the blocks with a separator line
    /// between them and, where the result is a guess, a warning in front.
    pub fn to_markup(&self) -> (markup: String)
        ensures
            markup@ == markup_of(self@),
    {
        let mut markup = String::new();
        if !self.exact {
            markup.append(
                "Failed to exactly resolve the symbol. This is probably because rust_analyzer does not yet support traits.",
            );
            if !self.results.is_empty() {
                markup.append("  \nThese items were found instead:");
            }
            markup.append("\n\n---\n");
        }
        assert(markup@ =~= caveat(self@));
        append_joined(&mut markup, &self.results, "\n\n---\n");
        markup
    }
}

/// The block for an entity with documentation `docs` and signature `desc`:
/// the signature as code with the documentation below; the documentation
/// alone where there is no signature; nothing where there is neither.
pub open spec fn hover_text_of(docs: Option<Seq<char>>, desc: Option<Seq<char>>) -> Option<
    Seq<char>,
> {
    match desc {
        Some(desc) => Some(code_markup_with_doc(desc, docs)),
        None => docs,
    }
}

pub fn hover_text(docs: Option<String>, desc: Option<String>) -> (text: Option<String>)
    ensures
        text_view(text) == hover_text_of(text_view(docs), text_view(desc)),
{
    match desc {
        Some(desc) => match docs {
            Some(docs) => Some(rust_code_markup_with_doc(desc.as_str(), Some(docs.as_str()))),
            None => Some(rust_code_markup_with_doc(desc.as_str(), None)),
        },
        None => docs,
    }
}

/// The block for a declaration: its signature with its doc comment below.
pub open spec fn source_text(ast: AstNode) -> Option<Seq<char>> {
    hover_text_of(ast@.docs, ast@.label)
}

/// The block that the class of a name reference gives by itself.
///
/// A macro has no signature to show. A field of a tuple struct, a module
/// that is a file of its own, a built-in type, a `Self` that stands for no
/// struct, union or enum, a local variable, the `self` parameter and a
/// generic parameter give nothing, as does a reference with no class.
pub open spec fn kind_text(kind: Option<NameRefKind>) -> Option<Seq<char>> {
    match kind {
        Some(NameRefKind::Method(src)) => source_text(src.ast),
        Some(NameRefKind::Macro(src)) => hover_text_of(src.ast@.docs, None),
        Some(NameRefKind::FieldAccess(FieldSource::Named(src))) => source_text(src.ast),
        Some(NameRefKind::AssocItem(src)) => source_text(src.ast),
        Some(NameRefKind::Def(ModuleDef::Module(module))) => match module.definition {
            ModuleSource::Module(src) => source_text(src.ast),
            ModuleSource::SourceFile(_) => None,
        },
        Some(NameRefKind::Def(ModuleDef::Item(src))) => source_text(src.ast),
        Some(NameRefKind::SelfType(Some(src))) => source_text(src.ast),
        _ => None,
    }
}

/// For a local variable and for the `self` parameter the symbol index is
/// not asked: what there is to show of them is their type.
pub open spec fn suppresses_fallback(kind: Option<NameRefKind>) -> bool {
    kind matches Some(kind) && (kind is Pat || kind is SelfParam)
}

/// The blocks for the symbols of the index, one for each symbol that has a
/// description or documentation, in the order of the symbols.
pub open spec fn symbol_texts(symbols: Seq<FileSymbol>) -> Seq<Seq<char>>
    decreases symbols.len(),
{
    if symbols.len() == 0 {
        Seq::empty()
    } else {
        symbol_texts(symbols.drop_last()) + optional(
            hover_text_of(symbols.last()@.docs, symbols.last()@.description),
        )
    }
}

/// The blocks for a name reference: what its class gives, and where that is
/// nothing and the index may be asked, what the index gives.
pub open spec fn name_ref_texts(semantics: Semantics) -> Seq<Seq<char>> {
    if kind_text(semantics.name_ref_kind) is None && !suppresses_fallback(
        semantics.name_ref_kind,
    ) {
        symbol_texts(semantics.symbols@)
    } else {
        optional(kind_text(semantics.name_ref_kind))
    }
}

/// The block for the declaration whose name is under the cursor. Only the
/// declaration categories have one; a macro has no signature to show.
pub open spec fn declaration_text(parent: Option<AstNode>) -> Option<Seq<char>> {
    match parent {
        Some(node) => if node.kind == SyntaxKind::MacroCall {
            hover_text_of(node@.docs, None)
        } else if node.kind.spec_is_declaration() {
            source_text(node)
        } else {
            None
        },
        None => None,
    }
}

/// What a name under the cursor gives: the range of the name and the blocks
/// for it. A name reference is looked at first, then a declared name; one
/// that yields no block gives nothing.
pub open spec fn name_hover(cursor: Cursor, semantics: Semantics) -> Option<
    (TextRange, Seq<Seq<char>>),
> {
    match cursor.name_ref {
        Some(name_ref) => if name_ref_texts(semantics).len() > 0 {
            Some((name_ref.range, name_ref_texts(semantics)))
        } else {
            None
        },
        None => match cursor.name {
            Some(site) => match declaration_text(site.parent) {
                Some(text) => Some((site.name.range, seq![text])),
                None => None,
            },
            None => None,
        },
    }
}

/// What the type of the expression or pattern around the cursor gives.
pub open spec fn type_hover(cursor: Cursor, semantics: Semantics) -> Option<
    (TextRange, Seq<Seq<char>>),
> {
    match (cursor.expr_or_pat, semantics.type_text) {
        (Some(node), Some(ty)) => Some((node.range, seq![code_markup(ty@)])),
        _ => None,
    }
}

/// The hover for a cursor: the range and the blocks of the name under the
/// cursor and, where that gives nothing, those of the type of what is around
/// it. It is exact in either case.
pub open spec fn hover_of(cursor: Cursor, semantics: Semantics) -> Option<
    (TextRange, HoverResultView),
> {
    match name_hover(cursor, semantics) {
        Some((range, results)) => Some((range, HoverResultView { results, exact: true })),
        None => match type_hover(cursor, semantics) {
            Some((range, results)) => Some((range, HoverResultView { results, exact: true })),
            None => None,
        },
    }
}

fn from_def_source(src: &Source) -> (text: Option<String>)
    ensures
        text_view(text) == source_text(src.ast),
{
    hover_text(clone_text(&src.ast.docs), clone_text(&src.ast.label))
}

fn kind_hover(kind: &Option<NameRefKind>) -> (text: Option<String>)
    ensures
        text_view(text) == kind_text(*kind),
{
    match kind {
        Some(NameRefKind::Method(it)) => from_def_source(it),
        Some(NameRefKind::Macro(it)) => hover_text(clone_text(&it.ast.docs), None),
        Some(NameRefKind::FieldAccess(FieldSource::Named(it))) => from_def_source(it),
        Some(NameRefKind::FieldAccess(FieldSource::Pos(_))) => None,
        Some(NameRefKind::AssocItem(it)) => from_def_source(it),
        Some(NameRefKind::Def(ModuleDef::Module(it))) => match &it.definition {
            ModuleSource::Module(it) => from_def_source(it),
            ModuleSource::SourceFile(_) => None,
        },
        Some(NameRefKind::Def(ModuleDef::Item(it))) => from_def_source(it),
        Some(NameRefKind::Def(ModuleDef::BuiltinType)) => None,
        Some(NameRefKind::SelfType(Some(it))) => from_def_source(it),
        Some(NameRefKind::SelfType(None)) => None,
        Some(NameRefKind::Pat(_)) => None,
        Some(NameRefKind::SelfParam(_)) => None,
        Some(NameRefKind::GenericParam(_)) => None,
        None => None,
    }
}

fn declaration_hover(parent: &Option<AstNode>) -> (text: Option<String>)
    ensures
        text_view(text) == declaration_text(*parent),
{
    match parent {
        Some(node) => match node.kind {
            SyntaxKind::StructDef
            | SyntaxKind::EnumDef
            | SyntaxKind::EnumVariant
            | SyntaxKind::FnDef
            | SyntaxKind::TypeAliasDef
            | SyntaxKind::ConstDef
            | SyntaxKind::StaticDef
            | SyntaxKind::TraitDef
            | SyntaxKind::NamedFieldDef
            | SyntaxKind::Module => hover_text(clone_text(&node.docs), clone_text(&node.label)),
            SyntaxKind::MacroCall => hover_text(clone_text(&node.docs), None),
            _ => None,
        },
        None => None,
    }
}

/// What to show for the cursor: the range of source text that the hover is
/// about, and the blocks of text for it.
///
/// On a name reference the blocks are those of the entity referred to; where
/// the class of the reference yields none, those of the symbols of the index
/// that carry the name. On a declared name the block is that of the
/// declaration. Where neither yields a block, the type of the expression or
/// pattern around the cursor is shown. There is no hover where nothing of
/// this yields a block. A hover is never marked as a guess.
pub fn hover(cursor: &Cursor, semantics: &Semantics) -> (res: Option<RangeInfo<HoverResult>>)
    ensures
        match hover_of(*cursor, *semantics) {
            Some((range, expected)) => res matches Some(found) && found.range == range
                && found.info@ == expected,
            None => res is None,
        },
{
    let mut res = HoverResult::new();
    let mut range: Option<TextRange> = None;
    match &cursor.name_ref {
        Some(name_ref) => {
            let no_fallback = match &semantics.name_ref_kind {
                Some(NameRefKind::Pat(_)) => true,
                Some(NameRefKind::SelfParam(_)) => true,
                _ => false,
            };
            res.extend(kind_hover(&semantics.name_ref_kind));
            if res.is_empty() && !no_fallback {
                let mut i: usize = 0;
                while i < semantics.symbols.len()
                    invariant
                        i <= semantics.symbols.len(),
                        res@.exact,
                        res@.results == symbol_texts(semantics.symbols@.take(i as int)),
                    decreases semantics.symbols.len() - i,
                {
                    let sym = &semantics.symbols[i];
                    proof {
                        assert(semantics.symbols@.take(i + 1).drop_last()
                            =~= semantics.symbols@.take(i as int));
                    }
                    res.extend(hover_text(clone_text(&sym.docs), clone_text(&sym.description)));
                    i += 1;
                }
                assert(semantics.symbols@.take(i as int) =~= semantics.symbols@);
            }
            if !res.is_empty() {
                range = Some(name_ref.range);
            }
        },
        None => match &cursor.name {
            Some(site) => {
                res.extend(declaration_hover(&site.parent));
                if !res.is_empty() {
                    range = Some(site.name.range);
                }
            },
            None => {},
        },
    }
    assert(match name_hover(*cursor, *semantics) {
        Some((r, texts)) => range == Some(r) && res@.results =~= texts,
        None => range is None && res@.results.len() == 0,
    });
    if range.is_none() {
        match &cursor.expr_or_pat {
            Some(node) => {
                match &semantics.type_text {
                    Some(ty) => res.extend(Some(rust_code_markup(ty.as_str()))),
                    None => {},
                }
                range = Some(node.range);
            },
            None => {
                return None;
            },
        }
    }
    match range {
        Some(range) => {
            if res.is_empty() {
                return None;
            }
            assert(res@ =~= (HoverResultView { results: res@.results, exact: true }));
            Some(RangeInfo::new(range, res))
        },
        None => None,
    }
}

/// The type of the expression or pattern that a selection stands for.
///
/// The selection is widened to the first expression or pattern among the
/// nodes that span the same text as the smallest node around it. The type is
/// that of the node as an expression, where the node is one and has a type,
/// else that of the node as a pattern. There is none where the selection
/// stands for no expression or pattern, or where no type is known.
pub open spec fn inferred_type_of(ancestors: Seq<SyntaxNode>, types: InferredTypes) -> Option<
    Seq<char>,
> {
    match widened(ancestors) {
        Some(node) => if node.is_expr && types.as_expr is Some {
            text_view(types.as_expr)
        } else if node.is_pat {
            text_view(types.as_pat)
        } else {
            None
        },
        None => None,
    }
}

/// The type of the expression or pattern that a selection stands for, as
/// text. `ancestors` holds the smallest node around the selection and the
/// nodes above it; `types` what is inferred of the node that the selection
/// is widened to.
pub fn type_of(ancestors: &Vec<SyntaxNode>, types: &InferredTypes) -> (ty: Option<String>)
    ensures
        text_view(ty) == inferred_type_of(ancestors@, *types),
{
    match widen(ancestors) {
        Some(node) => {
            if node.is_expr && types.as_expr.is_some() {
                clone_text(&types.as_expr)
            } else if node.is_pat {
                clone_text(&types.as_pat)
            } else {
                None
            }
        },
        None => None,
    }
}

/// A hover shows at least one block and is exact. In particular it is exact
/// where the class of the name reference under the cursor yields a block,
/// and that block is then all that is shown.
pub proof fn lemma_hover_is_exact(cursor: Cursor, semantics: Semantics)
    ensures
        hover_of(cursor, semantics) matches Some((_, res)) ==> res.exact && res.results.len()
            > 0,
        cursor.name_ref is Some && kind_text(semantics.name_ref_kind) is Some ==> hover_of(
            cursor,
            semantics,
        ) == Some(
            (
                cursor.name_ref.unwrap().range,
                HoverResultView {
                    results: seq![kind_text(semantics.name_ref_kind).unwrap()],
                    exact: true,
                },
            ),
        ),
{
}

/// For a local variable and for `self` the symbol index plays no part: the
/// hover is the same whatever symbols the index holds.
pub proof fn lemma_no_fallback_for_locals(cursor: Cursor, semantics: Semantics, other: Semantics)
    requires
        suppresses_fallback(semantics.name_ref_kind),
        other.name_ref_kind == semantics.name_ref_kind,
        other.type_text == semantics.type_text,
    ensures
        hover_of(cursor, semantics) == hover_of(cursor, other),
{
}

/// The blocks for the symbols of two lists, one behind the other, are the
/// blocks for the first list followed by those for the second.
pub proof fn lemma_symbol_texts_concat(first: Seq<FileSymbol>, second: Seq<FileSymbol>)
    ensures
        symbol_texts(first + second) == symbol_texts(first) + symbol_texts(second),
    decreases second.len(),
{
    if second.len() == 0 {
        assert(first + second =~= first);
    } else {
        lemma_symbol_texts_concat(first, second.drop_last());
        assert((first + second).drop_last() =~= first + second.drop_last());
        assert((first + second).last() == second.last());
    }
}

/// With several candidates for a name that has no class, the blocks of the
/// hover are those of the candidates one by one, in their order: each
/// candidate contributes, at its place, exactly the blocks that the index
/// gives for it alone, which is none or one.
pub proof fn lemma_candidates_are_independent(symbols: Seq<FileSymbol>, i: int)
    requires
        0 <= i < symbols.len(),
    ensures
        symbol_texts(symbols) == symbol_texts(symbols.take(i)) + symbol_texts(seq![symbols[i]])
            + symbol_texts(symbols.skip(i + 1)),
        symbol_texts(seq![symbols[i]]) == optional(
            hover_text_of(symbols[i]@.docs, symbols[i]@.description),
        ),
        symbol_texts(symbols).len() == symbol_texts(symbols.take(i)).len() + symbol_texts(
            seq![symbols[i]],
        ).len() + symbol_texts(symbols.skip(i + 1)).len(),
{
    let one = seq![symbols[i]];
    lemma_symbol_texts_concat(symbols.take(i), one);
    lemma_symbol_texts_concat(symbols.take(i) + one, symbols.skip(i + 1));
    assert(symbols =~= symbols.take(i) + one + symbols.skip(i + 1));
    assert(one.drop_last() =~= Seq::<FileSymbol>::empty());
    assert(symbol_texts(one.drop_last()) =~= Seq::<Seq<char>>::empty());
    assert(one.last() == symbols[i]);
    assert(symbol_texts(one) =~= optional(
        hover_text_of(symbols[i]@.docs, symbols[i]@.description),
    ));
}

/// On a name reference that has no class, the hover shows the blocks of the
/// candidates that the index offers, and nothing else.
pub proof fn lemma_unclassified_hover_shows_candidates(cursor: Cursor, semantics: Semantics)
    requires
        cursor.name_ref is Some,
        semantics.name_ref_kind is None,
        symbol_texts(semantics.symbols@).len() > 0,
    ensures
        hover_of(cursor, semantics) == Some(
            (
                cursor.name_ref.unwrap().range,
                HoverResultView { results: symbol_texts(semantics.symbols@), exact: true },
            ),
        ),
{
}

/// The type of a selection within an expression is that of the whole
/// expression: where the selection is widened to the expression, the type is
/// the same as for the selection of the text that the expression spans,
/// whose smallest node lies at or below the expression.
pub proof fn lemma_type_of_selection_within(
    ancestors: Seq<SyntaxNode>,
    j: int,
    types: InferredTypes,
)
    requires
        at_or_below_widened(ancestors, j),
    ensures
        inferred_type_of(ancestors.skip(j), types) == inferred_type_of(ancestors, types),
{
    lemma_widen_is_idempotent(ancestors, j);
}

/// The range that a hover is about spans the cursor, where the nodes under
/// the cursor were located at it.
pub proof fn lemma_hover_spans_the_cursor(cursor: Cursor, semantics: Semantics, offset: u32)
    requires
        cursor@.is_at(offset),
    ensures
        hover_of(cursor, semantics) matches Some((range, _)) ==> range.spec_contains_offset(
            offset,
        ),
{
}

} // verus!
