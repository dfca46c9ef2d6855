//! How declarations are put into words: their one-line signatures, and the
//! blocks of text that show them.
use crate::syntax::{text_view, texts_view, SyntaxKind};
use vstd::prelude::*;

verus! {

/// The texts, with `sep` between each two of them.
pub open spec fn join(texts: Seq<Seq<char>>, sep: Seq<char>) -> Seq<char>
    decreases texts.len(),
{
    if texts.len() == 0 {
        Seq::empty()
    } else if texts.len() == 1 {
        texts[0]
    } else {
        join(texts.drop_last(), sep) + sep + texts.last()
    }
}

/// Appends `texts` to `buf`, with `sep` between each two of them.
pub fn append_joined(buf: &mut String, texts: &Vec<String>, sep: &str)
    ensures
        final(buf)@ == old(buf)@ + join(texts_view(texts@), sep@),
{
    let ghost all = texts_view(texts@);
    let mut i: usize = 0;
    assert(buf@ =~= old(buf)@ + join(all.take(0), sep@));
    while i < texts.len()
        invariant
            i <= texts.len(),
            all == texts_view(texts@),
            buf@ == old(buf)@ + join(all.take(i as int), sep@),
        decreases texts.len() - i,
    {
        if i > 0 {
            buf.append(sep);
        }
        buf.append(texts[i].as_str());
        proof {
            let after = all.take(i + 1);
            assert(after.drop_last() =~= all.take(i as int));
            assert(after.last() == texts[i as int]@);
            assert(buf@ =~= old(buf)@ + join(after, sep@));
        }
        i += 1;
    }
    assert(all.take(i as int) =~= all);
}

/// `code` as a block of source code.
pub open spec fn code_markup(code: Seq<char>) -> Seq<char> {
    "```rust\n"@ + code + "\n```"@
}

/// `code` as a block of source code, with `doc`, if there is any, below it.
pub open spec fn code_markup_with_doc(code: Seq<char>, doc: Option<Seq<char>>) -> Seq<char> {
    match doc {
        Some(doc) => code_markup(code) + "\n\n"@ + doc,
        None => code_markup(code),
    }
}

pub fn rust_code_markup(code: &str) -> (markup: String)
    ensures
        markup@ == code_markup(code@),
{
    let mut markup = String::from_str("```rust\n");
    markup.append(code);
    markup.append("\n```");
    markup
}

pub fn rust_code_markup_with_doc(code: &str, doc: Option<&str>) -> (markup: String)
    ensures
        markup@ == code_markup_with_doc(
            code@,
            match doc {
                Some(doc) => Some(doc@),
                None => None,
            },
        ),
{
    let mut markup = rust_code_markup(code);
    match doc {
        Some(doc) => {
            markup.append("\n\n");
            markup.append(doc);
        },
        None => {},
    }
    markup
}

/// The parts of the signature of a declaration, each as it is written in the
/// source: the visibility, the name, the generic parameters, the parameters
/// (`self` first), the return type, the predicates of the `where` clause,
/// and the type that a constant, a static or a field is given.
///
/// A declaration has the parts that its category can have; the others are
/// empty.
#[derive(Clone, Debug, PartialEq, Eq)]
pub struct Signature {
    pub visibility: Option<String>,
    pub name: Option<String>,
    pub generic_parameters: Vec<String>,
    pub parameters: Vec<String>,
    pub ret_type: Option<String>,
    pub where_predicates: Vec<String>,
    pub ascribed_type: Option<String>,
}

pub struct SignatureView {
    pub visibility: Option<Seq<char>>,
    pub name: Option<Seq<char>>,
    pub generic_parameters: Seq<Seq<char>>,
    pub parameters: Seq<Seq<char>>,
    pub ret_type: Option<Seq<char>>,
    pub where_predicates: Seq<Seq<char>>,
    pub ascribed_type: Option<Seq<char>>,
}

impl View for Signature {
    type V = SignatureView;

    open spec fn view(&self) -> SignatureView {
        SignatureView {
            visibility: text_view(self.visibility),
            name: text_view(self.name),
            generic_parameters: texts_view(self.generic_parameters@),
            parameters: texts_view(self.parameters@),
            ret_type: text_view(self.ret_type),
            where_predicates: texts_view(self.where_predicates@),
            ascribed_type: text_view(self.ascribed_type),
        }
    }
}

/// `text` behind `before`; nothing where there is no text.
pub open spec fn prefixed(before: Seq<char>, text: Option<Seq<char>>) -> Seq<char> {
    match text {
        Some(text) => before + text,
        None => Seq::empty(),
    }
}

/// `text` in front of `after`; nothing where there is no text.
pub open spec fn suffixed(text: Option<Seq<char>>, after: Seq<char>) -> Seq<char> {
    match text {
        Some(text) => text + after,
        None => Seq::empty(),
    }
}

/// The generic parameters in angle brackets; nothing where there are none.
pub open spec fn generics_label(generic_parameters: Seq<Seq<char>>) -> Seq<char> {
    if generic_parameters.len() == 0 {
        Seq::empty()
    } else {
        "<"@ + join(generic_parameters, ", "@) + ">"@
    }
}

/// The `where` clause on a line of its own, one predicate to a line;
/// nothing where there are no predicates.
pub open spec fn where_label(where_predicates: Seq<Seq<char>>) -> Seq<char> {
    if where_predicates.len() == 0 {
        Seq::empty()
    } else {
        "\nwhere "@ + join(where_predicates, ",\n      "@)
    }
}

/// The signature of a function on one line: visibility, `fn` and name,
/// generic parameters, parameters, return type; then the `where` clause. The
/// parts are set one blank or one comma and blank apart, however the source
/// spaces them.
pub open spec fn function_label_of(sig: SignatureView) -> Seq<char> {
    suffixed(sig.visibility, " "@) + prefixed("fn "@, sig.name) + generics_label(
        sig.generic_parameters,
    ) + "("@ + join(sig.parameters, ", "@) + ")"@ + prefixed(" -> "@, sig.ret_type) + where_label(
        sig.where_predicates,
    )
}

/// The word that a declaration of `kind` begins with, for the categories
/// whose signature is that word and the name.
pub open spec fn keyword_of(kind: SyntaxKind) -> Option<Seq<char>> {
    match kind {
        SyntaxKind::StructDef => Some("struct "@),
        SyntaxKind::EnumDef => Some("enum "@),
        SyntaxKind::TraitDef => Some("trait "@),
        SyntaxKind::Module => Some("mod "@),
        SyntaxKind::TypeAliasDef => Some("type "@),
        SyntaxKind::ConstDef => Some("const "@),
        SyntaxKind::StaticDef => Some("static "@),
        SyntaxKind::NamedFieldDef => Some(Seq::empty()),
        _ => None,
    }
}

/// The categories whose signature ends with the type that they are given.
pub open spec fn has_ascribed_type(kind: SyntaxKind) -> bool {
    kind == SyntaxKind::ConstDef || kind == SyntaxKind::StaticDef || kind
        == SyntaxKind::NamedFieldDef
}

/// The one-line signature of a declaration of `kind`.
///
/// For a function it is `function_label_of`. For an enum variant it is the
/// name. For a struct, enum, trait, module and type alias it is visibility,
/// keyword and name; for a constant, a static and a named field the type
/// follows, behind a colon. A declaration without a name has no signature,
/// unless it is a function; nor has a macro or any other category.
pub open spec fn short_label_of(kind: SyntaxKind, sig: SignatureView) -> Option<Seq<char>> {
    if kind == SyntaxKind::FnDef {
        Some(function_label_of(sig))
    } else if kind == SyntaxKind::EnumVariant {
        sig.name
    } else {
        match (keyword_of(kind), sig.name) {
            (Some(keyword), Some(name)) => Some(
                suffixed(sig.visibility, " "@) + keyword + name + (if has_ascribed_type(kind) {
                    prefixed(": "@, sig.ascribed_type)
                } else {
                    Seq::empty()
                }),
            ),
            _ => None,
        }
    }
}

fn append_prefixed(buf: &mut String, before: &str, text: &Option<String>)
    ensures
        final(buf)@ == old(buf)@ + prefixed(before@, text_view(*text)),
{
    match text {
        Some(text) => {
            buf.append(before);
            buf.append(text.as_str());
            assert(buf@ =~= old(buf)@ + (before@ + text@));
        },
        None => {
            assert(buf@ =~= old(buf)@ + Seq::<char>::empty());
        },
    }
}

fn append_suffixed(buf: &mut String, text: &Option<String>, after: &str)
    ensures
        final(buf)@ == old(buf)@ + suffixed(text_view(*text), after@),
{
    match text {
        Some(text) => {
            buf.append(text.as_str());
            buf.append(after);
            assert(buf@ =~= old(buf)@ + (text@ + after@));
        },
        None => {
            assert(buf@ =~= old(buf)@ + Seq::<char>::empty());
        },
    }
}

/// The signature of a function on one line.
pub fn function_label(sig: &Signature) -> (label: String)
    ensures
        label@ == function_label_of(sig@),
{
    let mut buf = String::new();
    append_suffixed(&mut buf, &sig.visibility, " ");
    append_prefixed(&mut buf, "fn ", &sig.name);
    let ghost head = buf@;
    if sig.generic_parameters.len() > 0 {
        buf.append("<");
        append_joined(&mut buf, &sig.generic_parameters, ", ");
        buf.append(">");
    }
    assert(buf@ =~= head + generics_label(sig@.generic_parameters));
    buf.append("(");
    append_joined(&mut buf, &sig.parameters, ", ");
    buf.append(")");
    append_prefixed(&mut buf, " -> ", &sig.ret_type);
    let ghost body = buf@;
    if sig.where_predicates.len() > 0 {
        buf.append("\nwhere ");
        append_joined(&mut buf, &sig.where_predicates, ",\n      ");
    }
    assert(buf@ =~= body + where_label(sig@.where_predicates));
    assert(buf@ =~= function_label_of(sig@));
    buf
}

fn keyword(kind: SyntaxKind) -> (word: Option<&'static str>)
    ensures
        match word {
            Some(word) => keyword_of(kind) == Some(word@),
            None => keyword_of(kind) is None,
        },
{
    proof {
        reveal_strlit("");
    }
    match kind {
        SyntaxKind::StructDef => Some("struct "),
        SyntaxKind::EnumDef => Some("enum "),
        SyntaxKind::TraitDef => Some("trait "),
        SyntaxKind::Module => Some("mod "),
        SyntaxKind::TypeAliasDef => Some("type "),
        SyntaxKind::ConstDef => Some("const "),
        SyntaxKind::StaticDef => Some("static "),
        SyntaxKind::NamedFieldDef => {
            assert(""@ =~= Seq::<char>::empty());
            Some("")
        },
        _ => None,
    }
}

/// The one-line signature of a declaration of `kind` with the parts `sig`.
pub fn short_label(kind: SyntaxKind, sig: &Signature) -> (label: Option<String>)
    ensures
        text_view(label) == short_label_of(kind, sig@),
{
    match kind {
        SyntaxKind::FnDef => Some(function_label(sig)),
        SyntaxKind::EnumVariant => match &sig.name {
            Some(name) => Some(name.clone()),
            None => None,
        },
        _ => match (keyword(kind), &sig.name) {
            (Some(word), Some(name)) => {
                let mut buf = String::new();
                append_suffixed(&mut buf, &sig.visibility, " ");
                buf.append(word);
                buf.append(name.as_str());
                let ghost head = buf@;
                match kind {
                    SyntaxKind::ConstDef | SyntaxKind::StaticDef | SyntaxKind::NamedFieldDef => {
                        append_prefixed(&mut buf, ": ", &sig.ascribed_type);
                    },
                    _ => {
                        assert(buf@ =~= head + Seq::<char>::empty());
                    },
                }
                assert(buf@ =~= short_label_of(kind, sig@).unwrap());
                Some(buf)
            },
            _ => None,
        },
    }
}

} // verus!
