//! Finds the nodes of a syntax tree that lie under a cursor.
//!
//! The tree itself is not asked from here: a parser may stop the program on
//! a text that it does not expect, and nothing said of the text beforehand
//! rules that out. So the caller asks the tree for the leaves at an offset,
//! or for the smallest node around a range, and hands in each with the nodes
//! above it. Whether what was handed in can be such a path, and which of its
//! nodes the cursor is on, is decided here.
use crate::syntax::{
    kind_of_name, name_view, AstNode, AstNodeView, Cursor, CursorView, Name, NameSite,
    NameSiteView, NameView, SyntaxKind, SyntaxNode,
};
use crate::text::TextRange;
use vstd::prelude::*;

verus! {

/// A node as the tree hands it out: the name of its category, where it
/// starts and ends, whether it is an expression or a pattern, the name that
/// it declares (its first child that is a name), and whether it is a module
/// that ends in a semicolon.
#[derive(Clone, Debug, PartialEq, Eq)]
pub struct RawNode {
    pub kind: String,
    pub start: u32,
    pub end: u32,
    pub is_expr: bool,
    pub is_pat: bool,
    pub name: Option<Name>,
    pub has_semi: bool,
}

pub struct RawNodeView {
    pub kind: Seq<char>,
    pub start: u32,
    pub end: u32,
    pub is_expr: bool,
    pub is_pat: bool,
    pub name: Option<NameView>,
    pub has_semi: bool,
}

impl DeepView for RawNode {
    type V = RawNodeView;

    open spec fn deep_view(&self) -> RawNodeView {
        RawNodeView {
            kind: self.kind@,
            start: self.start,
            end: self.end,
            is_expr: self.is_expr,
            is_pat: self.is_pat,
            name: name_view(self.name),
            has_semi: self.has_semi,
        }
    }
}

/// The node that the tree hands out as `raw`.
pub open spec fn syntax_node(raw: RawNodeView) -> SyntaxNode {
    SyntaxNode {
        kind: kind_of_name(raw.kind),
        range: TextRange { start: raw.start, end: raw.end },
        is_expr: raw.is_expr,
        is_pat: raw.is_pat,
    }
}

pub open spec fn syntax_chain(raw: Seq<RawNodeView>) -> Seq<SyntaxNode> {
    raw.map_values(|node: RawNodeView| syntax_node(node))
}

pub open spec fn syntax_chains(raw: Seq<Seq<RawNodeView>>) -> Seq<Seq<SyntaxNode>> {
    raw.map_values(|chain: Seq<RawNodeView>| syntax_chain(chain))
}

/// Each node of `chain` lies within the next one.
pub open spec fn nested(chain: Seq<SyntaxNode>) -> bool {
    forall|i: int|
        0 <= i < chain.len() - 1 ==> (#[trigger] chain[i + 1]).range.spec_contains_range(
            chain[i].range,
        )
}

/// `chain` leads from a leaf at `offset` up the tree: each node lies within
/// the next one, and each spans `offset`.
pub open spec fn nested_at(chain: Seq<SyntaxNode>, offset: u32) -> bool {
    &&& nested(chain)
    &&& forall|i: int|
        0 <= i < chain.len() ==> (#[trigger] chain[i]).range.spec_contains_offset(offset)
}

/// `chain` where it leads from a leaf at `offset` up the tree; no node at
/// all where it does not.
pub open spec fn chain_at(chain: Seq<SyntaxNode>, offset: u32) -> Seq<SyntaxNode> {
    if nested_at(chain, offset) {
        chain
    } else {
        Seq::empty()
    }
}

pub open spec fn chains_at(chains: Seq<Seq<SyntaxNode>>, offset: u32) -> Seq<Seq<SyntaxNode>> {
    chains.map_values(|chain: Seq<SyntaxNode>| chain_at(chain, offset))
}

/// `chain` leads from a node around `range` up the tree: each node lies
/// within the next one, and the first spans `range`.
pub open spec fn nested_around(chain: Seq<SyntaxNode>, range: TextRange) -> bool {
    &&& nested(chain)
    &&& chain.len() > 0
    &&& chain[0].range.spec_contains_range(range)
}

/// `chain` where it leads from a node around `range` up the tree; no node
/// at all where it does not.
pub open spec fn chain_around(chain: Seq<SyntaxNode>, range: TextRange) -> Seq<SyntaxNode> {
    if nested_around(chain, range) {
        chain
    } else {
        Seq::empty()
    }
}

/// The nodes of each list of a list of lists.
pub open spec fn chains_view(chains: Seq<Vec<SyntaxNode>>) -> Seq<Seq<SyntaxNode>> {
    chains.map_values(|chain: Vec<SyntaxNode>| chain@)
}

pub open spec fn is_expr_or_pat(node: SyntaxNode) -> bool {
    node.is_expr || node.is_pat
}

/// The place of the first node of `kind` in `chain`, not counting those
/// before `from`.
pub open spec fn first_of_kind(chain: Seq<SyntaxNode>, kind: SyntaxKind, from: int) -> Option<int>
    decreases chain.len() - from,
{
    if from < 0 || from >= chain.len() {
        None
    } else if chain[from].kind == kind {
        Some(from)
    } else {
        first_of_kind(chain, kind, from + 1)
    }
}

/// The innermost node of `kind` at the cursor: in the first chain that has
/// a node of that kind, not counting the chains before `from`, the first
/// such node. Given are the number of the chain and the place in it.
pub open spec fn node_of_kind(chains: Seq<Seq<SyntaxNode>>, kind: SyntaxKind, from: int) -> Option<
    (int, int),
>
    decreases chains.len() - from,
{
    if from < 0 || from >= chains.len() {
        None
    } else {
        match first_of_kind(chains[from], kind, 0) {
            Some(depth) => Some((from, depth)),
            None => node_of_kind(chains, kind, from + 1),
        }
    }
}

/// The first expression or pattern in `chain`, not counting the nodes
/// before `from`.
pub open spec fn first_expr_or_pat(chain: Seq<SyntaxNode>, from: int) -> Option<SyntaxNode>
    decreases chain.len() - from,
{
    if from < 0 || from >= chain.len() {
        None
    } else if is_expr_or_pat(chain[from]) {
        Some(chain[from])
    } else {
        first_expr_or_pat(chain, from + 1)
    }
}

/// `a` spans less text than `b`.
pub open spec fn shorter(a: SyntaxNode, b: SyntaxNode) -> bool {
    a.range.spec_len() < b.range.spec_len()
}

/// The first expression or pattern among the nodes of two chains, taken in
/// the order in which the chains are merged by length.
///
/// The merge takes nodes from one chain, `right` telling which, and goes
/// over to the other chain only when the node that is next there is
/// strictly shorter than the node that is next here; when one chain is used
/// up, the rest of the other follows. Nodes before `i` in `left` and before
/// `j` in `right` are not counted.
pub open spec fn merged_first(
    left: Seq<SyntaxNode>,
    right: Seq<SyntaxNode>,
    i: int,
    j: int,
    on_right: bool,
) -> Option<SyntaxNode>
    decreases left.len() - i + right.len() - j,
{
    if i < 0 || j < 0 || i > left.len() || j > right.len() {
        None
    } else if i == left.len() {
        first_expr_or_pat(right, j)
    } else if j == right.len() {
        first_expr_or_pat(left, i)
    } else if on_right {
        if is_expr_or_pat(right[j]) {
            Some(right[j])
        } else {
            merged_first(
                left,
                right,
                i,
                j + 1,
                !(j + 1 < right.len() && shorter(left[i], right[j + 1])),
            )
        }
    } else {
        if is_expr_or_pat(left[i]) {
            Some(left[i])
        } else {
            merged_first(
                left,
                right,
                i + 1,
                j,
                i + 1 < left.len() && shorter(right[j], left[i + 1]),
            )
        }
    }
}

/// The chain that the merge of two chains begins with: the left one, unless
/// the first node of the right one is strictly shorter.
pub open spec fn begins_right(left: Seq<SyntaxNode>, right: Seq<SyntaxNode>) -> bool {
    left.len() > 0 && right.len() > 0 && shorter(right[0], left[0])
}

/// The smallest expression or pattern around the cursor: the first one
/// among the nodes above the leaves at the cursor, with the chains of the
/// left and the right leaf merged by length. A tree has at most two leaves
/// at an offset; chains behind the second are not looked at.
pub open spec fn nearest_expr_or_pat_of(chains: Seq<Seq<SyntaxNode>>) -> Option<SyntaxNode> {
    if chains.len() == 0 {
        None
    } else if chains.len() == 1 {
        first_expr_or_pat(chains[0], 0)
    } else {
        merged_first(chains[0], chains[1], 0, 0, begins_right(chains[0], chains[1]))
    }
}

/// The expression or pattern that a selection stands for: the first one
/// among the nodes of `ancestors`, not counting those before `from`, as long
/// as the nodes span the same text as the first node of all.
pub open spec fn widen_from(ancestors: Seq<SyntaxNode>, from: int) -> Option<SyntaxNode>
    decreases ancestors.len() - from,
{
    if from < 0 || from >= ancestors.len() || ancestors[from].range != ancestors[0].range {
        None
    } else if is_expr_or_pat(ancestors[from]) {
        Some(ancestors[from])
    } else {
        widen_from(ancestors, from + 1)
    }
}

/// The expression or pattern that a selection stands for, given the
/// smallest node around the selection and the nodes above it: the first
/// expression or pattern among those of them that span the same text as the
/// smallest node.
pub open spec fn widened(ancestors: Seq<SyntaxNode>) -> Option<SyntaxNode> {
    widen_from(ancestors, 0)
}

/// The declaration above a name, as far as the tree tells: it has neither
/// doc comment nor signature. A name that does not lie within the node is
/// not its name.
pub open spec fn declaration_of(node: SyntaxNode, name: Option<NameView>, has_semi: bool) -> AstNodeView {
    AstNodeView {
        kind: node.kind,
        range: node.range,
        name: match name {
            Some(name) => if node.range.spec_contains_range(name.range) {
                Some(name)
            } else {
                None
            },
            None => None,
        },
        docs: None,
        label: None,
        has_semi,
    }
}

/// The leaves at `offset`, each with the nodes above it, as they were
/// handed in. A chain of nodes that does not lead from a leaf at `offset` up
/// a tree counts for nothing.
pub open spec fn chains_of(leaves: Seq<Seq<RawNodeView>>, offset: u32) -> Seq<Seq<SyntaxNode>> {
    chains_at(syntax_chains(leaves), offset)
}

/// What stands at `offset`, given the leaves there with the nodes above
/// them.
pub open spec fn cursor_of(leaves: Seq<Seq<RawNodeView>>, offset: u32) -> CursorView {
    let chains = chains_of(leaves, offset);
    CursorView {
        name_ref: match node_of_kind(chains, SyntaxKind::NameRef, 0) {
            Some((leaf, depth)) => Some(chains[leaf][depth]),
            None => None,
        },
        name: match node_of_kind(chains, SyntaxKind::Name, 0) {
            Some((leaf, depth)) => Some(
                NameSiteView {
                    name: chains[leaf][depth],
                    parent: if depth + 1 < chains[leaf].len() {
                        Some(
                            declaration_of(
                                chains[leaf][depth + 1],
                                leaves[leaf][depth + 1].name,
                                leaves[leaf][depth + 1].has_semi,
                            ),
                        )
                    } else {
                        None
                    },
                },
            ),
            None => None,
        },
        expr_or_pat: nearest_expr_or_pat_of(chains),
    }
}

/// The smallest node around `range`, followed by the nodes above it up to
/// the root, as they were handed in. A chain of nodes that does not lead
/// from a node around `range` up a tree counts for nothing.
pub open spec fn covering_chain_of(chain: Seq<RawNodeView>, range: TextRange) -> Seq<SyntaxNode> {
    chain_around(syntax_chain(chain), range)
}

impl CursorView {
    /// The cursor is at `offset`: the name reference is one and spans the
    /// offset, as do the name and the expression or pattern; the declaration
    /// above the name holds the name under the cursor and the name that it
    /// declares.
    pub open spec fn is_at(self, offset: u32) -> bool {
        &&& self.name_ref matches Some(node) ==> node.kind == SyntaxKind::NameRef
            && node.range.spec_contains_offset(offset)
        &&& self.name matches Some(site) ==> {
            &&& site.name.kind == SyntaxKind::Name
            &&& site.name.range.spec_contains_offset(offset)
            &&& site.parent matches Some(parent) ==> parent.range.spec_contains_range(
                site.name.range,
            ) && parent.wf()
        }
        &&& self.expr_or_pat matches Some(node) ==> is_expr_or_pat(node)
            && node.range.spec_contains_offset(offset)
    }
}

fn node_from_raw(raw: &RawNode) -> (node: SyntaxNode)
    ensures
        node == syntax_node(raw.deep_view()),
{
    SyntaxNode {
        kind: SyntaxKind::from_name(&raw.kind),
        range: TextRange::from_to(raw.start, raw.end),
        is_expr: raw.is_expr,
        is_pat: raw.is_pat,
    }
}

fn chain_from_raw(raw: &Vec<RawNode>) -> (chain: Vec<SyntaxNode>)
    ensures
        chain@ == syntax_chain(raw.deep_view()),
{
    let mut chain: Vec<SyntaxNode> = Vec::new();
    let mut i: usize = 0;
    while i < raw.len()
        invariant
            i <= raw.len(),
            chain@.len() == i,
            forall|j: int| 0 <= j < i ==> chain@[j] == syntax_node(raw@[j].deep_view()),
        decreases raw.len() - i,
    {
        chain.push(node_from_raw(&raw[i]));
        i += 1;
    }
    assert(chain@ =~= syntax_chain(raw.deep_view()));
    chain
}

fn chains_from_raw(raw: &Vec<Vec<RawNode>>) -> (chains: Vec<Vec<SyntaxNode>>)
    ensures
        chains_view(chains@) == syntax_chains(raw.deep_view()),
{
    let mut chains: Vec<Vec<SyntaxNode>> = Vec::new();
    let mut i: usize = 0;
    while i < raw.len()
        invariant
            i <= raw.len(),
            chains@.len() == i,
            forall|j: int| 0 <= j < i ==> chains@[j]@ == syntax_chain(raw@[j].deep_view()),
        decreases raw.len() - i,
    {
        chains.push(chain_from_raw(&raw[i]));
        i += 1;
    }
    assert(chains_view(chains@) =~= syntax_chains(raw.deep_view()));
    chains
}

fn is_nested(chain: &Vec<SyntaxNode>) -> (yes: bool)
    ensures
        yes == nested(chain@),
{
    let mut i: usize = 1;
    while i < chain.len()
        invariant
            1 <= i,
            forall|j: int|
                0 <= j < i - 1 && j < chain.len() - 1 ==> (#[trigger] chain@[j + 1]).range.spec_contains_range(
                    chain@[j].range,
                ),
        decreases chain.len() - i,
    {
        if !chain[i].range.contains_range(chain[i - 1].range) {
            assert(!chain@[(i - 1) + 1].range.spec_contains_range(chain@[i - 1].range));
            return false;
        }
        i += 1;
    }
    true
}

fn is_nested_at(chain: &Vec<SyntaxNode>, offset: u32) -> (yes: bool)
    ensures
        yes == nested_at(chain@, offset),
{
    if !is_nested(chain) {
        return false;
    }
    let mut i: usize = 0;
    while i < chain.len()
        invariant
            i <= chain.len(),
            forall|j: int| 0 <= j < i ==> (#[trigger] chain@[j]).range.spec_contains_offset(offset),
        decreases chain.len() - i,
    {
        if !chain[i].range.contains_offset(offset) {
            return false;
        }
        i += 1;
    }
    true
}

fn copy_of(chain: &Vec<SyntaxNode>) -> (copy: Vec<SyntaxNode>)
    ensures
        copy@ == chain@,
{
    let mut copy: Vec<SyntaxNode> = Vec::new();
    let mut i: usize = 0;
    while i < chain.len()
        invariant
            i <= chain.len(),
            copy@ == chain@.take(i as int),
        decreases chain.len() - i,
    {
        copy.push(chain[i]);
        assert(chain@.take(i + 1) =~= chain@.take(i as int).push(chain@[i as int]));
        i += 1;
    }
    assert(chain@.take(i as int) =~= chain@);
    copy
}

/// The chains that lead from a leaf at `offset` up the tree, each at its
/// place; an empty chain at the place of one that does not.
fn chains_checked(chains: &Vec<Vec<SyntaxNode>>, offset: u32) -> (checked: Vec<Vec<SyntaxNode>>)
    ensures
        chains_view(checked@) == chains_at(chains_view(chains@), offset),
{
    let mut checked: Vec<Vec<SyntaxNode>> = Vec::new();
    let mut i: usize = 0;
    while i < chains.len()
        invariant
            i <= chains.len(),
            checked@.len() == i,
            forall|j: int|
                0 <= j < i ==> (#[trigger] checked@[j])@ == chain_at(chains@[j]@, offset),
        decreases chains.len() - i,
    {
        if is_nested_at(&chains[i], offset) {
            checked.push(copy_of(&chains[i]));
        } else {
            checked.push(Vec::new());
        }
        i += 1;
    }
    assert(chains_view(checked@) =~= chains_at(chains_view(chains@), offset));
    checked
}

/// The innermost node of `kind` at the cursor, given each leaf at the
/// cursor with the nodes above it: the number of the leaf and the place of
/// the node above it.
pub fn find_node_at_offset(chains: &Vec<Vec<SyntaxNode>>, kind: SyntaxKind) -> (found: Option<
    (usize, usize),
>)
    ensures
        match node_of_kind(chains_view(chains@), kind, 0) {
            Some((leaf, depth)) => found == Some((leaf as usize, depth as usize)) && 0 <= leaf
                < chains.len() && 0 <= depth < chains[leaf].len()
                && chains[leaf][depth].kind == kind,
            None => found is None,
        },
{
    let mut leaf: usize = 0;
    while leaf < chains.len()
        invariant
            leaf <= chains.len(),
            node_of_kind(chains_view(chains@), kind, 0) == node_of_kind(
                chains_view(chains@),
                kind,
                leaf as int,
            ),
        decreases chains.len() - leaf,
    {
        let chain = &chains[leaf];
        let mut depth: usize = 0;
        while depth < chain.len()
            invariant
                depth <= chain.len(),
                leaf < chains.len(),
                chain@ == chains_view(chains@)[leaf as int],
                first_of_kind(chain@, kind, 0) == first_of_kind(chain@, kind, depth as int),
                node_of_kind(chains_view(chains@), kind, 0) == node_of_kind(
                    chains_view(chains@),
                    kind,
                    leaf as int,
                ),
            decreases chain.len() - depth,
        {
            if chain[depth].kind == kind {
                return Some((leaf, depth));
            }
            depth += 1;
        }
        leaf += 1;
    }
    None
}

fn first_in_chain(chain: &Vec<SyntaxNode>, from: usize) -> (found: Option<SyntaxNode>)
    ensures
        found == first_expr_or_pat(chain@, from as int),
{
    let mut depth: usize = from;
    while depth < chain.len()
        invariant
            from <= depth,
            first_expr_or_pat(chain@, from as int) == first_expr_or_pat(chain@, depth as int),
        decreases chain.len() - depth,
    {
        if chain[depth].is_expr || chain[depth].is_pat {
            return Some(chain[depth]);
        }
        depth += 1;
    }
    None
}

/// The smallest expression or pattern around the cursor, given each leaf
/// at the cursor with the nodes above it.
pub fn nearest_expr_or_pat(chains: &Vec<Vec<SyntaxNode>>) -> (found: Option<SyntaxNode>)
    ensures
        found == nearest_expr_or_pat_of(chains_view(chains@)),
{
    if chains.len() == 0 {
        return None;
    }
    if chains.len() == 1 {
        return first_in_chain(&chains[0], 0);
    }
    let left = &chains[0];
    let right = &chains[1];
    let mut i: usize = 0;
    let mut j: usize = 0;
    let mut on_right = left.len() > 0 && right.len() > 0 && right[0].range.len()
        < left[0].range.len();
    while i < left.len() && j < right.len()
        invariant
            i <= left.len(),
            j <= right.len(),
            chains.len() >= 2,
            left@ == chains_view(chains@)[0],
            right@ == chains_view(chains@)[1],
            merged_first(left@, right@, 0, 0, begins_right(left@, right@)) == merged_first(
                left@,
                right@,
                i as int,
                j as int,
                on_right,
            ),
        decreases left.len() - i + right.len() - j,
    {
        if on_right {
            if right[j].is_expr || right[j].is_pat {
                return Some(right[j]);
            }
            j += 1;
            on_right = !(j < right.len() && left[i].range.len() < right[j].range.len());
        } else {
            if left[i].is_expr || left[i].is_pat {
                return Some(left[i]);
            }
            i += 1;
            on_right = i < left.len() && right[j].range.len() < left[i].range.len();
        }
    }
    if i == left.len() {
        first_in_chain(right, j)
    } else {
        first_in_chain(left, i)
    }
}

/// The expression or pattern that a selection stands for, given the
/// smallest node around the selection and the nodes above it.
pub fn widen(ancestors: &Vec<SyntaxNode>) -> (found: Option<SyntaxNode>)
    ensures
        found == widened(ancestors@),
{
    let mut i: usize = 0;
    while i < ancestors.len()
        invariant
            i <= ancestors.len(),
            widen_from(ancestors@, 0) == widen_from(ancestors@, i as int),
        decreases ancestors.len() - i,
    {
        if ancestors[i].range != ancestors[0].range {
            return None;
        }
        if ancestors[i].is_expr || ancestors[i].is_pat {
            return Some(ancestors[i]);
        }
        i += 1;
    }
    None
}

fn copy_name(name: &Option<Name>) -> (copy: Option<Name>)
    ensures
        name_view(copy) == name_view(*name),
{
    match name {
        Some(name) => Some(Name { text: name.text.clone(), range: name.range }),
        None => None,
    }
}

/// What stands at `offset`: the name reference, the declared name with the
/// declaration above it, and the smallest expression or pattern.
///
/// `leaves` holds the leaves of the tree that touch the offset, from left to
/// right, each followed by the nodes above it up to the root. Each node
/// found spans the offset, and the declaration holds its name. The
/// declaration comes without doc comment and signature.
pub fn locate(leaves: &Vec<Vec<RawNode>>, offset: u32) -> (cursor: Cursor)
    ensures
        cursor@ == cursor_of(leaves.deep_view(), offset),
        cursor@.is_at(offset),
{
    let chains = chains_checked(&chains_from_raw(leaves), offset);
    let name_ref = match find_node_at_offset(&chains, SyntaxKind::NameRef) {
        Some((leaf, depth)) => Some(chains[leaf][depth]),
        None => None,
    };
    let name = match find_node_at_offset(&chains, SyntaxKind::Name) {
        Some((leaf, depth)) => {
            let parent = if depth + 1 < chains[leaf].len() {
                let node = chains[leaf][depth + 1];
                assert(chains[leaf as int]@ == syntax_chain(leaves.deep_view()[leaf as int]));
                let raw = &leaves[leaf][depth + 1];
                assert(raw.deep_view() == leaves.deep_view()[leaf as int][depth + 1]);
                let name = match copy_name(&raw.name) {
                    Some(name) => if node.range.contains_range(name.range) {
                        Some(name)
                    } else {
                        None
                    },
                    None => None,
                };
                Some(
                    AstNode {
                        kind: node.kind,
                        range: node.range,
                        name,
                        docs: None,
                        label: None,
                        has_semi: raw.has_semi,
                    },
                )
            } else {
                None
            };
            Some(NameSite { name: chains[leaf][depth], parent })
        },
        None => None,
    };
    let expr_or_pat = nearest_expr_or_pat(&chains);
    proof {
        lemma_cursor_is_at_offset(leaves.deep_view(), offset);
    }
    Cursor { name_ref, name, expr_or_pat }
}

/// The nodes around a selection, to widen it by: `chain` holds the smallest
/// node of the tree around `range`, followed by the nodes above it up to the
/// root. The first node spans the range, and each node lies within the
/// next; a chain of which that does not hold gives no node at all.
pub fn covering_ancestors(chain: &Vec<RawNode>, range: TextRange) -> (ancestors: Vec<SyntaxNode>)
    ensures
        ancestors@ == covering_chain_of(chain.deep_view(), range),
        ancestors@.len() > 0 ==> nested_around(ancestors@, range),
{
    let chain = chain_from_raw(chain);
    if chain.len() > 0 && chain[0].range.contains_range(range) && is_nested(&chain) {
        chain
    } else {
        Vec::new()
    }
}

/// Every chain that counts leads from a leaf at `offset` up the tree.
pub proof fn lemma_chains_at_are_nested(chains: Seq<Seq<SyntaxNode>>, offset: u32, leaf: int)
    requires
        0 <= leaf < chains.len(),
    ensures
        nested_at(chains_at(chains, offset)[leaf], offset),
{
}

proof fn lemma_first_expr_or_pat_is_in_chain(chain: Seq<SyntaxNode>, from: int)
    requires
        0 <= from,
    ensures
        first_expr_or_pat(chain, from) matches Some(node) ==> is_expr_or_pat(node)
            && chain.contains(node),
    decreases chain.len() - from,
{
    if from < chain.len() && !is_expr_or_pat(chain[from]) {
        lemma_first_expr_or_pat_is_in_chain(chain, from + 1);
    }
}

proof fn lemma_merged_first_is_in_a_chain(
    left: Seq<SyntaxNode>,
    right: Seq<SyntaxNode>,
    i: int,
    j: int,
    on_right: bool,
)
    requires
        0 <= i <= left.len(),
        0 <= j <= right.len(),
    ensures
        merged_first(left, right, i, j, on_right) matches Some(node) ==> is_expr_or_pat(node) && (
        left.contains(node) || right.contains(node)),
    decreases left.len() - i + right.len() - j,
{
    if i == left.len() {
        lemma_first_expr_or_pat_is_in_chain(right, j);
    } else if j == right.len() {
        lemma_first_expr_or_pat_is_in_chain(left, i);
    } else if on_right {
        if !is_expr_or_pat(right[j]) {
            lemma_merged_first_is_in_a_chain(
                left,
                right,
                i,
                j + 1,
                !(j + 1 < right.len() && shorter(left[i], right[j + 1])),
            );
        }
    } else {
        if !is_expr_or_pat(left[i]) {
            lemma_merged_first_is_in_a_chain(
                left,
                right,
                i + 1,
                j,
                i + 1 < left.len() && shorter(right[j], left[i + 1]),
            );
        }
    }
}

/// The smallest expression or pattern around the cursor is an expression or
/// a pattern of one of the chains.
pub proof fn lemma_nearest_is_in_a_chain(chains: Seq<Seq<SyntaxNode>>)
    ensures
        nearest_expr_or_pat_of(chains) matches Some(node) ==> is_expr_or_pat(node) && exists|
            leaf: int,
        |
            0 <= leaf < chains.len() && (#[trigger] chains[leaf]).contains(node),
{
    if chains.len() == 1 {
        lemma_first_expr_or_pat_is_in_chain(chains[0], 0);
    } else if chains.len() >= 2 {
        lemma_merged_first_is_in_a_chain(
            chains[0],
            chains[1],
            0,
            0,
            begins_right(chains[0], chains[1]),
        );
        match nearest_expr_or_pat_of(chains) {
            Some(node) => {
                if chains[0].contains(node) {
                } else {
                    assert(chains[1].contains(node));
                }
            },
            None => {},
        }
    }
}

/// What `locate` finds is at the cursor.
pub proof fn lemma_cursor_is_at_offset(leaves: Seq<Seq<RawNodeView>>, offset: u32)
    ensures
        cursor_of(leaves, offset).is_at(offset),
{
    let chains = chains_of(leaves, offset);
    let raw = syntax_chains(leaves);
    assert forall|leaf: int| 0 <= leaf < chains.len() implies nested_at(
        #[trigger] chains[leaf],
        offset,
    ) by {
        lemma_chains_at_are_nested(raw, offset, leaf);
    }
    lemma_node_of_kind_is_innermost(chains, SyntaxKind::NameRef, 0);
    lemma_node_of_kind_is_innermost(chains, SyntaxKind::Name, 0);
    lemma_nearest_is_in_a_chain(chains);
    match node_of_kind(chains, SyntaxKind::Name, 0) {
        Some((leaf, depth)) => {
            assert(nested_at(chains[leaf], offset));
            if depth + 1 < chains[leaf].len() {
                assert(chains[leaf][depth + 1].range.spec_contains_range(
                    chains[leaf][depth].range,
                ));
            }
        },
        None => {},
    }
    match nearest_expr_or_pat_of(chains) {
        Some(node) => {
            let leaf = choose|leaf: int|
                0 <= leaf < chains.len() && (#[trigger] chains[leaf]).contains(node);
            assert(nested_at(chains[leaf], offset));
        },
        None => {},
    }
}

/// The node at place `j` of `ancestors` lies at or below the node that the
/// selection is widened to: it and the nodes before it span the same text as
/// the first node, and none of the nodes before it is an expression or a
/// pattern.
pub open spec fn at_or_below_widened(ancestors: Seq<SyntaxNode>, j: int) -> bool {
    &&& 0 <= j < ancestors.len()
    &&& forall|i: int| 0 <= i <= j ==> (#[trigger] ancestors[i]).range == ancestors[0].range
    &&& forall|i: int| 0 <= i < j ==> !is_expr_or_pat(#[trigger] ancestors[i])
}

proof fn lemma_widen_from_start(ancestors: Seq<SyntaxNode>, j: int, i: int)
    requires
        at_or_below_widened(ancestors, j),
        0 <= i <= j,
    ensures
        widen_from(ancestors, i) == widen_from(ancestors, j),
    decreases j - i,
{
    if i < j {
        assert(ancestors[i].range == ancestors[0].range);
        assert(!is_expr_or_pat(ancestors[i]));
        lemma_widen_from_start(ancestors, j, i + 1);
    }
}

proof fn lemma_widen_from_skip(ancestors: Seq<SyntaxNode>, j: int, m: int)
    requires
        0 <= j < ancestors.len(),
        ancestors[j].range == ancestors[0].range,
        0 <= m,
    ensures
        widen_from(ancestors.skip(j), m) == widen_from(ancestors, j + m),
    decreases ancestors.len() - j - m,
{
    let rest = ancestors.skip(j);
    if m < rest.len() {
        assert(rest[m] == ancestors[j + m]);
        assert(rest[0] == ancestors[j]);
        if rest[m].range == rest[0].range && !is_expr_or_pat(rest[m]) {
            lemma_widen_from_skip(ancestors, j, m + 1);
        }
    }
}

/// Widening is idempotent: a selection is widened to the same expression or
/// pattern from its smallest node as from any node above that which lies at
/// or below the expression or pattern. So a selection within an expression
/// that is widened to the expression, and the selection of the whole of that
/// expression, stand for the same node.
pub proof fn lemma_widen_is_idempotent(ancestors: Seq<SyntaxNode>, j: int)
    requires
        at_or_below_widened(ancestors, j),
    ensures
        widened(ancestors.skip(j)) == widened(ancestors),
{
    lemma_widen_from_start(ancestors, j, 0);
    assert(ancestors[j].range == ancestors[0].range);
    lemma_widen_from_skip(ancestors, j, 0);
}

/// What a selection is widened to is an expression or a pattern that spans
/// the same text as the smallest node around the selection.
pub proof fn lemma_widened_spans_selection(ancestors: Seq<SyntaxNode>, from: int)
    requires
        0 <= from,
    ensures
        widen_from(ancestors, from) matches Some(node) ==> is_expr_or_pat(node) && node.range
            == ancestors[0].range && ancestors.contains(node),
    decreases ancestors.len() - from,
{
    if from < ancestors.len() && ancestors[from].range == ancestors[0].range {
        if !is_expr_or_pat(ancestors[from]) {
            lemma_widened_spans_selection(ancestors, from + 1);
        }
    }
}

/// The node of `kind` that is found is the first of its chain, in the first
/// chain that has one.
pub proof fn lemma_node_of_kind_is_innermost(
    chains: Seq<Seq<SyntaxNode>>,
    kind: SyntaxKind,
    from: int,
)
    requires
        0 <= from,
    ensures
        match node_of_kind(chains, kind, from) {
            Some((leaf, depth)) => {
                &&& from <= leaf < chains.len()
                &&& 0 <= depth < chains[leaf].len()
                &&& chains[leaf][depth].kind == kind
                &&& forall|d: int| 0 <= d < depth ==> (#[trigger] chains[leaf][d]).kind != kind
                &&& forall|l: int, d: int|
                    from <= l < leaf && 0 <= d < chains[l].len() ==> (#[trigger] chains[l][d]).kind
                        != kind
            },
            None => forall|l: int, d: int|
                from <= l < chains.len() && 0 <= d < chains[l].len() ==> (
                #[trigger] chains[l][d]).kind != kind,
        },
    decreases chains.len() - from,
{
    if from < chains.len() {
        lemma_first_of_kind_is_first(chains[from], kind, 0);
        if first_of_kind(chains[from], kind, 0) is None {
            lemma_node_of_kind_is_innermost(chains, kind, from + 1);
        }
    }
}

proof fn lemma_first_of_kind_is_first(chain: Seq<SyntaxNode>, kind: SyntaxKind, from: int)
    requires
        0 <= from,
    ensures
        match first_of_kind(chain, kind, from) {
            Some(depth) => {
                &&& from <= depth < chain.len()
                &&& chain[depth].kind == kind
                &&& forall|d: int| from <= d < depth ==> (#[trigger] chain[d]).kind != kind
            },
            None => forall|d: int| from <= d < chain.len() ==> (#[trigger] chain[d]).kind != kind,
        },
    decreases chain.len() - from,
{
    if from < chain.len() && chain[from].kind != kind {
        lemma_first_of_kind_is_first(chain, kind, from + 1);
    }
}

} // verus!
