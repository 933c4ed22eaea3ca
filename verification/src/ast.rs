//! Typed views of syntax nodes, and what the nodes of each type can tell.

use vstd::prelude::*;
use std::marker::PhantomData;
use crate::syntax::{NodeView, SyntaxNodeRef, has_child_of_kind, has_child_of_kind_from, kind_of_child, node_wf};
use crate::syntax_kind::SyntaxKind;
use crate::text::{str_eq, collect_quad, collect_triple, join_lines, spec_join, spec_trim, spec_trim_start, spec_trim_start_matches, str_starts_with, str_trim, str_trim_start, str_trim_start_matches};

pub mod generated;

pub use self::generated::{
    ArgList,
    ArrayExpr,
    ArrayType,
    Attr,
    BinExpr,
    BindPat,
    Block,
    BlockExpr,
    BreakExpr,
    Byte,
    ByteString,
    CallExpr,
    CastExpr,
    Char,
    Comment,
    Condition,
    ConstDef,
    ContinueExpr,
    DynTraitType,
    EnumDef,
    EnumVariant,
    EnumVariantList,
    Expr,
    ExprStmt,
    ExternCrateItem,
    FieldExpr,
    FieldPatList,
    FnDef,
    FnPointerType,
    ForExpr,
    ForType,
    IfExpr,
    ImplBlock,
    ImplItem,
    ImplTraitType,
    IndexExpr,
    ItemList,
    Label,
    LambdaExpr,
    LetStmt,
    Lifetime,
    LifetimeParam,
    Literal,
    LoopExpr,
    MacroCall,
    MatchArm,
    MatchArmList,
    MatchExpr,
    MatchGuard,
    MethodCallExpr,
    Module,
    ModuleItem,
    Name,
    NameRef,
    NamedField,
    NamedFieldDef,
    NamedFieldDefList,
    NamedFieldList,
    NeverType,
    Param,
    ParamList,
    ParenExpr,
    ParenType,
    Pat,
    Path,
    PathExpr,
    PathPat,
    PathSegment,
    PathType,
    PlaceholderPat,
    PlaceholderType,
    PointerType,
    PosField,
    PosFieldList,
    PrefixExpr,
    RangeExpr,
    RangePat,
    RefExpr,
    RefPat,
    ReferenceType,
    RetType,
    ReturnExpr,
    SelfKw,
    SelfParam,
    SlicePat,
    SliceType,
    SourceFile,
    StaticDef,
    Stmt,
    StructDef,
    StructLit,
    StructPat,
    TokenTree,
    TraitDef,
    TryExpr,
    TupleExpr,
    TuplePat,
    TupleStructPat,
    TupleType,
    TypeDef,
    TypeParam,
    TypeParamList,
    TypeRef,
    UseItem,
    UseTree,
    UseTreeList,
    Visibility,
    WhereClause,
    WhileExpr,
    Whitespace,
};

verus! {

/// A typed view of a syntax node: a node together with the knowledge of
/// what kind of node it is.
pub trait AstNode<'a>: Sized + Copy {
    /// The kinds of node that this type stands for.
    spec fn can_cast(kind: SyntaxKind) -> bool;

    /// The syntax node that the value stands for.
    spec fn node(&self) -> SyntaxNodeRef<'a>;

    /// The value stands for a node of a well-formed tree, of one of its type's kinds.
    spec fn wf(&self) -> bool;

    /// What well-formedness says of the node.
    proof fn lemma_wf(&self)
        requires
            self.wf(),
        ensures
            self.node().wf(),
            Self::can_cast(self.node().data().kind),
    ;

    /// The typed view of `syntax`, if it is of a kind that this type stands for.
    fn cast(syntax: SyntaxNodeRef<'a>) -> (r: Option<Self>)
        requires
            syntax.wf(),
        ensures
            r.is_some() == Self::can_cast(syntax.data().kind),
            r matches Some(n) ==> n.wf() && n.node() == syntax,
    ;

    /// The syntax node that the value stands for.
    fn syntax(&self) -> (r: SyntaxNodeRef<'a>)
        requires
            self.wf(),
        ensures
            r == self.node(),
            r.wf(),
            Self::can_cast(r.data().kind),
    ;
}

/// The children of node `i` that type `C` stands for, from position
/// `from` on, from left to right.
pub open spec fn kids_from<'a, C: AstNode<'a>>(nodes: Seq<NodeView>, i: int, from: int) -> Seq<int>
    decreases nodes[i].children.len() - from,
{
    if from < 0 || from >= nodes[i].children.len() {
        Seq::empty()
    } else if C::can_cast(nodes[nodes[i].children[from]].kind) {
        seq![nodes[i].children[from]] + kids_from::<C>(nodes, i, from + 1)
    } else {
        kids_from::<C>(nodes, i, from + 1)
    }
}

/// The children of node `i` that type `C` stands for, from left to right.
pub open spec fn kids<'a, C: AstNode<'a>>(nodes: Seq<NodeView>, i: int) -> Seq<int> {
    kids_from::<C>(nodes, i, 0)
}

/// The `n`-th child of node `i` that type `C` stands for, if there are so many.
pub open spec fn nth_kid<'a, C: AstNode<'a>>(nodes: Seq<NodeView>, i: int, n: int) -> Option<int> {
    if 0 <= n < kids::<C>(nodes, i).len() {
        Some(kids::<C>(nodes, i)[n])
    } else {
        None
    }
}

/// `r` is the typed view of node `idx` of the tree of `parent`, or there is neither.
pub open spec fn is_node<'a, C: AstNode<'a>>(r: Option<C>, parent: SyntaxNodeRef<'a>, idx: Option<int>) -> bool {
    match (r, idx) {
        (Some(c), Some(i)) => c.wf() && c.node().tree() == parent.tree() && c.node().index() == i,
        (None, None) => true,
        _ => false,
    }
}

/// Every listed child is a child of the node: it comes after it in the tree.
pub proof fn lemma_kids_from<'a, C: AstNode<'a>>(nodes: Seq<NodeView>, i: int, from: int)
    requires
        0 <= i < nodes.len(),
        node_wf(nodes, i),
        0 <= from,
    ensures
        forall|k: int|
            0 <= k < kids_from::<C>(nodes, i, from).len() ==> {
                &&& i < #[trigger] kids_from::<C>(nodes, i, from)[k] < nodes.len()
                &&& nodes[kids_from::<C>(nodes, i, from)[k]].parent == Some(i)
                &&& C::can_cast(nodes[kids_from::<C>(nodes, i, from)[k]].kind)
            },
    decreases nodes[i].children.len() - from,
{
    if from < nodes[i].children.len() {
        lemma_kids_from::<C>(nodes, i, from + 1);
        let c = nodes[i].children[from];
        assert(i < c < nodes.len());
    }
}

/// A child found by `nth_kid` is a child of the node, of a kind that the
/// type stands for.
pub proof fn lemma_nth_kid<'a, C: AstNode<'a>>(nodes: Seq<NodeView>, i: int, n: int)
    requires
        0 <= i < nodes.len(),
        node_wf(nodes, i),
    ensures
        nth_kid::<C>(nodes, i, n) matches Some(c) ==> {
            &&& i < c < nodes.len()
            &&& nodes[c].parent == Some(i)
            &&& C::can_cast(nodes[c].kind)
        },
{
    lemma_kids_from::<C>(nodes, i, 0);
}

/// The children of a node that one type stands for, handed out one by one
/// from the left.
#[derive(Debug)]
pub struct AstChildren<'a, N> {
    parent: SyntaxNodeRef<'a>,
    pos: usize,
    ph: PhantomData<N>,
}

impl<'a, N: AstNode<'a>> AstChildren<'a, N> {
    /// The node whose children are handed out.
    pub closed spec fn parent(self) -> SyntaxNodeRef<'a> {
        self.parent
    }

    /// The position among all children of the node at which the search goes on.
    pub closed spec fn pos(self) -> int {
        self.pos as int
    }

    pub open spec fn wf(self) -> bool {
        self.parent().wf() && 0 <= self.pos() <= self.parent().data().children.len()
    }

    /// The children still to come.
    pub open spec fn rest(self) -> Seq<int> {
        kids_from::<N>(self.parent().tree()@, self.parent().index(), self.pos())
    }

    pub fn new(parent: SyntaxNodeRef<'a>) -> (r: Self)
        requires
            parent.wf(),
        ensures
            r.wf(),
            r.parent() == parent,
            r.pos() == 0,
    {
        AstChildren { parent, pos: 0, ph: PhantomData }
    }

    /// The next child that the type stands for, if one is left.
    pub fn next(&mut self) -> (r: Option<N>)
        requires
            old(self).wf(),
        ensures
            final(self).wf(),
            final(self).parent() == old(self).parent(),
            r.is_some() == (old(self).rest().len() > 0),
            r matches Some(n) ==> {
                &&& n.wf()
                &&& n.node().tree() == old(self).parent().tree()
                &&& n.node().index() == old(self).rest()[0]
                &&& final(self).rest() == old(self).rest().drop_first()
            },
            r.is_none() ==> final(self).rest().len() == 0,
    {
        let n = self.parent.child_count();
        while self.pos < n
            invariant
                self.wf(),
                self.parent == old(self).parent,
                n == self.parent().data().children.len(),
                self.rest() == old(self).rest(),
            decreases n - self.pos,
        {
            let c = self.parent.child(self.pos);
            self.pos += 1;
            match N::cast(c) {
                Some(t) => {
                    assert(self.rest() =~= old(self).rest().drop_first());
                    return Some(t);
                },
                None => {},
            }
        }
        None
    }

    /// The child that the type stands for and that has `n` such children
    /// to its left, if there is one.
    pub fn nth(self, n: usize) -> (r: Option<N>)
        requires
            self.wf(),
        ensures
            r.is_some() == (n < self.rest().len()),
            r matches Some(c) ==> {
                &&& c.wf()
                &&& c.node().tree() == self.parent().tree()
                &&& c.node().index() == self.rest()[n as int]
            },
    {
        let mut it = self;
        let mut k: usize = 0;
        loop
            invariant
                it.wf(),
                it.parent() == self.parent(),
                k <= n,
                it.rest() =~= self.rest().skip(k as int),
                k <= self.rest().len(),
            decreases it.rest().len(),
        {
            let ghost before = it;
            match it.next() {
                Some(c) => {
                    if k == n {
                        return Some(c);
                    }
                    k += 1;
                    assert(before.rest().drop_first() =~= self.rest().skip(k as int));
                },
                None => {
                    return None;
                },
            }
        }
    }
}

/// The first child of `parent` that type `C` stands for.
pub fn child_opt<'a, P: AstNode<'a>, C: AstNode<'a>>(parent: &P) -> (r: Option<C>)
    requires
        parent.wf(),
    ensures
        is_node(r, parent.node(), nth_kid::<C>(parent.node().tree()@, parent.node().index(), 0)),
{
    let mut it: AstChildren<'a, C> = children(parent);
    it.next()
}

/// The children of `parent` that type `C` stands for.
pub fn children<'a, P: AstNode<'a>, C: AstNode<'a>>(parent: &P) -> (r: AstChildren<'a, C>)
    requires
        parent.wf(),
    ensures
        r.wf(),
        r.parent() == parent.node(),
        r.pos() == 0,
{
    AstChildren::new(parent.syntax())
}

/// The text of a token.
pub fn token_text<'a>(n: SyntaxNodeRef<'a>) -> (r: &'a std::string::String)
    requires
        n.wf(),
        n.data().kind.spec_is_token(),
    ensures
        n.data().text == Some(r@),
{
    proof {
        assert(node_wf(n.tree()@, n.index()));
    }
    n.leaf_text().unwrap()
}

/// The text of the first child of node `i`, where that is a token; else
/// the empty text.
pub open spec fn first_token_text(nodes: Seq<NodeView>, i: int) -> Seq<char> {
    if nodes[i].children.len() > 0 && nodes[nodes[i].children[0]].text.is_some() {
        nodes[nodes[i].children[0]].text.unwrap()
    } else {
        Seq::empty()
    }
}

fn first_token_text_of(n: SyntaxNodeRef) -> (r: std::string::String)
    requires
        n.wf(),
    ensures
        r@ == first_token_text(n.tree()@, n.index()),
{
    match n.first_child() {
        Some(c) => match c.leaf_text() {
            Some(t) => t.clone(),
            None => std::string::String::new(),
        },
        None => std::string::String::new(),
    }
}

/// The number of line feeds in a text.
pub open spec fn count_newlines(s: Seq<char>) -> nat
    decreases s.len(),
{
    if s.len() == 0 {
        0
    } else {
        count_newlines(s.drop_last()) + (if s.last() == '\n' {
            1nat
        } else {
            0nat
        })
    }
}

proof fn lemma_count_newlines_bound(s: Seq<char>)
    ensures
        count_newlines(s) <= s.len(),
    decreases s.len(),
{
    if s.len() > 0 {
        lemma_count_newlines_bound(s.drop_last());
    }
}

fn count_newlines_in(s: &str) -> (r: usize)
    ensures
        r == count_newlines(s@),
{
    let len = s.unicode_len();
    let mut n: usize = 0;
    let mut i: usize = 0;
    while i < len
        invariant
            len == s@.len(),
            i <= len,
            n == count_newlines(s@.take(i as int)),
        decreases len - i,
    {
        proof {
            lemma_count_newlines_bound(s@.take(i as int));
            assert(s@.take(i + 1).drop_last() =~= s@.take(i as int));
        }
        if s.get_char(i) == '\n' {
            n += 1;
        }
        i += 1;
    }
    proof {
        assert(s@.take(len as int) =~= s@);
    }
    n
}

pub trait NameOwner<'a>: AstNode<'a> {
    fn name(&self) -> (r: Option<Name<'a>>)
        requires
            self.wf(),
        ensures
            is_node(r, self.node(), nth_kid::<Name>(self.node().tree()@, self.node().index(), 0)),
    {
        child_opt(self)
    }
}

pub trait VisibilityOwner<'a>: AstNode<'a> {
    fn visibility(&self) -> (r: Option<Visibility<'a>>)
        requires
            self.wf(),
        ensures
            is_node(r, self.node(), nth_kid::<Visibility>(self.node().tree()@, self.node().index(), 0)),
    {
        child_opt(self)
    }
}

pub trait LoopBodyOwner<'a>: AstNode<'a> {
    fn loop_body(&self) -> (r: Option<Block<'a>>)
        requires
            self.wf(),
        ensures
            is_node(r, self.node(), nth_kid::<Block>(self.node().tree()@, self.node().index(), 0)),
    {
        child_opt(self)
    }
}

pub trait ArgListOwner<'a>: AstNode<'a> {
    fn arg_list(&self) -> (r: Option<ArgList<'a>>)
        requires
            self.wf(),
        ensures
            is_node(r, self.node(), nth_kid::<ArgList>(self.node().tree()@, self.node().index(), 0)),
    {
        child_opt(self)
    }
}

pub trait FnDefOwner<'a>: AstNode<'a> {
    fn functions(&self) -> (r: AstChildren<'a, FnDef<'a>>)
        requires
            self.wf(),
        ensures
            r.wf(),
            r.parent() == self.node(),
            r.pos() == 0,
    {
        children(self)
    }
}

pub trait ModuleItemOwner<'a>: AstNode<'a> {
    fn items(&self) -> (r: AstChildren<'a, ModuleItem<'a>>)
        requires
            self.wf(),
        ensures
            r.wf(),
            r.parent() == self.node(),
            r.pos() == 0,
    {
        children(self)
    }
}

pub trait TypeParamsOwner<'a>: AstNode<'a> {
    fn type_param_list(&self) -> (r: Option<TypeParamList<'a>>)
        requires
            self.wf(),
        ensures
            is_node(r, self.node(), nth_kid::<TypeParamList>(self.node().tree()@, self.node().index(), 0)),
    {
        child_opt(self)
    }

    fn where_clause(&self) -> (r: Option<WhereClause<'a>>)
        requires
            self.wf(),
        ensures
            is_node(r, self.node(), nth_kid::<WhereClause>(self.node().tree()@, self.node().index(), 0)),
    {
        child_opt(self)
    }
}

pub trait AttrsOwner<'a>: AstNode<'a> {
    fn attrs(&self) -> (r: AstChildren<'a, Attr<'a>>)
        requires
            self.wf(),
        ensures
            r.wf(),
            r.parent() == self.node(),
            r.pos() == 0,
    {
        children(self)
    }
}

/// The line that a doc comment with text `text` gives to the documentation:
/// the text without its marker and the white space around it.
pub open spec fn doc_line(text: Seq<char>) -> Seq<char> {
    spec_trim_start(spec_trim_start_matches(spec_trim(text), spec_flavor(text).spec_prefix()))
}

/// The lines that the doc comments among the comments `cs` give.
pub open spec fn doc_lines(nodes: Seq<NodeView>, cs: Seq<int>) -> Seq<Seq<char>>
    decreases cs.len(),
{
    if cs.len() == 0 {
        Seq::empty()
    } else {
        let rest = doc_lines(nodes, cs.drop_last());
        let text = nodes[cs.last()].text.unwrap();
        if spec_flavor(text).spec_is_doc_comment() {
            rest.push(doc_line(text))
        } else {
            rest
        }
    }
}

pub trait DocCommentsOwner<'a>: AstNode<'a> {
    fn doc_comments(&self) -> (r: AstChildren<'a, Comment<'a>>)
        requires
            self.wf(),
        ensures
            r.wf(),
            r.parent() == self.node(),
            r.pos() == 0,
    {
        children(self)
    }

    /// Returns the textual content of a doc comment block as a single string.
    /// That is, strips leading `///` and joins lines.
    fn doc_comment_text(&self) -> (r: std::string::String)
        requires
            self.wf(),
        ensures
            r@ == spec_join(
                doc_lines(self.node().tree()@, kids::<Comment>(self.node().tree()@, self.node().index())),
                "\n"@,
            ),
    {
        let ghost nodes = self.node().tree()@;
        let ghost all = kids::<Comment>(nodes, self.node().index());
        let mut it = self.doc_comments();
        let mut lines: Vec<std::string::String> = Vec::new();
        let ghost mut k: int = 0;
        loop
            invariant
                it.wf(),
                it.parent() == self.node(),
                nodes == self.node().tree()@,
                all == kids::<Comment>(nodes, self.node().index()),
                0 <= k <= all.len(),
                it.rest() =~= all.skip(k),
                lines@.map_values(|s: std::string::String| s@) =~= doc_lines(nodes, all.take(k)),
            decreases it.rest().len(),
        {
            let ghost before = it.rest();
            match it.next() {
                Some(comment) => {
                    proof {
                        assert(all.take(k + 1).drop_last() =~= all.take(k));
                        assert(all.take(k + 1).last() == before[0]);
                        assert(before.drop_first() =~= all.skip(k + 1));
                    }
                    if comment.is_doc_comment() {
                        let prefix = comment.prefix();
                        proof {
                            reveal_strlit("//");
                            reveal_strlit("///");
                            reveal_strlit("//!");
                            reveal_strlit("/*");
                        }
                        let trimmed = str_trim_start(
                            str_trim_start_matches(str_trim(comment.text().as_str()), prefix),
                        );
                        let ghost old_lines = lines@.map_values(|s: std::string::String| s@);
                        lines.push(trimmed.to_owned());
                        assert(lines@.map_values(|s: std::string::String| s@) =~= old_lines.push(
                            trimmed@,
                        ));
                    }
                    proof {
                        k = k + 1;
                    }
                },
                None => {
                    proof {
                        assert(before.len() == 0);
                        assert(k == all.len());
                        assert(all.take(k) =~= all);
                    }
                    return join_lines(&lines);
                },
            }
        }
    }
}

impl<'a> FnDef<'a> {
    /// Tells whether the function has an attribute that is just the word `atom`.
    pub fn has_atom_attr(&self, atom: &str) -> (r: bool)
        requires
            self.wf(),
        ensures
            r == exists|k: int|
                0 <= k < kids::<Attr>(self.node().tree()@, self.node().index()).len() && spec_as_atom(
                    self.node().tree()@,
                    #[trigger] kids::<Attr>(self.node().tree()@, self.node().index())[k],
                ) == Some(atom@),
    {
        let ghost nodes = self.node().tree()@;
        let ghost all = kids::<Attr>(nodes, self.node().index());
        let mut it = self.attrs();
        let ghost mut k: int = 0;
        loop
            invariant
                it.wf(),
                it.parent() == self.node(),
                nodes == self.node().tree()@,
                all == kids::<Attr>(nodes, self.node().index()),
                0 <= k <= all.len(),
                it.rest() =~= all.skip(k),
                forall|j: int| 0 <= j < k ==> spec_as_atom(nodes, #[trigger] all[j]) != Some(atom@),
            decreases it.rest().len(),
        {
            let ghost before = it.rest();
            match it.next() {
                Some(attr) => {
                    proof {
                        assert(before[0] == all[k]);
                        assert(before.drop_first() =~= all.skip(k + 1));
                    }
                    match attr.as_atom() {
                        Some(x) => {
                            if str_eq(x.as_str(), atom) {
                                return true;
                            }
                        },
                        None => {},
                    }
                    proof {
                        k = k + 1;
                    }
                },
                None => {
                    return false;
                },
            }
        }
    }
}

/// The word of an attribute that is just a word in brackets, like
/// `#[inline]`: the token tree of node `i` holds three tokens, of which
/// the middle one is an identifier.
pub open spec fn spec_as_atom(nodes: Seq<NodeView>, i: int) -> Option<Seq<char>> {
    match nth_kid::<TokenTree>(nodes, i, 0) {
        Some(tt) => if nodes[tt].children.len() == 3 && kind_of_child(nodes, tt, 1) == SyntaxKind::IDENT {
            nodes[nodes[tt].children[1]].text
        } else {
            None
        },
        None => None,
    }
}

/// The word and the arguments of an attribute that is a call, like
/// `#[derive(Debug)]`: the token tree of node `i` holds four nodes, of
/// which the second is an identifier and the third a token tree.
pub open spec fn spec_as_call(nodes: Seq<NodeView>, i: int) -> Option<(Seq<char>, int)> {
    match nth_kid::<TokenTree>(nodes, i, 0) {
        Some(tt) => if nodes[tt].children.len() == 4 && kind_of_child(nodes, tt, 1) == SyntaxKind::IDENT
            && kind_of_child(nodes, tt, 2) == SyntaxKind::TOKEN_TREE {
            Some((nodes[nodes[tt].children[1]].text.unwrap(), nodes[tt].children[2]))
        } else {
            None
        },
        None => None,
    }
}

impl<'a> Attr<'a> {
    pub fn as_atom(&self) -> (r: Option<std::string::String>)
        requires
            self.wf(),
        ensures
            r.is_some() == spec_as_atom(self.node().tree()@, self.node().index()).is_some(),
            r matches Some(s) ==> Some(s@) == spec_as_atom(self.node().tree()@, self.node().index()),
    {
        let tt = match self.value() {
            Some(tt) => tt,
            None => {
                return None;
            },
        };
        let kids = tt.syntax().children();
        match collect_triple(&kids) {
            Some((_bra, attr, _ket)) => {
                if attr.kind() == SyntaxKind::IDENT {
                    Some(token_text(attr).clone())
                } else {
                    None
                }
            },
            None => None,
        }
    }

    pub fn as_call(&self) -> (r: Option<(std::string::String, TokenTree<'a>)>)
        requires
            self.wf(),
        ensures
            r.is_some() == spec_as_call(self.node().tree()@, self.node().index()).is_some(),
            r matches Some((s, args)) ==> {
                &&& spec_as_call(self.node().tree()@, self.node().index()) == Some((s@, args.node().index()))
                &&& args.wf()
                &&& args.node().tree() == self.node().tree()
            },
    {
        let tt = match self.value() {
            Some(tt) => tt,
            None => {
                return None;
            },
        };
        let kids = tt.syntax().children();
        match collect_quad(&kids) {
            Some((_bra, attr, args, _ket)) => {
                let args = match TokenTree::cast(args) {
                    Some(args) => args,
                    None => {
                        return None;
                    },
                };
                if attr.kind() == SyntaxKind::IDENT {
                    Some((token_text(attr).clone(), args))
                } else {
                    None
                }
            },
            None => None,
        }
    }
}

impl<'a> Lifetime<'a> {
    pub fn text(&self) -> (r: std::string::String)
        requires
            self.wf(),
        ensures
            self.node().data().text == Some(r@),
    {
        token_text(self.syntax()).clone()
    }
}

impl<'a> Char<'a> {
    pub fn text(&self) -> (r: &'a std::string::String)
        requires
            self.wf(),
        ensures
            self.node().data().text == Some(r@),
    {
        token_text(self.syntax())
    }
}

impl<'a> Byte<'a> {
    pub fn text(&self) -> (r: &'a std::string::String)
        requires
            self.wf(),
        ensures
            self.node().data().text == Some(r@),
    {
        token_text(self.syntax())
    }
}

impl<'a> ByteString<'a> {
    pub fn text(&self) -> (r: &'a std::string::String)
        requires
            self.wf(),
        ensures
            self.node().data().text == Some(r@),
    {
        token_text(self.syntax())
    }
}

impl<'a> generated::String<'a> {
    pub fn text(&self) -> (r: &'a std::string::String)
        requires
            self.wf(),
        ensures
            self.node().data().text == Some(r@),
    {
        token_text(self.syntax())
    }
}

/// The flavor of a comment with text `text`, by how the text begins.
pub open spec fn spec_flavor(text: Seq<char>) -> CommentFlavor {
    if "///"@.is_prefix_of(text) {
        CommentFlavor::Doc
    } else if "//!"@.is_prefix_of(text) {
        CommentFlavor::ModuleDoc
    } else if "//"@.is_prefix_of(text) {
        CommentFlavor::Line
    } else {
        CommentFlavor::Multiline
    }
}

impl<'a> Comment<'a> {
    pub fn text(&self) -> (r: &'a std::string::String)
        requires
            self.wf(),
        ensures
            self.node().data().text == Some(r@),
    {
        token_text(self.syntax())
    }

    pub fn flavor(&self) -> (r: CommentFlavor)
        requires
            self.wf(),
        ensures
            r == spec_flavor(self.node().data().text.unwrap()),
    {
        let text = self.text().as_str();
        if str_starts_with(text, "///") {
            CommentFlavor::Doc
        } else if str_starts_with(text, "//!") {
            CommentFlavor::ModuleDoc
        } else if str_starts_with(text, "//") {
            CommentFlavor::Line
        } else {
            CommentFlavor::Multiline
        }
    }

    pub fn is_doc_comment(&self) -> (r: bool)
        requires
            self.wf(),
        ensures
            r == spec_flavor(self.node().data().text.unwrap()).spec_is_doc_comment(),
    {
        self.flavor().is_doc_comment()
    }

    pub fn prefix(&self) -> (r: &'static str)
        requires
            self.wf(),
        ensures
            r@ == spec_flavor(self.node().data().text.unwrap()).spec_prefix(),
    {
        self.flavor().prefix()
    }

    /// The number of line feeds in the comment.
    pub fn count_newlines_lazy(&self) -> (r: usize)
        requires
            self.wf(),
        ensures
            r == count_newlines(self.node().data().text.unwrap()),
    {
        count_newlines_in(self.text().as_str())
    }

    pub fn has_newlines(&self) -> (r: bool)
        requires
            self.wf(),
        ensures
            r == (count_newlines(self.node().data().text.unwrap()) > 0),
    {
        self.count_newlines_lazy() > 0
    }
}

#[derive(Debug, Clone, Copy, PartialEq, Eq, Structural)]
pub enum CommentFlavor {
    Line,
    Doc,
    ModuleDoc,
    Multiline,
}

impl CommentFlavor {
    /// The characters with which a comment of the flavor begins.
    pub open spec fn spec_prefix(&self) -> Seq<char> {
        match self {
            CommentFlavor::Line => "//"@,
            CommentFlavor::Doc => "///"@,
            CommentFlavor::ModuleDoc => "//!"@,
            CommentFlavor::Multiline => "/*"@,
        }
    }

    pub fn prefix(&self) -> (r: &'static str)
        ensures
            r@ == self.spec_prefix(),
    {
        match self {
            CommentFlavor::Line => "//",
            CommentFlavor::Doc => "///",
            CommentFlavor::ModuleDoc => "//!",
            CommentFlavor::Multiline => "/*",
        }
    }

    /// The flavor is one of the two that document an item.
    pub open spec fn spec_is_doc_comment(&self) -> bool {
        match self {
            CommentFlavor::Doc | CommentFlavor::ModuleDoc => true,
            _ => false,
        }
    }

    #[verifier::when_used_as_spec(spec_is_doc_comment)]
    pub fn is_doc_comment(&self) -> (r: bool)
        ensures
            r == self.spec_is_doc_comment(),
    {
        match self {
            CommentFlavor::Doc | CommentFlavor::ModuleDoc => true,
            _ => false,
        }
    }
}

impl<'a> Whitespace<'a> {
    pub fn text(&self) -> (r: &'a std::string::String)
        requires
            self.wf(),
        ensures
            self.node().data().text == Some(r@),
    {
        token_text(self.syntax())
    }

    /// The number of line feeds in the white space.
    pub fn count_newlines_lazy(&self) -> (r: usize)
        requires
            self.wf(),
        ensures
            r == count_newlines(self.node().data().text.unwrap()),
    {
        count_newlines_in(self.text().as_str())
    }

    pub fn has_newlines(&self) -> (r: bool)
        requires
            self.wf(),
        ensures
            r == (count_newlines(self.node().data().text.unwrap()) > 0),
    {
        self.count_newlines_lazy() > 0
    }
}

impl<'a> Name<'a> {
    /// The text of the name: that of its first child, an identifier. A
    /// name without a token as its first child has the empty text.
    pub fn text(&self) -> (r: std::string::String)
        requires
            self.wf(),
        ensures
            r@ == first_token_text(self.node().tree()@, self.node().index()),
    {
        first_token_text_of(self.syntax())
    }
}

impl<'a> NameRef<'a> {
    /// The text of the name: that of its first child, an identifier. A
    /// name without a token as its first child has the empty text.
    pub fn text(&self) -> (r: std::string::String)
        requires
            self.wf(),
        ensures
            r@ == first_token_text(self.node().tree()@, self.node().index()),
    {
        first_token_text_of(self.syntax())
    }
}

impl<'a> ImplBlock<'a> {
    /// The type that the block implements for: the second type of the
    /// block where there are two, else the only one.
    pub fn target_type(&self) -> (r: Option<TypeRef<'a>>)
        requires
            self.wf(),
        ensures
            is_node(
                r,
                self.node(),
                if kids::<TypeRef>(self.node().tree()@, self.node().index()).len() >= 2 {
                    nth_kid::<TypeRef>(self.node().tree()@, self.node().index(), 1)
                } else {
                    nth_kid::<TypeRef>(self.node().tree()@, self.node().index(), 0)
                },
            ),
    {
        match self.target() {
            (Some(t), None) => Some(t),
            (_, Some(t)) => Some(t),
            _ => None,
        }
    }

    /// The trait that the block implements: the first type of the block
    /// where there are two.
    pub fn target_trait(&self) -> (r: Option<TypeRef<'a>>)
        requires
            self.wf(),
        ensures
            is_node(
                r,
                self.node(),
                if kids::<TypeRef>(self.node().tree()@, self.node().index()).len() >= 2 {
                    nth_kid::<TypeRef>(self.node().tree()@, self.node().index(), 0)
                } else {
                    None
                },
            ),
    {
        match self.target() {
            (Some(t), Some(_)) => Some(t),
            _ => None,
        }
    }

    fn target(&self) -> (r: (Option<TypeRef<'a>>, Option<TypeRef<'a>>))
        requires
            self.wf(),
        ensures
            is_node(r.0, self.node(), nth_kid::<TypeRef>(self.node().tree()@, self.node().index(), 0)),
            is_node(r.1, self.node(), nth_kid::<TypeRef>(self.node().tree()@, self.node().index(), 1)),
    {
        let mut types: AstChildren<'a, TypeRef<'a>> = children(self);
        let first = types.next();
        let second = types.next();
        (first, second)
    }
}

/// The kind of the last child of node `i`, if it has children.
pub open spec fn last_child_kind(nodes: Seq<NodeView>, i: int) -> Option<SyntaxKind> {
    if nodes[i].children.len() > 0 {
        Some(kind_of_child(nodes, i, nodes[i].children.len() - 1))
    } else {
        None
    }
}

/// The kind of the first child of node `i`, if it has children.
pub open spec fn first_child_kind(nodes: Seq<NodeView>, i: int) -> Option<SyntaxKind> {
    if nodes[i].children.len() > 0 {
        Some(kind_of_child(nodes, i, 0))
    } else {
        None
    }
}

fn ends_in_semi(n: SyntaxNodeRef) -> (r: bool)
    requires
        n.wf(),
    ensures
        r == (last_child_kind(n.tree()@, n.index()) == Some(SyntaxKind::SEMI)),
{
    match n.last_child() {
        None => false,
        Some(node) => node.kind() == SyntaxKind::SEMI,
    }
}

impl<'a> Module<'a> {
    pub fn has_semi(&self) -> (r: bool)
        requires
            self.wf(),
        ensures
            r == (last_child_kind(self.node().tree()@, self.node().index()) == Some(SyntaxKind::SEMI)),
    {
        ends_in_semi(self.syntax())
    }
}

impl<'a> LetStmt<'a> {
    pub fn has_semi(&self) -> (r: bool)
        requires
            self.wf(),
        ensures
            r == (last_child_kind(self.node().tree()@, self.node().index()) == Some(SyntaxKind::SEMI)),
    {
        ends_in_semi(self.syntax())
    }
}

impl<'a> IfExpr<'a> {
    pub fn then_branch(&self) -> (r: Option<Block<'a>>)
        requires
            self.wf(),
        ensures
            is_node(r, self.node(), nth_kid::<Block>(self.node().tree()@, self.node().index(), 0)),
    {
        self.blocks().nth(0)
    }

    pub fn else_branch(&self) -> (r: Option<Block<'a>>)
        requires
            self.wf(),
        ensures
            is_node(r, self.node(), nth_kid::<Block>(self.node().tree()@, self.node().index(), 1)),
    {
        self.blocks().nth(1)
    }

    fn blocks(&self) -> (r: AstChildren<'a, Block<'a>>)
        requires
            self.wf(),
        ensures
            r.wf(),
            r.parent() == self.node(),
            r.pos() == 0,
    {
        children(self)
    }
}

#[derive(Debug, Clone, Copy, PartialEq, Eq)]
pub enum PathSegmentKind<'a> {
    Name(NameRef<'a>),
    SelfKw,
    SuperKw,
    CrateKw,
}

/// The parent of node `i` is of kind `kind`.
pub open spec fn parent_is(nodes: Seq<NodeView>, i: int, kind: SyntaxKind) -> bool {
    nodes[i].parent matches Some(p) && nodes[p].kind == kind
}

impl<'a> PathSegment<'a> {
    /// The path that the segment is the last segment of. Segments are
    /// always nested in paths.
    pub fn parent_path(&self) -> (r: Path<'a>)
        requires
            self.wf(),
            parent_is(self.node().tree()@, self.node().index(), SyntaxKind::PATH),
        ensures
            r.wf(),
            r.node().tree() == self.node().tree(),
            Some(r.node().index()) == self.node().data().parent,
    {
        let parent = self.syntax().parent().unwrap();
        Path::cast(parent).unwrap()
    }

    /// What the segment is: a name, or one of the three keywords that a
    /// path can hold.
    pub fn kind(&self) -> (r: Option<PathSegmentKind<'a>>)
        requires
            self.wf(),
        ensures
            match nth_kid::<NameRef>(self.node().tree()@, self.node().index(), 0) {
                Some(i) => r matches Some(PathSegmentKind::Name(n)) && n.wf() && n.node().tree()
                    == self.node().tree() && n.node().index() == i,
                None => match first_child_kind(self.node().tree()@, self.node().index()) {
                    Some(SyntaxKind::SELF_KW) => r == Some(PathSegmentKind::SelfKw),
                    Some(SyntaxKind::SUPER_KW) => r == Some(PathSegmentKind::SuperKw),
                    Some(SyntaxKind::CRATE_KW) => r == Some(PathSegmentKind::CrateKw),
                    _ => r.is_none(),
                },
            },
    {
        let res = if let Some(name_ref) = self.name_ref() {
            PathSegmentKind::Name(name_ref)
        } else {
            match self.syntax().first_child() {
                None => {
                    return None;
                },
                Some(c) => match c.kind() {
                    SyntaxKind::SELF_KW => PathSegmentKind::SelfKw,
                    SyntaxKind::SUPER_KW => PathSegmentKind::SuperKw,
                    SyntaxKind::CRATE_KW => PathSegmentKind::CrateKw,
                    _ => {
                        return None;
                    },
                },
            }
        };
        Some(res)
    }
}

impl<'a> Path<'a> {
    /// The path that this path is the qualifier of, if there is one.
    pub fn parent_path(&self) -> (r: Option<Path<'a>>)
        requires
            self.wf(),
        ensures
            r.is_some() == parent_is(self.node().tree()@, self.node().index(), SyntaxKind::PATH),
            r matches Some(p) ==> {
                &&& p.wf()
                &&& p.node().tree() == self.node().tree()
                &&& Some(p.node().index()) == self.node().data().parent
            },
    {
        match self.syntax().parent() {
            Some(p) => Path::cast(p),
            None => None,
        }
    }
}

impl<'a> UseTree<'a> {
    pub fn has_star(&self) -> (r: bool)
        requires
            self.wf(),
        ensures
            r == has_child_of_kind(self.node().tree()@, self.node().index(), SyntaxKind::STAR),
    {
        self.syntax().has_child_of_kind(SyntaxKind::STAR)
    }
}

impl<'a> UseTreeList<'a> {
    /// The use tree that the list belongs to. Lists are always nested in
    /// use trees.
    pub fn parent_use_tree(&self) -> (r: UseTree<'a>)
        requires
            self.wf(),
            parent_is(self.node().tree()@, self.node().index(), SyntaxKind::USE_TREE),
        ensures
            r.wf(),
            r.node().tree() == self.node().tree(),
            Some(r.node().index()) == self.node().data().parent,
    {
        let parent = self.syntax().parent().unwrap();
        UseTree::cast(parent).unwrap()
    }
}

#[derive(Debug, Clone, Copy, PartialEq, Eq)]
pub enum StructFlavor<'a> {
    Tuple(PosFieldList<'a>),
    Named(NamedFieldDefList<'a>),
    Unit,
}

impl<'a> StructFlavor<'a> {
    /// The flavor that the children of node `i` show: named fields where
    /// there is a list of them, else positional fields where there is a
    /// list of those, else none.
    pub open spec fn wf(self) -> bool {
        match self {
            StructFlavor::Tuple(l) => l.wf(),
            StructFlavor::Named(l) => l.wf(),
            StructFlavor::Unit => true,
        }
    }

    /// The node of the field list, if the flavor has one.
    pub open spec fn list(self) -> Option<int> {
        match self {
            StructFlavor::Tuple(l) => Some(l.node().index()),
            StructFlavor::Named(l) => Some(l.node().index()),
            StructFlavor::Unit => None,
        }
    }

    pub fn from_node<N: AstNode<'a>>(node: &N) -> (r: StructFlavor<'a>)
        requires
            node.wf(),
        ensures
            r.wf(),
            match nth_kid::<NamedFieldDefList>(node.node().tree()@, node.node().index(), 0) {
                Some(i) => r matches StructFlavor::Named(l) && l.node().index() == i && l.node().tree()
                    == node.node().tree(),
                None => match nth_kid::<PosFieldList>(node.node().tree()@, node.node().index(), 0) {
                    Some(i) => r matches StructFlavor::Tuple(l) && l.node().index() == i
                        && l.node().tree() == node.node().tree(),
                    None => r matches StructFlavor::Unit,
                },
            },
    {
        if let Some(nfdl) = child_opt::<N, NamedFieldDefList>(node) {
            StructFlavor::Named(nfdl)
        } else if let Some(pfl) = child_opt::<N, PosFieldList>(node) {
            StructFlavor::Tuple(pfl)
        } else {
            StructFlavor::Unit
        }
    }
}

impl<'a> StructDef<'a> {
    pub fn flavor(&self) -> (r: StructFlavor<'a>)
        requires
            self.wf(),
        ensures
            r.wf(),
            match nth_kid::<NamedFieldDefList>(self.node().tree()@, self.node().index(), 0) {
                Some(i) => r matches StructFlavor::Named(l) && l.node().index() == i && l.node().tree()
                    == self.node().tree(),
                None => match nth_kid::<PosFieldList>(self.node().tree()@, self.node().index(), 0) {
                    Some(i) => r matches StructFlavor::Tuple(l) && l.node().index() == i
                        && l.node().tree() == self.node().tree(),
                    None => r matches StructFlavor::Unit,
                },
            },
    {
        StructFlavor::from_node(self)
    }
}

impl<'a> EnumVariant<'a> {
    pub fn flavor(&self) -> (r: StructFlavor<'a>)
        requires
            self.wf(),
        ensures
            r.wf(),
            match nth_kid::<NamedFieldDefList>(self.node().tree()@, self.node().index(), 0) {
                Some(i) => r matches StructFlavor::Named(l) && l.node().index() == i && l.node().tree()
                    == self.node().tree(),
                None => match nth_kid::<PosFieldList>(self.node().tree()@, self.node().index(), 0) {
                    Some(i) => r matches StructFlavor::Tuple(l) && l.node().index() == i
                        && l.node().tree() == self.node().tree(),
                    None => r matches StructFlavor::Unit,
                },
            },
    {
        StructFlavor::from_node(self)
    }
}

impl<'a> PointerType<'a> {
    pub fn is_mut(&self) -> (r: bool)
        requires
            self.wf(),
        ensures
            r == has_child_of_kind(self.node().tree()@, self.node().index(), SyntaxKind::MUT_KW),
    {
        self.syntax().has_child_of_kind(SyntaxKind::MUT_KW)
    }
}

impl<'a> ReferenceType<'a> {
    pub fn is_mut(&self) -> (r: bool)
        requires
            self.wf(),
        ensures
            r == has_child_of_kind(self.node().tree()@, self.node().index(), SyntaxKind::MUT_KW),
    {
        self.syntax().has_child_of_kind(SyntaxKind::MUT_KW)
    }
}

impl<'a> RefExpr<'a> {
    pub fn is_mut(&self) -> (r: bool)
        requires
            self.wf(),
        ensures
            r == has_child_of_kind(self.node().tree()@, self.node().index(), SyntaxKind::MUT_KW),
    {
        self.syntax().has_child_of_kind(SyntaxKind::MUT_KW)
    }
}

#[derive(Copy, Clone, Debug, PartialEq, Eq, Structural, Hash)]
pub enum PrefixOp {
    /// The `*` operator for dereferencing
    Deref,
    /// The `!` operator for logical inversion
    Not,
    /// The `-` operator for negation
    Neg,
}

/// The prefix operator that a token of kind `kind` is.
pub open spec fn prefix_op_of(kind: SyntaxKind) -> Option<PrefixOp> {
    match kind {
        SyntaxKind::STAR => Some(PrefixOp::Deref),
        SyntaxKind::EXCL => Some(PrefixOp::Not),
        SyntaxKind::MINUS => Some(PrefixOp::Neg),
        _ => None,
    }
}

/// The operator of the prefix expression at node `i`: what its first child is.
pub open spec fn spec_prefix_op(nodes: Seq<NodeView>, i: int) -> Option<PrefixOp> {
    match first_child_kind(nodes, i) {
        Some(k) => prefix_op_of(k),
        None => None,
    }
}

impl<'a> PrefixExpr<'a> {
    pub fn op(&self) -> (r: Option<PrefixOp>)
        requires
            self.wf(),
        ensures
            r == spec_prefix_op(self.node().tree()@, self.node().index()),
    {
        match self.syntax().first_child() {
            None => None,
            Some(c) => match c.kind() {
                SyntaxKind::STAR => Some(PrefixOp::Deref),
                SyntaxKind::EXCL => Some(PrefixOp::Not),
                SyntaxKind::MINUS => Some(PrefixOp::Neg),
                _ => None,
            },
        }
    }
}

#[derive(Copy, Clone, Debug, PartialEq, Eq, Structural, Hash)]
pub enum BinOp {
    /// The `||` operator for boolean OR
    BooleanOr,
    /// The `&&` operator for boolean AND
    BooleanAnd,
    /// The `==` operator for equality testing
    EqualityTest,
    /// The `<=` operator for lesser-equal testing
    LesserEqualTest,
    /// The `>=` operator for greater-equal testing
    GreaterEqualTest,
    /// The `<` operator for comparison
    LesserTest,
    /// The `>` operator for comparison
    GreaterTest,
}

/// The binary operator that a token of kind `kind` is.
pub open spec fn bin_op_of(kind: SyntaxKind) -> Option<BinOp> {
    match kind {
        SyntaxKind::PIPEPIPE => Some(BinOp::BooleanOr),
        SyntaxKind::AMPAMP => Some(BinOp::BooleanAnd),
        SyntaxKind::EQEQ => Some(BinOp::EqualityTest),
        SyntaxKind::LTEQ => Some(BinOp::LesserEqualTest),
        SyntaxKind::GTEQ => Some(BinOp::GreaterEqualTest),
        SyntaxKind::L_ANGLE => Some(BinOp::LesserTest),
        SyntaxKind::R_ANGLE => Some(BinOp::GreaterTest),
        _ => None,
    }
}

/// The first binary operator among the children of node `i`, from
/// position `from` on.
pub open spec fn first_bin_op(nodes: Seq<NodeView>, i: int, from: int) -> Option<BinOp>
    decreases nodes[i].children.len() - from,
{
    if from < 0 || from >= nodes[i].children.len() {
        None
    } else if bin_op_of(kind_of_child(nodes, i, from)).is_some() {
        bin_op_of(kind_of_child(nodes, i, from))
    } else {
        first_bin_op(nodes, i, from + 1)
    }
}

fn bin_op_for(kind: SyntaxKind) -> (r: Option<BinOp>)
    ensures
        r == bin_op_of(kind),
{
    match kind {
        SyntaxKind::PIPEPIPE => Some(BinOp::BooleanOr),
        SyntaxKind::AMPAMP => Some(BinOp::BooleanAnd),
        SyntaxKind::EQEQ => Some(BinOp::EqualityTest),
        SyntaxKind::LTEQ => Some(BinOp::LesserEqualTest),
        SyntaxKind::GTEQ => Some(BinOp::GreaterEqualTest),
        SyntaxKind::L_ANGLE => Some(BinOp::LesserTest),
        SyntaxKind::R_ANGLE => Some(BinOp::GreaterTest),
        _ => None,
    }
}

impl<'a> BinExpr<'a> {
    pub fn op(&self) -> (r: Option<BinOp>)
        requires
            self.wf(),
        ensures
            r == first_bin_op(self.node().tree()@, self.node().index(), 0),
    {
        let node = self.syntax();
        let n = node.child_count();
        let mut j: usize = 0;
        while j < n
            invariant
                node.wf(),
                node == self.node(),
                n == node.data().children.len(),
                j <= n,
                first_bin_op(node.tree()@, node.index(), j as int) == first_bin_op(
                    node.tree()@,
                    node.index(),
                    0,
                ),
            decreases n - j,
        {
            let op = bin_op_for(node.child(j).kind());
            if op.is_some() {
                return op;
            }
            j += 1;
        }
        None
    }

    pub fn lhs(&self) -> (r: Option<Expr<'a>>)
        requires
            self.wf(),
        ensures
            is_node(r, self.node(), nth_kid::<Expr>(self.node().tree()@, self.node().index(), 0)),
    {
        let it: AstChildren<'a, Expr<'a>> = children(self);
        it.nth(0)
    }

    pub fn rhs(&self) -> (r: Option<Expr<'a>>)
        requires
            self.wf(),
        ensures
            is_node(r, self.node(), nth_kid::<Expr>(self.node().tree()@, self.node().index(), 1)),
    {
        let it: AstChildren<'a, Expr<'a>> = children(self);
        it.nth(1)
    }

    pub fn sub_exprs(&self) -> (r: (Option<Expr<'a>>, Option<Expr<'a>>))
        requires
            self.wf(),
        ensures
            is_node(r.0, self.node(), nth_kid::<Expr>(self.node().tree()@, self.node().index(), 0)),
            is_node(r.1, self.node(), nth_kid::<Expr>(self.node().tree()@, self.node().index(), 1)),
    {
        let mut children: AstChildren<'a, Expr<'a>> = children(self);
        let first = children.next();
        let second = children.next();
        (first, second)
    }
}

#[derive(Copy, Clone, Debug, PartialEq, Eq, Structural, Hash)]
pub enum SelfParamFlavor {
    /// self
    Owned,
    /// &self
    Ref,
    /// &mut self
    MutRef,
}

/// The position of the first child of node `i` of kind `kind`.
pub open spec fn first_pos_of_kind(nodes: Seq<NodeView>, i: int, kind: SyntaxKind, from: int) -> int
    decreases nodes[i].children.len() - from,
{
    if from < 0 || from >= nodes[i].children.len() {
        from
    } else if kind_of_child(nodes, i, from) == kind {
        from
    } else {
        first_pos_of_kind(nodes, i, kind, from + 1)
    }
}

/// The flavor of the `self` parameter at node `i`: borrowed where it holds
/// an `&`, and mutably so where a `mut` follows the first `&`.
pub open spec fn spec_self_flavor(nodes: Seq<NodeView>, i: int) -> SelfParamFlavor {
    if has_child_of_kind(nodes, i, SyntaxKind::AMP) {
        if has_child_of_kind_from(
            nodes,
            i,
            SyntaxKind::MUT_KW,
            first_pos_of_kind(nodes, i, SyntaxKind::AMP, 0),
        ) {
            SelfParamFlavor::MutRef
        } else {
            SelfParamFlavor::Ref
        }
    } else {
        SelfParamFlavor::Owned
    }
}

impl<'a> SelfParam<'a> {
    pub fn flavor(&self) -> (r: SelfParamFlavor)
        requires
            self.wf(),
        ensures
            r == spec_self_flavor(self.node().tree()@, self.node().index()),
    {
        let node = self.syntax();
        let n = node.child_count();
        let mut j: usize = 0;
        while j < n && node.child(j).kind() != SyntaxKind::AMP
            invariant
                node.wf(),
                node == self.node(),
                n == node.data().children.len(),
                j <= n,
                first_pos_of_kind(node.tree()@, node.index(), SyntaxKind::AMP, j as int) == first_pos_of_kind(
                    node.tree()@,
                    node.index(),
                    SyntaxKind::AMP,
                    0,
                ),
                forall|k: int| 0 <= k < j ==> kind_of_child(node.tree()@, node.index(), k) != SyntaxKind::AMP,
            decreases n - j,
        {
            j += 1;
        }
        if j < n {
            assert(kind_of_child(node.tree()@, node.index(), j as int) == SyntaxKind::AMP);
            if node.has_child_of_kind_from(SyntaxKind::MUT_KW, j) {
                SelfParamFlavor::MutRef
            } else {
                SelfParamFlavor::Ref
            }
        } else {
            SelfParamFlavor::Owned
        }
    }
}

/// An item of a module, or a macro call that stands where an item can stand.
#[derive(Debug, Clone, Copy, PartialEq, Eq)]
pub enum ItemOrMacro<'a> {
    Item(ModuleItem<'a>),
    Macro(MacroCall<'a>),
}

impl<'a> AstNode<'a> for ItemOrMacro<'a> {
    open spec fn can_cast(kind: SyntaxKind) -> bool {
        ModuleItem::can_cast(kind) || kind == SyntaxKind::MACRO_CALL
    }

    open spec fn node(&self) -> SyntaxNodeRef<'a> {
        match self {
            ItemOrMacro::Item(n) => n.node(),
            ItemOrMacro::Macro(n) => n.node(),
        }
    }

    open spec fn wf(&self) -> bool {
        match self {
            ItemOrMacro::Item(n) => n.wf(),
            ItemOrMacro::Macro(n) => n.wf(),
        }
    }

    proof fn lemma_wf(&self) {
        match self {
            ItemOrMacro::Item(n) => n.lemma_wf(),
            ItemOrMacro::Macro(n) => n.lemma_wf(),
        }
    }

    fn cast(syntax: SyntaxNodeRef<'a>) -> (r: Option<Self>) {
        match ModuleItem::cast(syntax) {
            Some(item) => Some(ItemOrMacro::Item(item)),
            None => match MacroCall::cast(syntax) {
                Some(call) => Some(ItemOrMacro::Macro(call)),
                None => None,
            },
        }
    }

    fn syntax(&self) -> (r: SyntaxNodeRef<'a>) {
        match self {
            ItemOrMacro::Item(n) => n.syntax(),
            ItemOrMacro::Macro(n) => n.syntax(),
        }
    }
}

impl<'a> SourceFile<'a> {
    /// The items of the file and the macro calls among them, in the order
    /// of the source.
    pub fn items_with_macros(&self) -> (r: AstChildren<'a, ItemOrMacro<'a>>)
        requires
            self.wf(),
        ensures
            r.wf(),
            r.parent() == self.node(),
            r.pos() == 0,
    {
        children(self)
    }
}

impl<'a> ItemList<'a> {
    /// The items of the list and the macro calls among them, in the order
    /// of the source.
    pub fn items_with_macros(&self) -> (r: AstChildren<'a, ItemOrMacro<'a>>)
        requires
            self.wf(),
        ensures
            r.wf(),
            r.parent() == self.node(),
            r.pos() == 0,
    {
        children(self)
    }
}

} // verus!
