//! The typed views, one for each kind of node, with the children that each
//! can be asked for.

use vstd::prelude::*;
use crate::syntax::SyntaxNodeRef;
use crate::syntax_kind::SyntaxKind;
use crate::ast::{AstChildren, AstNode, ArgListOwner, AttrsOwner, DocCommentsOwner, FnDefOwner, LoopBodyOwner, ModuleItemOwner, NameOwner, TypeParamsOwner, VisibilityOwner, child_opt, children, is_node, nth_kid};

verus! {

/// A whole file: the root of its tree.
#[derive(Debug, Clone, Copy, PartialEq, Eq)]
pub struct SourceFile<'a> {
    syntax: SyntaxNodeRef<'a>,
}

impl<'a> AstNode<'a> for SourceFile<'a> {
    open spec fn can_cast(kind: SyntaxKind) -> bool {
        kind == SyntaxKind::SOURCE_FILE
    }

    closed spec fn node(&self) -> SyntaxNodeRef<'a> {
        self.syntax
    }

    open spec fn wf(&self) -> bool {
        self.node().wf() && self.node().data().kind == SyntaxKind::SOURCE_FILE
    }

    proof fn lemma_wf(&self) {
    }

    fn cast(syntax: SyntaxNodeRef<'a>) -> (r: Option<Self>) {
        if syntax.kind() == SyntaxKind::SOURCE_FILE {
            Some(SourceFile { syntax })
        } else {
            None
        }
    }

    fn syntax(&self) -> (r: SyntaxNodeRef<'a>) {
        self.syntax
    }
}

impl<'a> ModuleItemOwner<'a> for SourceFile<'a> {
}

impl<'a> FnDefOwner<'a> for SourceFile<'a> {
}

impl<'a> SourceFile<'a> {
    pub fn modules(&self) -> (r: AstChildren<'a, Module<'a>>)
        requires
            self.wf(),
        ensures
            r.wf(),
            r.parent() == self.node(),
            r.pos() == 0,
    {
        children(self)
    }
}

/// A function: `fn f(x: u32) -> u32 { x }`.
#[derive(Debug, Clone, Copy, PartialEq, Eq)]
pub struct FnDef<'a> {
    syntax: SyntaxNodeRef<'a>,
}

impl<'a> AstNode<'a> for FnDef<'a> {
    open spec fn can_cast(kind: SyntaxKind) -> bool {
        kind == SyntaxKind::FN_DEF
    }

    closed spec fn node(&self) -> SyntaxNodeRef<'a> {
        self.syntax
    }

    open spec fn wf(&self) -> bool {
        self.node().wf() && self.node().data().kind == SyntaxKind::FN_DEF
    }

    proof fn lemma_wf(&self) {
    }

    fn cast(syntax: SyntaxNodeRef<'a>) -> (r: Option<Self>) {
        if syntax.kind() == SyntaxKind::FN_DEF {
            Some(FnDef { syntax })
        } else {
            None
        }
    }

    fn syntax(&self) -> (r: SyntaxNodeRef<'a>) {
        self.syntax
    }
}

impl<'a> VisibilityOwner<'a> for FnDef<'a> {
}

impl<'a> NameOwner<'a> for FnDef<'a> {
}

impl<'a> TypeParamsOwner<'a> for FnDef<'a> {
}

impl<'a> AttrsOwner<'a> for FnDef<'a> {
}

impl<'a> DocCommentsOwner<'a> for FnDef<'a> {
}

impl<'a> FnDef<'a> {
    pub fn param_list(&self) -> (r: Option<ParamList<'a>>)
        requires
            self.wf(),
        ensures
            is_node(r, self.node(), nth_kid::<ParamList>(self.node().tree()@, self.node().index(), 0)),
    {
        child_opt(self)
    }

    pub fn body(&self) -> (r: Option<Block<'a>>)
        requires
            self.wf(),
        ensures
            is_node(r, self.node(), nth_kid::<Block>(self.node().tree()@, self.node().index(), 0)),
    {
        child_opt(self)
    }

    pub fn ret_type(&self) -> (r: Option<RetType<'a>>)
        requires
            self.wf(),
        ensures
            is_node(r, self.node(), nth_kid::<RetType>(self.node().tree()@, self.node().index(), 0)),
    {
        child_opt(self)
    }
}

/// The return type of a function, with its arrow.
#[derive(Debug, Clone, Copy, PartialEq, Eq)]
pub struct RetType<'a> {
    syntax: SyntaxNodeRef<'a>,
}

impl<'a> AstNode<'a> for RetType<'a> {
    open spec fn can_cast(kind: SyntaxKind) -> bool {
        kind == SyntaxKind::RET_TYPE
    }

    closed spec fn node(&self) -> SyntaxNodeRef<'a> {
        self.syntax
    }

    open spec fn wf(&self) -> bool {
        self.node().wf() && self.node().data().kind == SyntaxKind::RET_TYPE
    }

    proof fn lemma_wf(&self) {
    }

    fn cast(syntax: SyntaxNodeRef<'a>) -> (r: Option<Self>) {
        if syntax.kind() == SyntaxKind::RET_TYPE {
            Some(RetType { syntax })
        } else {
            None
        }
    }

    fn syntax(&self) -> (r: SyntaxNodeRef<'a>) {
        self.syntax
    }
}

impl<'a> RetType<'a> {
    pub fn type_ref(&self) -> (r: Option<TypeRef<'a>>)
        requires
            self.wf(),
        ensures
            is_node(r, self.node(), nth_kid::<TypeRef>(self.node().tree()@, self.node().index(), 0)),
    {
        child_opt(self)
    }
}

/// A struct definition.
#[derive(Debug, Clone, Copy, PartialEq, Eq)]
pub struct StructDef<'a> {
    syntax: SyntaxNodeRef<'a>,
}

impl<'a> AstNode<'a> for StructDef<'a> {
    open spec fn can_cast(kind: SyntaxKind) -> bool {
        kind == SyntaxKind::STRUCT_DEF
    }

    closed spec fn node(&self) -> SyntaxNodeRef<'a> {
        self.syntax
    }

    open spec fn wf(&self) -> bool {
        self.node().wf() && self.node().data().kind == SyntaxKind::STRUCT_DEF
    }

    proof fn lemma_wf(&self) {
    }

    fn cast(syntax: SyntaxNodeRef<'a>) -> (r: Option<Self>) {
        if syntax.kind() == SyntaxKind::STRUCT_DEF {
            Some(StructDef { syntax })
        } else {
            None
        }
    }

    fn syntax(&self) -> (r: SyntaxNodeRef<'a>) {
        self.syntax
    }
}

impl<'a> VisibilityOwner<'a> for StructDef<'a> {
}

impl<'a> NameOwner<'a> for StructDef<'a> {
}

impl<'a> TypeParamsOwner<'a> for StructDef<'a> {
}

impl<'a> AttrsOwner<'a> for StructDef<'a> {
}

impl<'a> DocCommentsOwner<'a> for StructDef<'a> {
}

/// The fields of a struct in braces.
#[derive(Debug, Clone, Copy, PartialEq, Eq)]
pub struct NamedFieldDefList<'a> {
    syntax: SyntaxNodeRef<'a>,
}

impl<'a> AstNode<'a> for NamedFieldDefList<'a> {
    open spec fn can_cast(kind: SyntaxKind) -> bool {
        kind == SyntaxKind::NAMED_FIELD_DEF_LIST
    }

    closed spec fn node(&self) -> SyntaxNodeRef<'a> {
        self.syntax
    }

    open spec fn wf(&self) -> bool {
        self.node().wf() && self.node().data().kind == SyntaxKind::NAMED_FIELD_DEF_LIST
    }

    proof fn lemma_wf(&self) {
    }

    fn cast(syntax: SyntaxNodeRef<'a>) -> (r: Option<Self>) {
        if syntax.kind() == SyntaxKind::NAMED_FIELD_DEF_LIST {
            Some(NamedFieldDefList { syntax })
        } else {
            None
        }
    }

    fn syntax(&self) -> (r: SyntaxNodeRef<'a>) {
        self.syntax
    }
}

impl<'a> NamedFieldDefList<'a> {
    pub fn fields(&self) -> (r: AstChildren<'a, NamedFieldDef<'a>>)
        requires
            self.wf(),
        ensures
            r.wf(),
            r.parent() == self.node(),
            r.pos() == 0,
    {
        children(self)
    }
}

/// One named field of a struct definition.
#[derive(Debug, Clone, Copy, PartialEq, Eq)]
pub struct NamedFieldDef<'a> {
    syntax: SyntaxNodeRef<'a>,
}

impl<'a> AstNode<'a> for NamedFieldDef<'a> {
    open spec fn can_cast(kind: SyntaxKind) -> bool {
        kind == SyntaxKind::NAMED_FIELD_DEF
    }

    closed spec fn node(&self) -> SyntaxNodeRef<'a> {
        self.syntax
    }

    open spec fn wf(&self) -> bool {
        self.node().wf() && self.node().data().kind == SyntaxKind::NAMED_FIELD_DEF
    }

    proof fn lemma_wf(&self) {
    }

    fn cast(syntax: SyntaxNodeRef<'a>) -> (r: Option<Self>) {
        if syntax.kind() == SyntaxKind::NAMED_FIELD_DEF {
            Some(NamedFieldDef { syntax })
        } else {
            None
        }
    }

    fn syntax(&self) -> (r: SyntaxNodeRef<'a>) {
        self.syntax
    }
}

impl<'a> VisibilityOwner<'a> for NamedFieldDef<'a> {
}

impl<'a> NameOwner<'a> for NamedFieldDef<'a> {
}

impl<'a> AttrsOwner<'a> for NamedFieldDef<'a> {
}

impl<'a> DocCommentsOwner<'a> for NamedFieldDef<'a> {
}

impl<'a> NamedFieldDef<'a> {
    pub fn type_ref(&self) -> (r: Option<TypeRef<'a>>)
        requires
            self.wf(),
        ensures
            is_node(r, self.node(), nth_kid::<TypeRef>(self.node().tree()@, self.node().index(), 0)),
    {
        child_opt(self)
    }
}

/// The fields of a tuple struct in parentheses.
#[derive(Debug, Clone, Copy, PartialEq, Eq)]
pub struct PosFieldList<'a> {
    syntax: SyntaxNodeRef<'a>,
}

impl<'a> AstNode<'a> for PosFieldList<'a> {
    open spec fn can_cast(kind: SyntaxKind) -> bool {
        kind == SyntaxKind::POS_FIELD_LIST
    }

    closed spec fn node(&self) -> SyntaxNodeRef<'a> {
        self.syntax
    }

    open spec fn wf(&self) -> bool {
        self.node().wf() && self.node().data().kind == SyntaxKind::POS_FIELD_LIST
    }

    proof fn lemma_wf(&self) {
    }

    fn cast(syntax: SyntaxNodeRef<'a>) -> (r: Option<Self>) {
        if syntax.kind() == SyntaxKind::POS_FIELD_LIST {
            Some(PosFieldList { syntax })
        } else {
            None
        }
    }

    fn syntax(&self) -> (r: SyntaxNodeRef<'a>) {
        self.syntax
    }
}

impl<'a> PosFieldList<'a> {
    pub fn fields(&self) -> (r: AstChildren<'a, PosField<'a>>)
        requires
            self.wf(),
        ensures
            r.wf(),
            r.parent() == self.node(),
            r.pos() == 0,
    {
        children(self)
    }
}

/// One field of a tuple struct definition.
#[derive(Debug, Clone, Copy, PartialEq, Eq)]
pub struct PosField<'a> {
    syntax: SyntaxNodeRef<'a>,
}

impl<'a> AstNode<'a> for PosField<'a> {
    open spec fn can_cast(kind: SyntaxKind) -> bool {
        kind == SyntaxKind::POS_FIELD
    }

    closed spec fn node(&self) -> SyntaxNodeRef<'a> {
        self.syntax
    }

    open spec fn wf(&self) -> bool {
        self.node().wf() && self.node().data().kind == SyntaxKind::POS_FIELD
    }

    proof fn lemma_wf(&self) {
    }

    fn cast(syntax: SyntaxNodeRef<'a>) -> (r: Option<Self>) {
        if syntax.kind() == SyntaxKind::POS_FIELD {
            Some(PosField { syntax })
        } else {
            None
        }
    }

    fn syntax(&self) -> (r: SyntaxNodeRef<'a>) {
        self.syntax
    }
}

impl<'a> VisibilityOwner<'a> for PosField<'a> {
}

impl<'a> AttrsOwner<'a> for PosField<'a> {
}

impl<'a> PosField<'a> {
    pub fn type_ref(&self) -> (r: Option<TypeRef<'a>>)
        requires
            self.wf(),
        ensures
            is_node(r, self.node(), nth_kid::<TypeRef>(self.node().tree()@, self.node().index(), 0)),
    {
        child_opt(self)
    }
}

/// An enum definition.
#[derive(Debug, Clone, Copy, PartialEq, Eq)]
pub struct EnumDef<'a> {
    syntax: SyntaxNodeRef<'a>,
}

impl<'a> AstNode<'a> for EnumDef<'a> {
    open spec fn can_cast(kind: SyntaxKind) -> bool {
        kind == SyntaxKind::ENUM_DEF
    }

    closed spec fn node(&self) -> SyntaxNodeRef<'a> {
        self.syntax
    }

    open spec fn wf(&self) -> bool {
        self.node().wf() && self.node().data().kind == SyntaxKind::ENUM_DEF
    }

    proof fn lemma_wf(&self) {
    }

    fn cast(syntax: SyntaxNodeRef<'a>) -> (r: Option<Self>) {
        if syntax.kind() == SyntaxKind::ENUM_DEF {
            Some(EnumDef { syntax })
        } else {
            None
        }
    }

    fn syntax(&self) -> (r: SyntaxNodeRef<'a>) {
        self.syntax
    }
}

impl<'a> VisibilityOwner<'a> for EnumDef<'a> {
}

impl<'a> NameOwner<'a> for EnumDef<'a> {
}

impl<'a> TypeParamsOwner<'a> for EnumDef<'a> {
}

impl<'a> AttrsOwner<'a> for EnumDef<'a> {
}

impl<'a> DocCommentsOwner<'a> for EnumDef<'a> {
}

impl<'a> EnumDef<'a> {
    pub fn variant_list(&self) -> (r: Option<EnumVariantList<'a>>)
        requires
            self.wf(),
        ensures
            is_node(r, self.node(), nth_kid::<EnumVariantList>(self.node().tree()@, self.node().index(), 0)),
    {
        child_opt(self)
    }
}

/// The variants of an enum in braces.
#[derive(Debug, Clone, Copy, PartialEq, Eq)]
pub struct EnumVariantList<'a> {
    syntax: SyntaxNodeRef<'a>,
}

impl<'a> AstNode<'a> for EnumVariantList<'a> {
    open spec fn can_cast(kind: SyntaxKind) -> bool {
        kind == SyntaxKind::ENUM_VARIANT_LIST
    }

    closed spec fn node(&self) -> SyntaxNodeRef<'a> {
        self.syntax
    }

    open spec fn wf(&self) -> bool {
        self.node().wf() && self.node().data().kind == SyntaxKind::ENUM_VARIANT_LIST
    }

    proof fn lemma_wf(&self) {
    }

    fn cast(syntax: SyntaxNodeRef<'a>) -> (r: Option<Self>) {
        if syntax.kind() == SyntaxKind::ENUM_VARIANT_LIST {
            Some(EnumVariantList { syntax })
        } else {
            None
        }
    }

    fn syntax(&self) -> (r: SyntaxNodeRef<'a>) {
        self.syntax
    }
}

impl<'a> EnumVariantList<'a> {
    pub fn variants(&self) -> (r: AstChildren<'a, EnumVariant<'a>>)
        requires
            self.wf(),
        ensures
            r.wf(),
            r.parent() == self.node(),
            r.pos() == 0,
    {
        children(self)
    }
}

/// One variant of an enum definition.
#[derive(Debug, Clone, Copy, PartialEq, Eq)]
pub struct EnumVariant<'a> {
    syntax: SyntaxNodeRef<'a>,
}

impl<'a> AstNode<'a> for EnumVariant<'a> {
    open spec fn can_cast(kind: SyntaxKind) -> bool {
        kind == SyntaxKind::ENUM_VARIANT
    }

    closed spec fn node(&self) -> SyntaxNodeRef<'a> {
        self.syntax
    }

    open spec fn wf(&self) -> bool {
        self.node().wf() && self.node().data().kind == SyntaxKind::ENUM_VARIANT
    }

    proof fn lemma_wf(&self) {
    }

    fn cast(syntax: SyntaxNodeRef<'a>) -> (r: Option<Self>) {
        if syntax.kind() == SyntaxKind::ENUM_VARIANT {
            Some(EnumVariant { syntax })
        } else {
            None
        }
    }

    fn syntax(&self) -> (r: SyntaxNodeRef<'a>) {
        self.syntax
    }
}

impl<'a> NameOwner<'a> for EnumVariant<'a> {
}

impl<'a> DocCommentsOwner<'a> for EnumVariant<'a> {
}

impl<'a> EnumVariant<'a> {
    pub fn expr(&self) -> (r: Option<Expr<'a>>)
        requires
            self.wf(),
        ensures
            is_node(r, self.node(), nth_kid::<Expr>(self.node().tree()@, self.node().index(), 0)),
    {
        child_opt(self)
    }
}

/// A trait definition.
#[derive(Debug, Clone, Copy, PartialEq, Eq)]
pub struct TraitDef<'a> {
    syntax: SyntaxNodeRef<'a>,
}

impl<'a> AstNode<'a> for TraitDef<'a> {
    open spec fn can_cast(kind: SyntaxKind) -> bool {
        kind == SyntaxKind::TRAIT_DEF
    }

    closed spec fn node(&self) -> SyntaxNodeRef<'a> {
        self.syntax
    }

    open spec fn wf(&self) -> bool {
        self.node().wf() && self.node().data().kind == SyntaxKind::TRAIT_DEF
    }

    proof fn lemma_wf(&self) {
    }

    fn cast(syntax: SyntaxNodeRef<'a>) -> (r: Option<Self>) {
        if syntax.kind() == SyntaxKind::TRAIT_DEF {
            Some(TraitDef { syntax })
        } else {
            None
        }
    }

    fn syntax(&self) -> (r: SyntaxNodeRef<'a>) {
        self.syntax
    }
}

impl<'a> VisibilityOwner<'a> for TraitDef<'a> {
}

impl<'a> NameOwner<'a> for TraitDef<'a> {
}

impl<'a> AttrsOwner<'a> for TraitDef<'a> {
}

impl<'a> DocCommentsOwner<'a> for TraitDef<'a> {
}

/// A module: `mod m;` or `mod m { .. }`.
#[derive(Debug, Clone, Copy, PartialEq, Eq)]
pub struct Module<'a> {
    syntax: SyntaxNodeRef<'a>,
}

impl<'a> AstNode<'a> for Module<'a> {
    open spec fn can_cast(kind: SyntaxKind) -> bool {
        kind == SyntaxKind::MODULE
    }

    closed spec fn node(&self) -> SyntaxNodeRef<'a> {
        self.syntax
    }

    open spec fn wf(&self) -> bool {
        self.node().wf() && self.node().data().kind == SyntaxKind::MODULE
    }

    proof fn lemma_wf(&self) {
    }

    fn cast(syntax: SyntaxNodeRef<'a>) -> (r: Option<Self>) {
        if syntax.kind() == SyntaxKind::MODULE {
            Some(Module { syntax })
        } else {
            None
        }
    }

    fn syntax(&self) -> (r: SyntaxNodeRef<'a>) {
        self.syntax
    }
}

impl<'a> VisibilityOwner<'a> for Module<'a> {
}

impl<'a> NameOwner<'a> for Module<'a> {
}

impl<'a> AttrsOwner<'a> for Module<'a> {
}

impl<'a> DocCommentsOwner<'a> for Module<'a> {
}

impl<'a> Module<'a> {
    pub fn item_list(&self) -> (r: Option<ItemList<'a>>)
        requires
            self.wf(),
        ensures
            is_node(r, self.node(), nth_kid::<ItemList>(self.node().tree()@, self.node().index(), 0)),
    {
        child_opt(self)
    }
}

/// The items of a module or an impl block in braces.
#[derive(Debug, Clone, Copy, PartialEq, Eq)]
pub struct ItemList<'a> {
    syntax: SyntaxNodeRef<'a>,
}

impl<'a> AstNode<'a> for ItemList<'a> {
    open spec fn can_cast(kind: SyntaxKind) -> bool {
        kind == SyntaxKind::ITEM_LIST
    }

    closed spec fn node(&self) -> SyntaxNodeRef<'a> {
        self.syntax
    }

    open spec fn wf(&self) -> bool {
        self.node().wf() && self.node().data().kind == SyntaxKind::ITEM_LIST
    }

    proof fn lemma_wf(&self) {
    }

    fn cast(syntax: SyntaxNodeRef<'a>) -> (r: Option<Self>) {
        if syntax.kind() == SyntaxKind::ITEM_LIST {
            Some(ItemList { syntax })
        } else {
            None
        }
    }

    fn syntax(&self) -> (r: SyntaxNodeRef<'a>) {
        self.syntax
    }
}

impl<'a> FnDefOwner<'a> for ItemList<'a> {
}

impl<'a> ModuleItemOwner<'a> for ItemList<'a> {
}

impl<'a> ItemList<'a> {
    pub fn impl_items(&self) -> (r: AstChildren<'a, ImplItem<'a>>)
        requires
            self.wf(),
        ensures
            r.wf(),
            r.parent() == self.node(),
            r.pos() == 0,
    {
        children(self)
    }
}

/// A constant definition.
#[derive(Debug, Clone, Copy, PartialEq, Eq)]
pub struct ConstDef<'a> {
    syntax: SyntaxNodeRef<'a>,
}

impl<'a> AstNode<'a> for ConstDef<'a> {
    open spec fn can_cast(kind: SyntaxKind) -> bool {
        kind == SyntaxKind::CONST_DEF
    }

    closed spec fn node(&self) -> SyntaxNodeRef<'a> {
        self.syntax
    }

    open spec fn wf(&self) -> bool {
        self.node().wf() && self.node().data().kind == SyntaxKind::CONST_DEF
    }

    proof fn lemma_wf(&self) {
    }

    fn cast(syntax: SyntaxNodeRef<'a>) -> (r: Option<Self>) {
        if syntax.kind() == SyntaxKind::CONST_DEF {
            Some(ConstDef { syntax })
        } else {
            None
        }
    }

    fn syntax(&self) -> (r: SyntaxNodeRef<'a>) {
        self.syntax
    }
}

impl<'a> VisibilityOwner<'a> for ConstDef<'a> {
}

impl<'a> NameOwner<'a> for ConstDef<'a> {
}

impl<'a> TypeParamsOwner<'a> for ConstDef<'a> {
}

impl<'a> AttrsOwner<'a> for ConstDef<'a> {
}

impl<'a> DocCommentsOwner<'a> for ConstDef<'a> {
}

/// A static definition.
#[derive(Debug, Clone, Copy, PartialEq, Eq)]
pub struct StaticDef<'a> {
    syntax: SyntaxNodeRef<'a>,
}

impl<'a> AstNode<'a> for StaticDef<'a> {
    open spec fn can_cast(kind: SyntaxKind) -> bool {
        kind == SyntaxKind::STATIC_DEF
    }

    closed spec fn node(&self) -> SyntaxNodeRef<'a> {
        self.syntax
    }

    open spec fn wf(&self) -> bool {
        self.node().wf() && self.node().data().kind == SyntaxKind::STATIC_DEF
    }

    proof fn lemma_wf(&self) {
    }

    fn cast(syntax: SyntaxNodeRef<'a>) -> (r: Option<Self>) {
        if syntax.kind() == SyntaxKind::STATIC_DEF {
            Some(StaticDef { syntax })
        } else {
            None
        }
    }

    fn syntax(&self) -> (r: SyntaxNodeRef<'a>) {
        self.syntax
    }
}

impl<'a> VisibilityOwner<'a> for StaticDef<'a> {
}

impl<'a> NameOwner<'a> for StaticDef<'a> {
}

impl<'a> TypeParamsOwner<'a> for StaticDef<'a> {
}

impl<'a> AttrsOwner<'a> for StaticDef<'a> {
}

impl<'a> DocCommentsOwner<'a> for StaticDef<'a> {
}

/// A type alias.
#[derive(Debug, Clone, Copy, PartialEq, Eq)]
pub struct TypeDef<'a> {
    syntax: SyntaxNodeRef<'a>,
}

impl<'a> AstNode<'a> for TypeDef<'a> {
    open spec fn can_cast(kind: SyntaxKind) -> bool {
        kind == SyntaxKind::TYPE_DEF
    }

    closed spec fn node(&self) -> SyntaxNodeRef<'a> {
        self.syntax
    }

    open spec fn wf(&self) -> bool {
        self.node().wf() && self.node().data().kind == SyntaxKind::TYPE_DEF
    }

    proof fn lemma_wf(&self) {
    }

    fn cast(syntax: SyntaxNodeRef<'a>) -> (r: Option<Self>) {
        if syntax.kind() == SyntaxKind::TYPE_DEF {
            Some(TypeDef { syntax })
        } else {
            None
        }
    }

    fn syntax(&self) -> (r: SyntaxNodeRef<'a>) {
        self.syntax
    }
}

impl<'a> VisibilityOwner<'a> for TypeDef<'a> {
}

impl<'a> NameOwner<'a> for TypeDef<'a> {
}

impl<'a> TypeParamsOwner<'a> for TypeDef<'a> {
}

impl<'a> AttrsOwner<'a> for TypeDef<'a> {
}

impl<'a> DocCommentsOwner<'a> for TypeDef<'a> {
}

/// An impl block.
#[derive(Debug, Clone, Copy, PartialEq, Eq)]
pub struct ImplBlock<'a> {
    syntax: SyntaxNodeRef<'a>,
}

impl<'a> AstNode<'a> for ImplBlock<'a> {
    open spec fn can_cast(kind: SyntaxKind) -> bool {
        kind == SyntaxKind::IMPL_BLOCK
    }

    closed spec fn node(&self) -> SyntaxNodeRef<'a> {
        self.syntax
    }

    open spec fn wf(&self) -> bool {
        self.node().wf() && self.node().data().kind == SyntaxKind::IMPL_BLOCK
    }

    proof fn lemma_wf(&self) {
    }

    fn cast(syntax: SyntaxNodeRef<'a>) -> (r: Option<Self>) {
        if syntax.kind() == SyntaxKind::IMPL_BLOCK {
            Some(ImplBlock { syntax })
        } else {
            None
        }
    }

    fn syntax(&self) -> (r: SyntaxNodeRef<'a>) {
        self.syntax
    }
}

impl<'a> ImplBlock<'a> {
    pub fn item_list(&self) -> (r: Option<ItemList<'a>>)
        requires
            self.wf(),
        ensures
            is_node(r, self.node(), nth_kid::<ItemList>(self.node().tree()@, self.node().index(), 0)),
    {
        child_opt(self)
    }
}

/// A `use` item.
#[derive(Debug, Clone, Copy, PartialEq, Eq)]
pub struct UseItem<'a> {
    syntax: SyntaxNodeRef<'a>,
}

impl<'a> AstNode<'a> for UseItem<'a> {
    open spec fn can_cast(kind: SyntaxKind) -> bool {
        kind == SyntaxKind::USE_ITEM
    }

    closed spec fn node(&self) -> SyntaxNodeRef<'a> {
        self.syntax
    }

    open spec fn wf(&self) -> bool {
        self.node().wf() && self.node().data().kind == SyntaxKind::USE_ITEM
    }

    proof fn lemma_wf(&self) {
    }

    fn cast(syntax: SyntaxNodeRef<'a>) -> (r: Option<Self>) {
        if syntax.kind() == SyntaxKind::USE_ITEM {
            Some(UseItem { syntax })
        } else {
            None
        }
    }

    fn syntax(&self) -> (r: SyntaxNodeRef<'a>) {
        self.syntax
    }
}

impl<'a> UseItem<'a> {
    pub fn use_tree(&self) -> (r: Option<UseTree<'a>>)
        requires
            self.wf(),
        ensures
            is_node(r, self.node(), nth_kid::<UseTree>(self.node().tree()@, self.node().index(), 0)),
    {
        child_opt(self)
    }
}

/// One tree of a `use` item.
#[derive(Debug, Clone, Copy, PartialEq, Eq)]
pub struct UseTree<'a> {
    syntax: SyntaxNodeRef<'a>,
}

impl<'a> AstNode<'a> for UseTree<'a> {
    open spec fn can_cast(kind: SyntaxKind) -> bool {
        kind == SyntaxKind::USE_TREE
    }

    closed spec fn node(&self) -> SyntaxNodeRef<'a> {
        self.syntax
    }

    open spec fn wf(&self) -> bool {
        self.node().wf() && self.node().data().kind == SyntaxKind::USE_TREE
    }

    proof fn lemma_wf(&self) {
    }

    fn cast(syntax: SyntaxNodeRef<'a>) -> (r: Option<Self>) {
        if syntax.kind() == SyntaxKind::USE_TREE {
            Some(UseTree { syntax })
        } else {
            None
        }
    }

    fn syntax(&self) -> (r: SyntaxNodeRef<'a>) {
        self.syntax
    }
}

impl<'a> UseTree<'a> {
    pub fn path(&self) -> (r: Option<Path<'a>>)
        requires
            self.wf(),
        ensures
            is_node(r, self.node(), nth_kid::<Path>(self.node().tree()@, self.node().index(), 0)),
    {
        child_opt(self)
    }

    pub fn use_tree_list(&self) -> (r: Option<UseTreeList<'a>>)
        requires
            self.wf(),
        ensures
            is_node(r, self.node(), nth_kid::<UseTreeList>(self.node().tree()@, self.node().index(), 0)),
    {
        child_opt(self)
    }
}

/// The trees of a `use` item in braces.
#[derive(Debug, Clone, Copy, PartialEq, Eq)]
pub struct UseTreeList<'a> {
    syntax: SyntaxNodeRef<'a>,
}

impl<'a> AstNode<'a> for UseTreeList<'a> {
    open spec fn can_cast(kind: SyntaxKind) -> bool {
        kind == SyntaxKind::USE_TREE_LIST
    }

    closed spec fn node(&self) -> SyntaxNodeRef<'a> {
        self.syntax
    }

    open spec fn wf(&self) -> bool {
        self.node().wf() && self.node().data().kind == SyntaxKind::USE_TREE_LIST
    }

    proof fn lemma_wf(&self) {
    }

    fn cast(syntax: SyntaxNodeRef<'a>) -> (r: Option<Self>) {
        if syntax.kind() == SyntaxKind::USE_TREE_LIST {
            Some(UseTreeList { syntax })
        } else {
            None
        }
    }

    fn syntax(&self) -> (r: SyntaxNodeRef<'a>) {
        self.syntax
    }
}

impl<'a> UseTreeList<'a> {
    pub fn use_trees(&self) -> (r: AstChildren<'a, UseTree<'a>>)
        requires
            self.wf(),
        ensures
            r.wf(),
            r.parent() == self.node(),
            r.pos() == 0,
    {
        children(self)
    }
}

/// The declaration of a crate from outside.
#[derive(Debug, Clone, Copy, PartialEq, Eq)]
pub struct ExternCrateItem<'a> {
    syntax: SyntaxNodeRef<'a>,
}

impl<'a> AstNode<'a> for ExternCrateItem<'a> {
    open spec fn can_cast(kind: SyntaxKind) -> bool {
        kind == SyntaxKind::EXTERN_CRATE_ITEM
    }

    closed spec fn node(&self) -> SyntaxNodeRef<'a> {
        self.syntax
    }

    open spec fn wf(&self) -> bool {
        self.node().wf() && self.node().data().kind == SyntaxKind::EXTERN_CRATE_ITEM
    }

    proof fn lemma_wf(&self) {
    }

    fn cast(syntax: SyntaxNodeRef<'a>) -> (r: Option<Self>) {
        if syntax.kind() == SyntaxKind::EXTERN_CRATE_ITEM {
            Some(ExternCrateItem { syntax })
        } else {
            None
        }
    }

    fn syntax(&self) -> (r: SyntaxNodeRef<'a>) {
        self.syntax
    }
}

/// A macro call.
#[derive(Debug, Clone, Copy, PartialEq, Eq)]
pub struct MacroCall<'a> {
    syntax: SyntaxNodeRef<'a>,
}

impl<'a> AstNode<'a> for MacroCall<'a> {
    open spec fn can_cast(kind: SyntaxKind) -> bool {
        kind == SyntaxKind::MACRO_CALL
    }

    closed spec fn node(&self) -> SyntaxNodeRef<'a> {
        self.syntax
    }

    open spec fn wf(&self) -> bool {
        self.node().wf() && self.node().data().kind == SyntaxKind::MACRO_CALL
    }

    proof fn lemma_wf(&self) {
    }

    fn cast(syntax: SyntaxNodeRef<'a>) -> (r: Option<Self>) {
        if syntax.kind() == SyntaxKind::MACRO_CALL {
            Some(MacroCall { syntax })
        } else {
            None
        }
    }

    fn syntax(&self) -> (r: SyntaxNodeRef<'a>) {
        self.syntax
    }
}

impl<'a> MacroCall<'a> {
    pub fn token_tree(&self) -> (r: Option<TokenTree<'a>>)
        requires
            self.wf(),
        ensures
            is_node(r, self.node(), nth_kid::<TokenTree>(self.node().tree()@, self.node().index(), 0)),
    {
        child_opt(self)
    }

    pub fn path(&self) -> (r: Option<Path<'a>>)
        requires
            self.wf(),
        ensures
            is_node(r, self.node(), nth_kid::<Path>(self.node().tree()@, self.node().index(), 0)),
    {
        child_opt(self)
    }
}

/// An attribute: `#[..]`.
#[derive(Debug, Clone, Copy, PartialEq, Eq)]
pub struct Attr<'a> {
    syntax: SyntaxNodeRef<'a>,
}

impl<'a> AstNode<'a> for Attr<'a> {
    open spec fn can_cast(kind: SyntaxKind) -> bool {
        kind == SyntaxKind::ATTR
    }

    closed spec fn node(&self) -> SyntaxNodeRef<'a> {
        self.syntax
    }

    open spec fn wf(&self) -> bool {
        self.node().wf() && self.node().data().kind == SyntaxKind::ATTR
    }

    proof fn lemma_wf(&self) {
    }

    fn cast(syntax: SyntaxNodeRef<'a>) -> (r: Option<Self>) {
        if syntax.kind() == SyntaxKind::ATTR {
            Some(Attr { syntax })
        } else {
            None
        }
    }

    fn syntax(&self) -> (r: SyntaxNodeRef<'a>) {
        self.syntax
    }
}

impl<'a> Attr<'a> {
    pub fn value(&self) -> (r: Option<TokenTree<'a>>)
        requires
            self.wf(),
        ensures
            is_node(r, self.node(), nth_kid::<TokenTree>(self.node().tree()@, self.node().index(), 0)),
    {
        child_opt(self)
    }
}

/// Tokens in one pair of brackets.
#[derive(Debug, Clone, Copy, PartialEq, Eq)]
pub struct TokenTree<'a> {
    syntax: SyntaxNodeRef<'a>,
}

impl<'a> AstNode<'a> for TokenTree<'a> {
    open spec fn can_cast(kind: SyntaxKind) -> bool {
        kind == SyntaxKind::TOKEN_TREE
    }

    closed spec fn node(&self) -> SyntaxNodeRef<'a> {
        self.syntax
    }

    open spec fn wf(&self) -> bool {
        self.node().wf() && self.node().data().kind == SyntaxKind::TOKEN_TREE
    }

    proof fn lemma_wf(&self) {
    }

    fn cast(syntax: SyntaxNodeRef<'a>) -> (r: Option<Self>) {
        if syntax.kind() == SyntaxKind::TOKEN_TREE {
            Some(TokenTree { syntax })
        } else {
            None
        }
    }

    fn syntax(&self) -> (r: SyntaxNodeRef<'a>) {
        self.syntax
    }
}

/// A visibility: `pub`, `pub(crate)`.
#[derive(Debug, Clone, Copy, PartialEq, Eq)]
pub struct Visibility<'a> {
    syntax: SyntaxNodeRef<'a>,
}

impl<'a> AstNode<'a> for Visibility<'a> {
    open spec fn can_cast(kind: SyntaxKind) -> bool {
        kind == SyntaxKind::VISIBILITY
    }

    closed spec fn node(&self) -> SyntaxNodeRef<'a> {
        self.syntax
    }

    open spec fn wf(&self) -> bool {
        self.node().wf() && self.node().data().kind == SyntaxKind::VISIBILITY
    }

    proof fn lemma_wf(&self) {
    }

    fn cast(syntax: SyntaxNodeRef<'a>) -> (r: Option<Self>) {
        if syntax.kind() == SyntaxKind::VISIBILITY {
            Some(Visibility { syntax })
        } else {
            None
        }
    }

    fn syntax(&self) -> (r: SyntaxNodeRef<'a>) {
        self.syntax
    }
}

/// The name that a definition introduces.
#[derive(Debug, Clone, Copy, PartialEq, Eq)]
pub struct Name<'a> {
    syntax: SyntaxNodeRef<'a>,
}

impl<'a> AstNode<'a> for Name<'a> {
    open spec fn can_cast(kind: SyntaxKind) -> bool {
        kind == SyntaxKind::NAME
    }

    closed spec fn node(&self) -> SyntaxNodeRef<'a> {
        self.syntax
    }

    open spec fn wf(&self) -> bool {
        self.node().wf() && self.node().data().kind == SyntaxKind::NAME
    }

    proof fn lemma_wf(&self) {
    }

    fn cast(syntax: SyntaxNodeRef<'a>) -> (r: Option<Self>) {
        if syntax.kind() == SyntaxKind::NAME {
            Some(Name { syntax })
        } else {
            None
        }
    }

    fn syntax(&self) -> (r: SyntaxNodeRef<'a>) {
        self.syntax
    }
}

/// A name that refers to a definition.
#[derive(Debug, Clone, Copy, PartialEq, Eq)]
pub struct NameRef<'a> {
    syntax: SyntaxNodeRef<'a>,
}

impl<'a> AstNode<'a> for NameRef<'a> {
    open spec fn can_cast(kind: SyntaxKind) -> bool {
        kind == SyntaxKind::NAME_REF
    }

    closed spec fn node(&self) -> SyntaxNodeRef<'a> {
        self.syntax
    }

    open spec fn wf(&self) -> bool {
        self.node().wf() && self.node().data().kind == SyntaxKind::NAME_REF
    }

    proof fn lemma_wf(&self) {
    }

    fn cast(syntax: SyntaxNodeRef<'a>) -> (r: Option<Self>) {
        if syntax.kind() == SyntaxKind::NAME_REF {
            Some(NameRef { syntax })
        } else {
            None
        }
    }

    fn syntax(&self) -> (r: SyntaxNodeRef<'a>) {
        self.syntax
    }
}

/// The generic parameters of an item.
#[derive(Debug, Clone, Copy, PartialEq, Eq)]
pub struct TypeParamList<'a> {
    syntax: SyntaxNodeRef<'a>,
}

impl<'a> AstNode<'a> for TypeParamList<'a> {
    open spec fn can_cast(kind: SyntaxKind) -> bool {
        kind == SyntaxKind::TYPE_PARAM_LIST
    }

    closed spec fn node(&self) -> SyntaxNodeRef<'a> {
        self.syntax
    }

    open spec fn wf(&self) -> bool {
        self.node().wf() && self.node().data().kind == SyntaxKind::TYPE_PARAM_LIST
    }

    proof fn lemma_wf(&self) {
    }

    fn cast(syntax: SyntaxNodeRef<'a>) -> (r: Option<Self>) {
        if syntax.kind() == SyntaxKind::TYPE_PARAM_LIST {
            Some(TypeParamList { syntax })
        } else {
            None
        }
    }

    fn syntax(&self) -> (r: SyntaxNodeRef<'a>) {
        self.syntax
    }
}

impl<'a> TypeParamList<'a> {
    pub fn type_params(&self) -> (r: AstChildren<'a, TypeParam<'a>>)
        requires
            self.wf(),
        ensures
            r.wf(),
            r.parent() == self.node(),
            r.pos() == 0,
    {
        children(self)
    }

    pub fn lifetime_params(&self) -> (r: AstChildren<'a, LifetimeParam<'a>>)
        requires
            self.wf(),
        ensures
            r.wf(),
            r.parent() == self.node(),
            r.pos() == 0,
    {
        children(self)
    }
}

/// One generic type parameter.
#[derive(Debug, Clone, Copy, PartialEq, Eq)]
pub struct TypeParam<'a> {
    syntax: SyntaxNodeRef<'a>,
}

impl<'a> AstNode<'a> for TypeParam<'a> {
    open spec fn can_cast(kind: SyntaxKind) -> bool {
        kind == SyntaxKind::TYPE_PARAM
    }

    closed spec fn node(&self) -> SyntaxNodeRef<'a> {
        self.syntax
    }

    open spec fn wf(&self) -> bool {
        self.node().wf() && self.node().data().kind == SyntaxKind::TYPE_PARAM
    }

    proof fn lemma_wf(&self) {
    }

    fn cast(syntax: SyntaxNodeRef<'a>) -> (r: Option<Self>) {
        if syntax.kind() == SyntaxKind::TYPE_PARAM {
            Some(TypeParam { syntax })
        } else {
            None
        }
    }

    fn syntax(&self) -> (r: SyntaxNodeRef<'a>) {
        self.syntax
    }
}

impl<'a> NameOwner<'a> for TypeParam<'a> {
}

/// One generic lifetime parameter.
#[derive(Debug, Clone, Copy, PartialEq, Eq)]
pub struct LifetimeParam<'a> {
    syntax: SyntaxNodeRef<'a>,
}

impl<'a> AstNode<'a> for LifetimeParam<'a> {
    open spec fn can_cast(kind: SyntaxKind) -> bool {
        kind == SyntaxKind::LIFETIME_PARAM
    }

    closed spec fn node(&self) -> SyntaxNodeRef<'a> {
        self.syntax
    }

    open spec fn wf(&self) -> bool {
        self.node().wf() && self.node().data().kind == SyntaxKind::LIFETIME_PARAM
    }

    proof fn lemma_wf(&self) {
    }

    fn cast(syntax: SyntaxNodeRef<'a>) -> (r: Option<Self>) {
        if syntax.kind() == SyntaxKind::LIFETIME_PARAM {
            Some(LifetimeParam { syntax })
        } else {
            None
        }
    }

    fn syntax(&self) -> (r: SyntaxNodeRef<'a>) {
        self.syntax
    }
}

impl<'a> LifetimeParam<'a> {
    pub fn lifetime(&self) -> (r: Option<Lifetime<'a>>)
        requires
            self.wf(),
        ensures
            is_node(r, self.node(), nth_kid::<Lifetime>(self.node().tree()@, self.node().index(), 0)),
    {
        child_opt(self)
    }
}

/// A `where` clause.
#[derive(Debug, Clone, Copy, PartialEq, Eq)]
pub struct WhereClause<'a> {
    syntax: SyntaxNodeRef<'a>,
}

impl<'a> AstNode<'a> for WhereClause<'a> {
    open spec fn can_cast(kind: SyntaxKind) -> bool {
        kind == SyntaxKind::WHERE_CLAUSE
    }

    closed spec fn node(&self) -> SyntaxNodeRef<'a> {
        self.syntax
    }

    open spec fn wf(&self) -> bool {
        self.node().wf() && self.node().data().kind == SyntaxKind::WHERE_CLAUSE
    }

    proof fn lemma_wf(&self) {
    }

    fn cast(syntax: SyntaxNodeRef<'a>) -> (r: Option<Self>) {
        if syntax.kind() == SyntaxKind::WHERE_CLAUSE {
            Some(WhereClause { syntax })
        } else {
            None
        }
    }

    fn syntax(&self) -> (r: SyntaxNodeRef<'a>) {
        self.syntax
    }
}

/// The parameters of a function or a lambda.
#[derive(Debug, Clone, Copy, PartialEq, Eq)]
pub struct ParamList<'a> {
    syntax: SyntaxNodeRef<'a>,
}

impl<'a> AstNode<'a> for ParamList<'a> {
    open spec fn can_cast(kind: SyntaxKind) -> bool {
        kind == SyntaxKind::PARAM_LIST
    }

    closed spec fn node(&self) -> SyntaxNodeRef<'a> {
        self.syntax
    }

    open spec fn wf(&self) -> bool {
        self.node().wf() && self.node().data().kind == SyntaxKind::PARAM_LIST
    }

    proof fn lemma_wf(&self) {
    }

    fn cast(syntax: SyntaxNodeRef<'a>) -> (r: Option<Self>) {
        if syntax.kind() == SyntaxKind::PARAM_LIST {
            Some(ParamList { syntax })
        } else {
            None
        }
    }

    fn syntax(&self) -> (r: SyntaxNodeRef<'a>) {
        self.syntax
    }
}

impl<'a> ParamList<'a> {
    pub fn self_param(&self) -> (r: Option<SelfParam<'a>>)
        requires
            self.wf(),
        ensures
            is_node(r, self.node(), nth_kid::<SelfParam>(self.node().tree()@, self.node().index(), 0)),
    {
        child_opt(self)
    }

    pub fn params(&self) -> (r: AstChildren<'a, Param<'a>>)
        requires
            self.wf(),
        ensures
            r.wf(),
            r.parent() == self.node(),
            r.pos() == 0,
    {
        children(self)
    }
}

/// The `self` parameter of a method.
#[derive(Debug, Clone, Copy, PartialEq, Eq)]
pub struct SelfParam<'a> {
    syntax: SyntaxNodeRef<'a>,
}

impl<'a> AstNode<'a> for SelfParam<'a> {
    open spec fn can_cast(kind: SyntaxKind) -> bool {
        kind == SyntaxKind::SELF_PARAM
    }

    closed spec fn node(&self) -> SyntaxNodeRef<'a> {
        self.syntax
    }

    open spec fn wf(&self) -> bool {
        self.node().wf() && self.node().data().kind == SyntaxKind::SELF_PARAM
    }

    proof fn lemma_wf(&self) {
    }

    fn cast(syntax: SyntaxNodeRef<'a>) -> (r: Option<Self>) {
        if syntax.kind() == SyntaxKind::SELF_PARAM {
            Some(SelfParam { syntax })
        } else {
            None
        }
    }

    fn syntax(&self) -> (r: SyntaxNodeRef<'a>) {
        self.syntax
    }
}

impl<'a> SelfParam<'a> {
    pub fn type_ref(&self) -> (r: Option<TypeRef<'a>>)
        requires
            self.wf(),
        ensures
            is_node(r, self.node(), nth_kid::<TypeRef>(self.node().tree()@, self.node().index(), 0)),
    {
        child_opt(self)
    }

    pub fn self_kw(&self) -> (r: Option<SelfKw<'a>>)
        requires
            self.wf(),
        ensures
            is_node(r, self.node(), nth_kid::<SelfKw>(self.node().tree()@, self.node().index(), 0)),
    {
        child_opt(self)
    }
}

/// One parameter: a pattern and its type.
#[derive(Debug, Clone, Copy, PartialEq, Eq)]
pub struct Param<'a> {
    syntax: SyntaxNodeRef<'a>,
}

impl<'a> AstNode<'a> for Param<'a> {
    open spec fn can_cast(kind: SyntaxKind) -> bool {
        kind == SyntaxKind::PARAM
    }

    closed spec fn node(&self) -> SyntaxNodeRef<'a> {
        self.syntax
    }

    open spec fn wf(&self) -> bool {
        self.node().wf() && self.node().data().kind == SyntaxKind::PARAM
    }

    proof fn lemma_wf(&self) {
    }

    fn cast(syntax: SyntaxNodeRef<'a>) -> (r: Option<Self>) {
        if syntax.kind() == SyntaxKind::PARAM {
            Some(Param { syntax })
        } else {
            None
        }
    }

    fn syntax(&self) -> (r: SyntaxNodeRef<'a>) {
        self.syntax
    }
}

impl<'a> Param<'a> {
    pub fn pat(&self) -> (r: Option<Pat<'a>>)
        requires
            self.wf(),
        ensures
            is_node(r, self.node(), nth_kid::<Pat>(self.node().tree()@, self.node().index(), 0)),
    {
        child_opt(self)
    }

    pub fn type_ref(&self) -> (r: Option<TypeRef<'a>>)
        requires
            self.wf(),
        ensures
            is_node(r, self.node(), nth_kid::<TypeRef>(self.node().tree()@, self.node().index(), 0)),
    {
        child_opt(self)
    }
}

/// The arguments of a call in parentheses.
#[derive(Debug, Clone, Copy, PartialEq, Eq)]
pub struct ArgList<'a> {
    syntax: SyntaxNodeRef<'a>,
}

impl<'a> AstNode<'a> for ArgList<'a> {
    open spec fn can_cast(kind: SyntaxKind) -> bool {
        kind == SyntaxKind::ARG_LIST
    }

    closed spec fn node(&self) -> SyntaxNodeRef<'a> {
        self.syntax
    }

    open spec fn wf(&self) -> bool {
        self.node().wf() && self.node().data().kind == SyntaxKind::ARG_LIST
    }

    proof fn lemma_wf(&self) {
    }

    fn cast(syntax: SyntaxNodeRef<'a>) -> (r: Option<Self>) {
        if syntax.kind() == SyntaxKind::ARG_LIST {
            Some(ArgList { syntax })
        } else {
            None
        }
    }

    fn syntax(&self) -> (r: SyntaxNodeRef<'a>) {
        self.syntax
    }
}

impl<'a> ArgList<'a> {
    pub fn args(&self) -> (r: AstChildren<'a, Expr<'a>>)
        requires
            self.wf(),
        ensures
            r.wf(),
            r.parent() == self.node(),
            r.pos() == 0,
    {
        children(self)
    }
}

/// A path: `a::b::c`.
#[derive(Debug, Clone, Copy, PartialEq, Eq)]
pub struct Path<'a> {
    syntax: SyntaxNodeRef<'a>,
}

impl<'a> AstNode<'a> for Path<'a> {
    open spec fn can_cast(kind: SyntaxKind) -> bool {
        kind == SyntaxKind::PATH
    }

    closed spec fn node(&self) -> SyntaxNodeRef<'a> {
        self.syntax
    }

    open spec fn wf(&self) -> bool {
        self.node().wf() && self.node().data().kind == SyntaxKind::PATH
    }

    proof fn lemma_wf(&self) {
    }

    fn cast(syntax: SyntaxNodeRef<'a>) -> (r: Option<Self>) {
        if syntax.kind() == SyntaxKind::PATH {
            Some(Path { syntax })
        } else {
            None
        }
    }

    fn syntax(&self) -> (r: SyntaxNodeRef<'a>) {
        self.syntax
    }
}

impl<'a> Path<'a> {
    pub fn segment(&self) -> (r: Option<PathSegment<'a>>)
        requires
            self.wf(),
        ensures
            is_node(r, self.node(), nth_kid::<PathSegment>(self.node().tree()@, self.node().index(), 0)),
    {
        child_opt(self)
    }

    pub fn qualifier(&self) -> (r: Option<Path<'a>>)
        requires
            self.wf(),
        ensures
            is_node(r, self.node(), nth_kid::<Path>(self.node().tree()@, self.node().index(), 0)),
    {
        child_opt(self)
    }
}

/// One segment of a path.
#[derive(Debug, Clone, Copy, PartialEq, Eq)]
pub struct PathSegment<'a> {
    syntax: SyntaxNodeRef<'a>,
}

impl<'a> AstNode<'a> for PathSegment<'a> {
    open spec fn can_cast(kind: SyntaxKind) -> bool {
        kind == SyntaxKind::PATH_SEGMENT
    }

    closed spec fn node(&self) -> SyntaxNodeRef<'a> {
        self.syntax
    }

    open spec fn wf(&self) -> bool {
        self.node().wf() && self.node().data().kind == SyntaxKind::PATH_SEGMENT
    }

    proof fn lemma_wf(&self) {
    }

    fn cast(syntax: SyntaxNodeRef<'a>) -> (r: Option<Self>) {
        if syntax.kind() == SyntaxKind::PATH_SEGMENT {
            Some(PathSegment { syntax })
        } else {
            None
        }
    }

    fn syntax(&self) -> (r: SyntaxNodeRef<'a>) {
        self.syntax
    }
}

impl<'a> PathSegment<'a> {
    pub fn name_ref(&self) -> (r: Option<NameRef<'a>>)
        requires
            self.wf(),
        ensures
            is_node(r, self.node(), nth_kid::<NameRef>(self.node().tree()@, self.node().index(), 0)),
    {
        child_opt(self)
    }
}

/// A block: statements and a last expression in braces.
#[derive(Debug, Clone, Copy, PartialEq, Eq)]
pub struct Block<'a> {
    syntax: SyntaxNodeRef<'a>,
}

impl<'a> AstNode<'a> for Block<'a> {
    open spec fn can_cast(kind: SyntaxKind) -> bool {
        kind == SyntaxKind::BLOCK
    }

    closed spec fn node(&self) -> SyntaxNodeRef<'a> {
        self.syntax
    }

    open spec fn wf(&self) -> bool {
        self.node().wf() && self.node().data().kind == SyntaxKind::BLOCK
    }

    proof fn lemma_wf(&self) {
    }

    fn cast(syntax: SyntaxNodeRef<'a>) -> (r: Option<Self>) {
        if syntax.kind() == SyntaxKind::BLOCK {
            Some(Block { syntax })
        } else {
            None
        }
    }

    fn syntax(&self) -> (r: SyntaxNodeRef<'a>) {
        self.syntax
    }
}

impl<'a> Block<'a> {
    pub fn expr(&self) -> (r: Option<Expr<'a>>)
        requires
            self.wf(),
        ensures
            is_node(r, self.node(), nth_kid::<Expr>(self.node().tree()@, self.node().index(), 0)),
    {
        child_opt(self)
    }

    pub fn statements(&self) -> (r: AstChildren<'a, Stmt<'a>>)
        requires
            self.wf(),
        ensures
            r.wf(),
            r.parent() == self.node(),
            r.pos() == 0,
    {
        children(self)
    }
}

/// An expression as a statement.
#[derive(Debug, Clone, Copy, PartialEq, Eq)]
pub struct ExprStmt<'a> {
    syntax: SyntaxNodeRef<'a>,
}

impl<'a> AstNode<'a> for ExprStmt<'a> {
    open spec fn can_cast(kind: SyntaxKind) -> bool {
        kind == SyntaxKind::EXPR_STMT
    }

    closed spec fn node(&self) -> SyntaxNodeRef<'a> {
        self.syntax
    }

    open spec fn wf(&self) -> bool {
        self.node().wf() && self.node().data().kind == SyntaxKind::EXPR_STMT
    }

    proof fn lemma_wf(&self) {
    }

    fn cast(syntax: SyntaxNodeRef<'a>) -> (r: Option<Self>) {
        if syntax.kind() == SyntaxKind::EXPR_STMT {
            Some(ExprStmt { syntax })
        } else {
            None
        }
    }

    fn syntax(&self) -> (r: SyntaxNodeRef<'a>) {
        self.syntax
    }
}

impl<'a> ExprStmt<'a> {
    pub fn expr(&self) -> (r: Option<Expr<'a>>)
        requires
            self.wf(),
        ensures
            is_node(r, self.node(), nth_kid::<Expr>(self.node().tree()@, self.node().index(), 0)),
    {
        child_opt(self)
    }
}

/// A `let` statement.
#[derive(Debug, Clone, Copy, PartialEq, Eq)]
pub struct LetStmt<'a> {
    syntax: SyntaxNodeRef<'a>,
}

impl<'a> AstNode<'a> for LetStmt<'a> {
    open spec fn can_cast(kind: SyntaxKind) -> bool {
        kind == SyntaxKind::LET_STMT
    }

    closed spec fn node(&self) -> SyntaxNodeRef<'a> {
        self.syntax
    }

    open spec fn wf(&self) -> bool {
        self.node().wf() && self.node().data().kind == SyntaxKind::LET_STMT
    }

    proof fn lemma_wf(&self) {
    }

    fn cast(syntax: SyntaxNodeRef<'a>) -> (r: Option<Self>) {
        if syntax.kind() == SyntaxKind::LET_STMT {
            Some(LetStmt { syntax })
        } else {
            None
        }
    }

    fn syntax(&self) -> (r: SyntaxNodeRef<'a>) {
        self.syntax
    }
}

impl<'a> LetStmt<'a> {
    pub fn pat(&self) -> (r: Option<Pat<'a>>)
        requires
            self.wf(),
        ensures
            is_node(r, self.node(), nth_kid::<Pat>(self.node().tree()@, self.node().index(), 0)),
    {
        child_opt(self)
    }

    pub fn initializer(&self) -> (r: Option<Expr<'a>>)
        requires
            self.wf(),
        ensures
            is_node(r, self.node(), nth_kid::<Expr>(self.node().tree()@, self.node().index(), 0)),
    {
        child_opt(self)
    }

    pub fn type_ref(&self) -> (r: Option<TypeRef<'a>>)
        requires
            self.wf(),
        ensures
            is_node(r, self.node(), nth_kid::<TypeRef>(self.node().tree()@, self.node().index(), 0)),
    {
        child_opt(self)
    }
}

/// The condition of an `if` or `while`, with the pattern of an `if let`.
#[derive(Debug, Clone, Copy, PartialEq, Eq)]
pub struct Condition<'a> {
    syntax: SyntaxNodeRef<'a>,
}

impl<'a> AstNode<'a> for Condition<'a> {
    open spec fn can_cast(kind: SyntaxKind) -> bool {
        kind == SyntaxKind::CONDITION
    }

    closed spec fn node(&self) -> SyntaxNodeRef<'a> {
        self.syntax
    }

    open spec fn wf(&self) -> bool {
        self.node().wf() && self.node().data().kind == SyntaxKind::CONDITION
    }

    proof fn lemma_wf(&self) {
    }

    fn cast(syntax: SyntaxNodeRef<'a>) -> (r: Option<Self>) {
        if syntax.kind() == SyntaxKind::CONDITION {
            Some(Condition { syntax })
        } else {
            None
        }
    }

    fn syntax(&self) -> (r: SyntaxNodeRef<'a>) {
        self.syntax
    }
}

impl<'a> Condition<'a> {
    pub fn pat(&self) -> (r: Option<Pat<'a>>)
        requires
            self.wf(),
        ensures
            is_node(r, self.node(), nth_kid::<Pat>(self.node().tree()@, self.node().index(), 0)),
    {
        child_opt(self)
    }

    pub fn expr(&self) -> (r: Option<Expr<'a>>)
        requires
            self.wf(),
        ensures
            is_node(r, self.node(), nth_kid::<Expr>(self.node().tree()@, self.node().index(), 0)),
    {
        child_opt(self)
    }
}

/// The arms of a `match` in braces.
#[derive(Debug, Clone, Copy, PartialEq, Eq)]
pub struct MatchArmList<'a> {
    syntax: SyntaxNodeRef<'a>,
}

impl<'a> AstNode<'a> for MatchArmList<'a> {
    open spec fn can_cast(kind: SyntaxKind) -> bool {
        kind == SyntaxKind::MATCH_ARM_LIST
    }

    closed spec fn node(&self) -> SyntaxNodeRef<'a> {
        self.syntax
    }

    open spec fn wf(&self) -> bool {
        self.node().wf() && self.node().data().kind == SyntaxKind::MATCH_ARM_LIST
    }

    proof fn lemma_wf(&self) {
    }

    fn cast(syntax: SyntaxNodeRef<'a>) -> (r: Option<Self>) {
        if syntax.kind() == SyntaxKind::MATCH_ARM_LIST {
            Some(MatchArmList { syntax })
        } else {
            None
        }
    }

    fn syntax(&self) -> (r: SyntaxNodeRef<'a>) {
        self.syntax
    }
}

impl<'a> MatchArmList<'a> {
    pub fn arms(&self) -> (r: AstChildren<'a, MatchArm<'a>>)
        requires
            self.wf(),
        ensures
            r.wf(),
            r.parent() == self.node(),
            r.pos() == 0,
    {
        children(self)
    }
}

/// One arm of a `match`.
#[derive(Debug, Clone, Copy, PartialEq, Eq)]
pub struct MatchArm<'a> {
    syntax: SyntaxNodeRef<'a>,
}

impl<'a> AstNode<'a> for MatchArm<'a> {
    open spec fn can_cast(kind: SyntaxKind) -> bool {
        kind == SyntaxKind::MATCH_ARM
    }

    closed spec fn node(&self) -> SyntaxNodeRef<'a> {
        self.syntax
    }

    open spec fn wf(&self) -> bool {
        self.node().wf() && self.node().data().kind == SyntaxKind::MATCH_ARM
    }

    proof fn lemma_wf(&self) {
    }

    fn cast(syntax: SyntaxNodeRef<'a>) -> (r: Option<Self>) {
        if syntax.kind() == SyntaxKind::MATCH_ARM {
            Some(MatchArm { syntax })
        } else {
            None
        }
    }

    fn syntax(&self) -> (r: SyntaxNodeRef<'a>) {
        self.syntax
    }
}

impl<'a> MatchArm<'a> {
    pub fn guard(&self) -> (r: Option<MatchGuard<'a>>)
        requires
            self.wf(),
        ensures
            is_node(r, self.node(), nth_kid::<MatchGuard>(self.node().tree()@, self.node().index(), 0)),
    {
        child_opt(self)
    }

    pub fn expr(&self) -> (r: Option<Expr<'a>>)
        requires
            self.wf(),
        ensures
            is_node(r, self.node(), nth_kid::<Expr>(self.node().tree()@, self.node().index(), 0)),
    {
        child_opt(self)
    }

    pub fn pats(&self) -> (r: AstChildren<'a, Pat<'a>>)
        requires
            self.wf(),
        ensures
            r.wf(),
            r.parent() == self.node(),
            r.pos() == 0,
    {
        children(self)
    }
}

/// The guard of a match arm.
#[derive(Debug, Clone, Copy, PartialEq, Eq)]
pub struct MatchGuard<'a> {
    syntax: SyntaxNodeRef<'a>,
}

impl<'a> AstNode<'a> for MatchGuard<'a> {
    open spec fn can_cast(kind: SyntaxKind) -> bool {
        kind == SyntaxKind::MATCH_GUARD
    }

    closed spec fn node(&self) -> SyntaxNodeRef<'a> {
        self.syntax
    }

    open spec fn wf(&self) -> bool {
        self.node().wf() && self.node().data().kind == SyntaxKind::MATCH_GUARD
    }

    proof fn lemma_wf(&self) {
    }

    fn cast(syntax: SyntaxNodeRef<'a>) -> (r: Option<Self>) {
        if syntax.kind() == SyntaxKind::MATCH_GUARD {
            Some(MatchGuard { syntax })
        } else {
            None
        }
    }

    fn syntax(&self) -> (r: SyntaxNodeRef<'a>) {
        self.syntax
    }
}

/// The fields of a struct literal in braces.
#[derive(Debug, Clone, Copy, PartialEq, Eq)]
pub struct NamedFieldList<'a> {
    syntax: SyntaxNodeRef<'a>,
}

impl<'a> AstNode<'a> for NamedFieldList<'a> {
    open spec fn can_cast(kind: SyntaxKind) -> bool {
        kind == SyntaxKind::NAMED_FIELD_LIST
    }

    closed spec fn node(&self) -> SyntaxNodeRef<'a> {
        self.syntax
    }

    open spec fn wf(&self) -> bool {
        self.node().wf() && self.node().data().kind == SyntaxKind::NAMED_FIELD_LIST
    }

    proof fn lemma_wf(&self) {
    }

    fn cast(syntax: SyntaxNodeRef<'a>) -> (r: Option<Self>) {
        if syntax.kind() == SyntaxKind::NAMED_FIELD_LIST {
            Some(NamedFieldList { syntax })
        } else {
            None
        }
    }

    fn syntax(&self) -> (r: SyntaxNodeRef<'a>) {
        self.syntax
    }
}

impl<'a> NamedFieldList<'a> {
    pub fn fields(&self) -> (r: AstChildren<'a, NamedField<'a>>)
        requires
            self.wf(),
        ensures
            r.wf(),
            r.parent() == self.node(),
            r.pos() == 0,
    {
        children(self)
    }
}

/// One field of a struct literal.
#[derive(Debug, Clone, Copy, PartialEq, Eq)]
pub struct NamedField<'a> {
    syntax: SyntaxNodeRef<'a>,
}

impl<'a> AstNode<'a> for NamedField<'a> {
    open spec fn can_cast(kind: SyntaxKind) -> bool {
        kind == SyntaxKind::NAMED_FIELD
    }

    closed spec fn node(&self) -> SyntaxNodeRef<'a> {
        self.syntax
    }

    open spec fn wf(&self) -> bool {
        self.node().wf() && self.node().data().kind == SyntaxKind::NAMED_FIELD
    }

    proof fn lemma_wf(&self) {
    }

    fn cast(syntax: SyntaxNodeRef<'a>) -> (r: Option<Self>) {
        if syntax.kind() == SyntaxKind::NAMED_FIELD {
            Some(NamedField { syntax })
        } else {
            None
        }
    }

    fn syntax(&self) -> (r: SyntaxNodeRef<'a>) {
        self.syntax
    }
}

impl<'a> NamedField<'a> {
    pub fn name_ref(&self) -> (r: Option<NameRef<'a>>)
        requires
            self.wf(),
        ensures
            is_node(r, self.node(), nth_kid::<NameRef>(self.node().tree()@, self.node().index(), 0)),
    {
        child_opt(self)
    }

    pub fn expr(&self) -> (r: Option<Expr<'a>>)
        requires
            self.wf(),
        ensures
            is_node(r, self.node(), nth_kid::<Expr>(self.node().tree()@, self.node().index(), 0)),
    {
        child_opt(self)
    }
}

/// A type: one form of `TypeRef`.
#[derive(Debug, Clone, Copy, PartialEq, Eq)]
pub struct ParenType<'a> {
    syntax: SyntaxNodeRef<'a>,
}

impl<'a> AstNode<'a> for ParenType<'a> {
    open spec fn can_cast(kind: SyntaxKind) -> bool {
        kind == SyntaxKind::PAREN_TYPE
    }

    closed spec fn node(&self) -> SyntaxNodeRef<'a> {
        self.syntax
    }

    open spec fn wf(&self) -> bool {
        self.node().wf() && self.node().data().kind == SyntaxKind::PAREN_TYPE
    }

    proof fn lemma_wf(&self) {
    }

    fn cast(syntax: SyntaxNodeRef<'a>) -> (r: Option<Self>) {
        if syntax.kind() == SyntaxKind::PAREN_TYPE {
            Some(ParenType { syntax })
        } else {
            None
        }
    }

    fn syntax(&self) -> (r: SyntaxNodeRef<'a>) {
        self.syntax
    }
}

impl<'a> ParenType<'a> {
    pub fn type_ref(&self) -> (r: Option<TypeRef<'a>>)
        requires
            self.wf(),
        ensures
            is_node(r, self.node(), nth_kid::<TypeRef>(self.node().tree()@, self.node().index(), 0)),
    {
        child_opt(self)
    }
}

/// A type: one form of `TypeRef`.
#[derive(Debug, Clone, Copy, PartialEq, Eq)]
pub struct TupleType<'a> {
    syntax: SyntaxNodeRef<'a>,
}

impl<'a> AstNode<'a> for TupleType<'a> {
    open spec fn can_cast(kind: SyntaxKind) -> bool {
        kind == SyntaxKind::TUPLE_TYPE
    }

    closed spec fn node(&self) -> SyntaxNodeRef<'a> {
        self.syntax
    }

    open spec fn wf(&self) -> bool {
        self.node().wf() && self.node().data().kind == SyntaxKind::TUPLE_TYPE
    }

    proof fn lemma_wf(&self) {
    }

    fn cast(syntax: SyntaxNodeRef<'a>) -> (r: Option<Self>) {
        if syntax.kind() == SyntaxKind::TUPLE_TYPE {
            Some(TupleType { syntax })
        } else {
            None
        }
    }

    fn syntax(&self) -> (r: SyntaxNodeRef<'a>) {
        self.syntax
    }
}

impl<'a> TupleType<'a> {
    pub fn fields(&self) -> (r: AstChildren<'a, TypeRef<'a>>)
        requires
            self.wf(),
        ensures
            r.wf(),
            r.parent() == self.node(),
            r.pos() == 0,
    {
        children(self)
    }
}

/// A type: one form of `TypeRef`.
#[derive(Debug, Clone, Copy, PartialEq, Eq)]
pub struct NeverType<'a> {
    syntax: SyntaxNodeRef<'a>,
}

impl<'a> AstNode<'a> for NeverType<'a> {
    open spec fn can_cast(kind: SyntaxKind) -> bool {
        kind == SyntaxKind::NEVER_TYPE
    }

    closed spec fn node(&self) -> SyntaxNodeRef<'a> {
        self.syntax
    }

    open spec fn wf(&self) -> bool {
        self.node().wf() && self.node().data().kind == SyntaxKind::NEVER_TYPE
    }

    proof fn lemma_wf(&self) {
    }

    fn cast(syntax: SyntaxNodeRef<'a>) -> (r: Option<Self>) {
        if syntax.kind() == SyntaxKind::NEVER_TYPE {
            Some(NeverType { syntax })
        } else {
            None
        }
    }

    fn syntax(&self) -> (r: SyntaxNodeRef<'a>) {
        self.syntax
    }
}

/// A type: one form of `TypeRef`.
#[derive(Debug, Clone, Copy, PartialEq, Eq)]
pub struct PathType<'a> {
    syntax: SyntaxNodeRef<'a>,
}

impl<'a> AstNode<'a> for PathType<'a> {
    open spec fn can_cast(kind: SyntaxKind) -> bool {
        kind == SyntaxKind::PATH_TYPE
    }

    closed spec fn node(&self) -> SyntaxNodeRef<'a> {
        self.syntax
    }

    open spec fn wf(&self) -> bool {
        self.node().wf() && self.node().data().kind == SyntaxKind::PATH_TYPE
    }

    proof fn lemma_wf(&self) {
    }

    fn cast(syntax: SyntaxNodeRef<'a>) -> (r: Option<Self>) {
        if syntax.kind() == SyntaxKind::PATH_TYPE {
            Some(PathType { syntax })
        } else {
            None
        }
    }

    fn syntax(&self) -> (r: SyntaxNodeRef<'a>) {
        self.syntax
    }
}

impl<'a> PathType<'a> {
    pub fn path(&self) -> (r: Option<Path<'a>>)
        requires
            self.wf(),
        ensures
            is_node(r, self.node(), nth_kid::<Path>(self.node().tree()@, self.node().index(), 0)),
    {
        child_opt(self)
    }
}

/// A type: one form of `TypeRef`.
#[derive(Debug, Clone, Copy, PartialEq, Eq)]
pub struct PointerType<'a> {
    syntax: SyntaxNodeRef<'a>,
}

impl<'a> AstNode<'a> for PointerType<'a> {
    open spec fn can_cast(kind: SyntaxKind) -> bool {
        kind == SyntaxKind::POINTER_TYPE
    }

    closed spec fn node(&self) -> SyntaxNodeRef<'a> {
        self.syntax
    }

    open spec fn wf(&self) -> bool {
        self.node().wf() && self.node().data().kind == SyntaxKind::POINTER_TYPE
    }

    proof fn lemma_wf(&self) {
    }

    fn cast(syntax: SyntaxNodeRef<'a>) -> (r: Option<Self>) {
        if syntax.kind() == SyntaxKind::POINTER_TYPE {
            Some(PointerType { syntax })
        } else {
            None
        }
    }

    fn syntax(&self) -> (r: SyntaxNodeRef<'a>) {
        self.syntax
    }
}

impl<'a> PointerType<'a> {
    pub fn type_ref(&self) -> (r: Option<TypeRef<'a>>)
        requires
            self.wf(),
        ensures
            is_node(r, self.node(), nth_kid::<TypeRef>(self.node().tree()@, self.node().index(), 0)),
    {
        child_opt(self)
    }
}

/// A type: one form of `TypeRef`.
#[derive(Debug, Clone, Copy, PartialEq, Eq)]
pub struct ArrayType<'a> {
    syntax: SyntaxNodeRef<'a>,
}

impl<'a> AstNode<'a> for ArrayType<'a> {
    open spec fn can_cast(kind: SyntaxKind) -> bool {
        kind == SyntaxKind::ARRAY_TYPE
    }

    closed spec fn node(&self) -> SyntaxNodeRef<'a> {
        self.syntax
    }

    open spec fn wf(&self) -> bool {
        self.node().wf() && self.node().data().kind == SyntaxKind::ARRAY_TYPE
    }

    proof fn lemma_wf(&self) {
    }

    fn cast(syntax: SyntaxNodeRef<'a>) -> (r: Option<Self>) {
        if syntax.kind() == SyntaxKind::ARRAY_TYPE {
            Some(ArrayType { syntax })
        } else {
            None
        }
    }

    fn syntax(&self) -> (r: SyntaxNodeRef<'a>) {
        self.syntax
    }
}

impl<'a> ArrayType<'a> {
    pub fn type_ref(&self) -> (r: Option<TypeRef<'a>>)
        requires
            self.wf(),
        ensures
            is_node(r, self.node(), nth_kid::<TypeRef>(self.node().tree()@, self.node().index(), 0)),
    {
        child_opt(self)
    }

    pub fn expr(&self) -> (r: Option<Expr<'a>>)
        requires
            self.wf(),
        ensures
            is_node(r, self.node(), nth_kid::<Expr>(self.node().tree()@, self.node().index(), 0)),
    {
        child_opt(self)
    }
}

/// A type: one form of `TypeRef`.
#[derive(Debug, Clone, Copy, PartialEq, Eq)]
pub struct SliceType<'a> {
    syntax: SyntaxNodeRef<'a>,
}

impl<'a> AstNode<'a> for SliceType<'a> {
    open spec fn can_cast(kind: SyntaxKind) -> bool {
        kind == SyntaxKind::SLICE_TYPE
    }

    closed spec fn node(&self) -> SyntaxNodeRef<'a> {
        self.syntax
    }

    open spec fn wf(&self) -> bool {
        self.node().wf() && self.node().data().kind == SyntaxKind::SLICE_TYPE
    }

    proof fn lemma_wf(&self) {
    }

    fn cast(syntax: SyntaxNodeRef<'a>) -> (r: Option<Self>) {
        if syntax.kind() == SyntaxKind::SLICE_TYPE {
            Some(SliceType { syntax })
        } else {
            None
        }
    }

    fn syntax(&self) -> (r: SyntaxNodeRef<'a>) {
        self.syntax
    }
}

impl<'a> SliceType<'a> {
    pub fn type_ref(&self) -> (r: Option<TypeRef<'a>>)
        requires
            self.wf(),
        ensures
            is_node(r, self.node(), nth_kid::<TypeRef>(self.node().tree()@, self.node().index(), 0)),
    {
        child_opt(self)
    }
}

/// A type: one form of `TypeRef`.
#[derive(Debug, Clone, Copy, PartialEq, Eq)]
pub struct ReferenceType<'a> {
    syntax: SyntaxNodeRef<'a>,
}

impl<'a> AstNode<'a> for ReferenceType<'a> {
    open spec fn can_cast(kind: SyntaxKind) -> bool {
        kind == SyntaxKind::REFERENCE_TYPE
    }

    closed spec fn node(&self) -> SyntaxNodeRef<'a> {
        self.syntax
    }

    open spec fn wf(&self) -> bool {
        self.node().wf() && self.node().data().kind == SyntaxKind::REFERENCE_TYPE
    }

    proof fn lemma_wf(&self) {
    }

    fn cast(syntax: SyntaxNodeRef<'a>) -> (r: Option<Self>) {
        if syntax.kind() == SyntaxKind::REFERENCE_TYPE {
            Some(ReferenceType { syntax })
        } else {
            None
        }
    }

    fn syntax(&self) -> (r: SyntaxNodeRef<'a>) {
        self.syntax
    }
}

impl<'a> ReferenceType<'a> {
    pub fn type_ref(&self) -> (r: Option<TypeRef<'a>>)
        requires
            self.wf(),
        ensures
            is_node(r, self.node(), nth_kid::<TypeRef>(self.node().tree()@, self.node().index(), 0)),
    {
        child_opt(self)
    }
}

/// A type: one form of `TypeRef`.
#[derive(Debug, Clone, Copy, PartialEq, Eq)]
pub struct PlaceholderType<'a> {
    syntax: SyntaxNodeRef<'a>,
}

impl<'a> AstNode<'a> for PlaceholderType<'a> {
    open spec fn can_cast(kind: SyntaxKind) -> bool {
        kind == SyntaxKind::PLACEHOLDER_TYPE
    }

    closed spec fn node(&self) -> SyntaxNodeRef<'a> {
        self.syntax
    }

    open spec fn wf(&self) -> bool {
        self.node().wf() && self.node().data().kind == SyntaxKind::PLACEHOLDER_TYPE
    }

    proof fn lemma_wf(&self) {
    }

    fn cast(syntax: SyntaxNodeRef<'a>) -> (r: Option<Self>) {
        if syntax.kind() == SyntaxKind::PLACEHOLDER_TYPE {
            Some(PlaceholderType { syntax })
        } else {
            None
        }
    }

    fn syntax(&self) -> (r: SyntaxNodeRef<'a>) {
        self.syntax
    }
}

/// A type: one form of `TypeRef`.
#[derive(Debug, Clone, Copy, PartialEq, Eq)]
pub struct FnPointerType<'a> {
    syntax: SyntaxNodeRef<'a>,
}

impl<'a> AstNode<'a> for FnPointerType<'a> {
    open spec fn can_cast(kind: SyntaxKind) -> bool {
        kind == SyntaxKind::FN_POINTER_TYPE
    }

    closed spec fn node(&self) -> SyntaxNodeRef<'a> {
        self.syntax
    }

    open spec fn wf(&self) -> bool {
        self.node().wf() && self.node().data().kind == SyntaxKind::FN_POINTER_TYPE
    }

    proof fn lemma_wf(&self) {
    }

    fn cast(syntax: SyntaxNodeRef<'a>) -> (r: Option<Self>) {
        if syntax.kind() == SyntaxKind::FN_POINTER_TYPE {
            Some(FnPointerType { syntax })
        } else {
            None
        }
    }

    fn syntax(&self) -> (r: SyntaxNodeRef<'a>) {
        self.syntax
    }
}

impl<'a> FnPointerType<'a> {
    pub fn param_list(&self) -> (r: Option<ParamList<'a>>)
        requires
            self.wf(),
        ensures
            is_node(r, self.node(), nth_kid::<ParamList>(self.node().tree()@, self.node().index(), 0)),
    {
        child_opt(self)
    }

    pub fn ret_type(&self) -> (r: Option<RetType<'a>>)
        requires
            self.wf(),
        ensures
            is_node(r, self.node(), nth_kid::<RetType>(self.node().tree()@, self.node().index(), 0)),
    {
        child_opt(self)
    }
}

/// A type: one form of `TypeRef`.
#[derive(Debug, Clone, Copy, PartialEq, Eq)]
pub struct ForType<'a> {
    syntax: SyntaxNodeRef<'a>,
}

impl<'a> AstNode<'a> for ForType<'a> {
    open spec fn can_cast(kind: SyntaxKind) -> bool {
        kind == SyntaxKind::FOR_TYPE
    }

    closed spec fn node(&self) -> SyntaxNodeRef<'a> {
        self.syntax
    }

    open spec fn wf(&self) -> bool {
        self.node().wf() && self.node().data().kind == SyntaxKind::FOR_TYPE
    }

    proof fn lemma_wf(&self) {
    }

    fn cast(syntax: SyntaxNodeRef<'a>) -> (r: Option<Self>) {
        if syntax.kind() == SyntaxKind::FOR_TYPE {
            Some(ForType { syntax })
        } else {
            None
        }
    }

    fn syntax(&self) -> (r: SyntaxNodeRef<'a>) {
        self.syntax
    }
}

impl<'a> ForType<'a> {
    pub fn type_ref(&self) -> (r: Option<TypeRef<'a>>)
        requires
            self.wf(),
        ensures
            is_node(r, self.node(), nth_kid::<TypeRef>(self.node().tree()@, self.node().index(), 0)),
    {
        child_opt(self)
    }
}

/// A type: one form of `TypeRef`.
#[derive(Debug, Clone, Copy, PartialEq, Eq)]
pub struct ImplTraitType<'a> {
    syntax: SyntaxNodeRef<'a>,
}

impl<'a> AstNode<'a> for ImplTraitType<'a> {
    open spec fn can_cast(kind: SyntaxKind) -> bool {
        kind == SyntaxKind::IMPL_TRAIT_TYPE
    }

    closed spec fn node(&self) -> SyntaxNodeRef<'a> {
        self.syntax
    }

    open spec fn wf(&self) -> bool {
        self.node().wf() && self.node().data().kind == SyntaxKind::IMPL_TRAIT_TYPE
    }

    proof fn lemma_wf(&self) {
    }

    fn cast(syntax: SyntaxNodeRef<'a>) -> (r: Option<Self>) {
        if syntax.kind() == SyntaxKind::IMPL_TRAIT_TYPE {
            Some(ImplTraitType { syntax })
        } else {
            None
        }
    }

    fn syntax(&self) -> (r: SyntaxNodeRef<'a>) {
        self.syntax
    }
}

/// A type: one form of `TypeRef`.
#[derive(Debug, Clone, Copy, PartialEq, Eq)]
pub struct DynTraitType<'a> {
    syntax: SyntaxNodeRef<'a>,
}

impl<'a> AstNode<'a> for DynTraitType<'a> {
    open spec fn can_cast(kind: SyntaxKind) -> bool {
        kind == SyntaxKind::DYN_TRAIT_TYPE
    }

    closed spec fn node(&self) -> SyntaxNodeRef<'a> {
        self.syntax
    }

    open spec fn wf(&self) -> bool {
        self.node().wf() && self.node().data().kind == SyntaxKind::DYN_TRAIT_TYPE
    }

    proof fn lemma_wf(&self) {
    }

    fn cast(syntax: SyntaxNodeRef<'a>) -> (r: Option<Self>) {
        if syntax.kind() == SyntaxKind::DYN_TRAIT_TYPE {
            Some(DynTraitType { syntax })
        } else {
            None
        }
    }

    fn syntax(&self) -> (r: SyntaxNodeRef<'a>) {
        self.syntax
    }
}

/// An expression: one form of `Expr`.
#[derive(Debug, Clone, Copy, PartialEq, Eq)]
pub struct TupleExpr<'a> {
    syntax: SyntaxNodeRef<'a>,
}

impl<'a> AstNode<'a> for TupleExpr<'a> {
    open spec fn can_cast(kind: SyntaxKind) -> bool {
        kind == SyntaxKind::TUPLE_EXPR
    }

    closed spec fn node(&self) -> SyntaxNodeRef<'a> {
        self.syntax
    }

    open spec fn wf(&self) -> bool {
        self.node().wf() && self.node().data().kind == SyntaxKind::TUPLE_EXPR
    }

    proof fn lemma_wf(&self) {
    }

    fn cast(syntax: SyntaxNodeRef<'a>) -> (r: Option<Self>) {
        if syntax.kind() == SyntaxKind::TUPLE_EXPR {
            Some(TupleExpr { syntax })
        } else {
            None
        }
    }

    fn syntax(&self) -> (r: SyntaxNodeRef<'a>) {
        self.syntax
    }
}

/// An expression: one form of `Expr`.
#[derive(Debug, Clone, Copy, PartialEq, Eq)]
pub struct ArrayExpr<'a> {
    syntax: SyntaxNodeRef<'a>,
}

impl<'a> AstNode<'a> for ArrayExpr<'a> {
    open spec fn can_cast(kind: SyntaxKind) -> bool {
        kind == SyntaxKind::ARRAY_EXPR
    }

    closed spec fn node(&self) -> SyntaxNodeRef<'a> {
        self.syntax
    }

    open spec fn wf(&self) -> bool {
        self.node().wf() && self.node().data().kind == SyntaxKind::ARRAY_EXPR
    }

    proof fn lemma_wf(&self) {
    }

    fn cast(syntax: SyntaxNodeRef<'a>) -> (r: Option<Self>) {
        if syntax.kind() == SyntaxKind::ARRAY_EXPR {
            Some(ArrayExpr { syntax })
        } else {
            None
        }
    }

    fn syntax(&self) -> (r: SyntaxNodeRef<'a>) {
        self.syntax
    }
}

/// An expression: one form of `Expr`.
#[derive(Debug, Clone, Copy, PartialEq, Eq)]
pub struct ParenExpr<'a> {
    syntax: SyntaxNodeRef<'a>,
}

impl<'a> AstNode<'a> for ParenExpr<'a> {
    open spec fn can_cast(kind: SyntaxKind) -> bool {
        kind == SyntaxKind::PAREN_EXPR
    }

    closed spec fn node(&self) -> SyntaxNodeRef<'a> {
        self.syntax
    }

    open spec fn wf(&self) -> bool {
        self.node().wf() && self.node().data().kind == SyntaxKind::PAREN_EXPR
    }

    proof fn lemma_wf(&self) {
    }

    fn cast(syntax: SyntaxNodeRef<'a>) -> (r: Option<Self>) {
        if syntax.kind() == SyntaxKind::PAREN_EXPR {
            Some(ParenExpr { syntax })
        } else {
            None
        }
    }

    fn syntax(&self) -> (r: SyntaxNodeRef<'a>) {
        self.syntax
    }
}

impl<'a> ParenExpr<'a> {
    pub fn expr(&self) -> (r: Option<Expr<'a>>)
        requires
            self.wf(),
        ensures
            is_node(r, self.node(), nth_kid::<Expr>(self.node().tree()@, self.node().index(), 0)),
    {
        child_opt(self)
    }
}

/// An expression: one form of `Expr`.
#[derive(Debug, Clone, Copy, PartialEq, Eq)]
pub struct PathExpr<'a> {
    syntax: SyntaxNodeRef<'a>,
}

impl<'a> AstNode<'a> for PathExpr<'a> {
    open spec fn can_cast(kind: SyntaxKind) -> bool {
        kind == SyntaxKind::PATH_EXPR
    }

    closed spec fn node(&self) -> SyntaxNodeRef<'a> {
        self.syntax
    }

    open spec fn wf(&self) -> bool {
        self.node().wf() && self.node().data().kind == SyntaxKind::PATH_EXPR
    }

    proof fn lemma_wf(&self) {
    }

    fn cast(syntax: SyntaxNodeRef<'a>) -> (r: Option<Self>) {
        if syntax.kind() == SyntaxKind::PATH_EXPR {
            Some(PathExpr { syntax })
        } else {
            None
        }
    }

    fn syntax(&self) -> (r: SyntaxNodeRef<'a>) {
        self.syntax
    }
}

impl<'a> PathExpr<'a> {
    pub fn path(&self) -> (r: Option<Path<'a>>)
        requires
            self.wf(),
        ensures
            is_node(r, self.node(), nth_kid::<Path>(self.node().tree()@, self.node().index(), 0)),
    {
        child_opt(self)
    }
}

/// An expression: one form of `Expr`.
#[derive(Debug, Clone, Copy, PartialEq, Eq)]
pub struct LambdaExpr<'a> {
    syntax: SyntaxNodeRef<'a>,
}

impl<'a> AstNode<'a> for LambdaExpr<'a> {
    open spec fn can_cast(kind: SyntaxKind) -> bool {
        kind == SyntaxKind::LAMBDA_EXPR
    }

    closed spec fn node(&self) -> SyntaxNodeRef<'a> {
        self.syntax
    }

    open spec fn wf(&self) -> bool {
        self.node().wf() && self.node().data().kind == SyntaxKind::LAMBDA_EXPR
    }

    proof fn lemma_wf(&self) {
    }

    fn cast(syntax: SyntaxNodeRef<'a>) -> (r: Option<Self>) {
        if syntax.kind() == SyntaxKind::LAMBDA_EXPR {
            Some(LambdaExpr { syntax })
        } else {
            None
        }
    }

    fn syntax(&self) -> (r: SyntaxNodeRef<'a>) {
        self.syntax
    }
}

impl<'a> LambdaExpr<'a> {
    pub fn param_list(&self) -> (r: Option<ParamList<'a>>)
        requires
            self.wf(),
        ensures
            is_node(r, self.node(), nth_kid::<ParamList>(self.node().tree()@, self.node().index(), 0)),
    {
        child_opt(self)
    }

    pub fn body(&self) -> (r: Option<Expr<'a>>)
        requires
            self.wf(),
        ensures
            is_node(r, self.node(), nth_kid::<Expr>(self.node().tree()@, self.node().index(), 0)),
    {
        child_opt(self)
    }
}

/// An expression: one form of `Expr`.
#[derive(Debug, Clone, Copy, PartialEq, Eq)]
pub struct IfExpr<'a> {
    syntax: SyntaxNodeRef<'a>,
}

impl<'a> AstNode<'a> for IfExpr<'a> {
    open spec fn can_cast(kind: SyntaxKind) -> bool {
        kind == SyntaxKind::IF_EXPR
    }

    closed spec fn node(&self) -> SyntaxNodeRef<'a> {
        self.syntax
    }

    open spec fn wf(&self) -> bool {
        self.node().wf() && self.node().data().kind == SyntaxKind::IF_EXPR
    }

    proof fn lemma_wf(&self) {
    }

    fn cast(syntax: SyntaxNodeRef<'a>) -> (r: Option<Self>) {
        if syntax.kind() == SyntaxKind::IF_EXPR {
            Some(IfExpr { syntax })
        } else {
            None
        }
    }

    fn syntax(&self) -> (r: SyntaxNodeRef<'a>) {
        self.syntax
    }
}

impl<'a> IfExpr<'a> {
    pub fn condition(&self) -> (r: Option<Condition<'a>>)
        requires
            self.wf(),
        ensures
            is_node(r, self.node(), nth_kid::<Condition>(self.node().tree()@, self.node().index(), 0)),
    {
        child_opt(self)
    }
}

/// An expression: one form of `Expr`.
#[derive(Debug, Clone, Copy, PartialEq, Eq)]
pub struct LoopExpr<'a> {
    syntax: SyntaxNodeRef<'a>,
}

impl<'a> AstNode<'a> for LoopExpr<'a> {
    open spec fn can_cast(kind: SyntaxKind) -> bool {
        kind == SyntaxKind::LOOP_EXPR
    }

    closed spec fn node(&self) -> SyntaxNodeRef<'a> {
        self.syntax
    }

    open spec fn wf(&self) -> bool {
        self.node().wf() && self.node().data().kind == SyntaxKind::LOOP_EXPR
    }

    proof fn lemma_wf(&self) {
    }

    fn cast(syntax: SyntaxNodeRef<'a>) -> (r: Option<Self>) {
        if syntax.kind() == SyntaxKind::LOOP_EXPR {
            Some(LoopExpr { syntax })
        } else {
            None
        }
    }

    fn syntax(&self) -> (r: SyntaxNodeRef<'a>) {
        self.syntax
    }
}

impl<'a> LoopBodyOwner<'a> for LoopExpr<'a> {
}

/// An expression: one form of `Expr`.
#[derive(Debug, Clone, Copy, PartialEq, Eq)]
pub struct ForExpr<'a> {
    syntax: SyntaxNodeRef<'a>,
}

impl<'a> AstNode<'a> for ForExpr<'a> {
    open spec fn can_cast(kind: SyntaxKind) -> bool {
        kind == SyntaxKind::FOR_EXPR
    }

    closed spec fn node(&self) -> SyntaxNodeRef<'a> {
        self.syntax
    }

    open spec fn wf(&self) -> bool {
        self.node().wf() && self.node().data().kind == SyntaxKind::FOR_EXPR
    }

    proof fn lemma_wf(&self) {
    }

    fn cast(syntax: SyntaxNodeRef<'a>) -> (r: Option<Self>) {
        if syntax.kind() == SyntaxKind::FOR_EXPR {
            Some(ForExpr { syntax })
        } else {
            None
        }
    }

    fn syntax(&self) -> (r: SyntaxNodeRef<'a>) {
        self.syntax
    }
}

impl<'a> LoopBodyOwner<'a> for ForExpr<'a> {
}

impl<'a> ForExpr<'a> {
    pub fn pat(&self) -> (r: Option<Pat<'a>>)
        requires
            self.wf(),
        ensures
            is_node(r, self.node(), nth_kid::<Pat>(self.node().tree()@, self.node().index(), 0)),
    {
        child_opt(self)
    }

    pub fn iterable(&self) -> (r: Option<Expr<'a>>)
        requires
            self.wf(),
        ensures
            is_node(r, self.node(), nth_kid::<Expr>(self.node().tree()@, self.node().index(), 0)),
    {
        child_opt(self)
    }
}

/// An expression: one form of `Expr`.
#[derive(Debug, Clone, Copy, PartialEq, Eq)]
pub struct WhileExpr<'a> {
    syntax: SyntaxNodeRef<'a>,
}

impl<'a> AstNode<'a> for WhileExpr<'a> {
    open spec fn can_cast(kind: SyntaxKind) -> bool {
        kind == SyntaxKind::WHILE_EXPR
    }

    closed spec fn node(&self) -> SyntaxNodeRef<'a> {
        self.syntax
    }

    open spec fn wf(&self) -> bool {
        self.node().wf() && self.node().data().kind == SyntaxKind::WHILE_EXPR
    }

    proof fn lemma_wf(&self) {
    }

    fn cast(syntax: SyntaxNodeRef<'a>) -> (r: Option<Self>) {
        if syntax.kind() == SyntaxKind::WHILE_EXPR {
            Some(WhileExpr { syntax })
        } else {
            None
        }
    }

    fn syntax(&self) -> (r: SyntaxNodeRef<'a>) {
        self.syntax
    }
}

impl<'a> LoopBodyOwner<'a> for WhileExpr<'a> {
}

impl<'a> WhileExpr<'a> {
    pub fn condition(&self) -> (r: Option<Condition<'a>>)
        requires
            self.wf(),
        ensures
            is_node(r, self.node(), nth_kid::<Condition>(self.node().tree()@, self.node().index(), 0)),
    {
        child_opt(self)
    }
}

/// An expression: one form of `Expr`.
#[derive(Debug, Clone, Copy, PartialEq, Eq)]
pub struct ContinueExpr<'a> {
    syntax: SyntaxNodeRef<'a>,
}

impl<'a> AstNode<'a> for ContinueExpr<'a> {
    open spec fn can_cast(kind: SyntaxKind) -> bool {
        kind == SyntaxKind::CONTINUE_EXPR
    }

    closed spec fn node(&self) -> SyntaxNodeRef<'a> {
        self.syntax
    }

    open spec fn wf(&self) -> bool {
        self.node().wf() && self.node().data().kind == SyntaxKind::CONTINUE_EXPR
    }

    proof fn lemma_wf(&self) {
    }

    fn cast(syntax: SyntaxNodeRef<'a>) -> (r: Option<Self>) {
        if syntax.kind() == SyntaxKind::CONTINUE_EXPR {
            Some(ContinueExpr { syntax })
        } else {
            None
        }
    }

    fn syntax(&self) -> (r: SyntaxNodeRef<'a>) {
        self.syntax
    }
}

/// An expression: one form of `Expr`.
#[derive(Debug, Clone, Copy, PartialEq, Eq)]
pub struct BreakExpr<'a> {
    syntax: SyntaxNodeRef<'a>,
}

impl<'a> AstNode<'a> for BreakExpr<'a> {
    open spec fn can_cast(kind: SyntaxKind) -> bool {
        kind == SyntaxKind::BREAK_EXPR
    }

    closed spec fn node(&self) -> SyntaxNodeRef<'a> {
        self.syntax
    }

    open spec fn wf(&self) -> bool {
        self.node().wf() && self.node().data().kind == SyntaxKind::BREAK_EXPR
    }

    proof fn lemma_wf(&self) {
    }

    fn cast(syntax: SyntaxNodeRef<'a>) -> (r: Option<Self>) {
        if syntax.kind() == SyntaxKind::BREAK_EXPR {
            Some(BreakExpr { syntax })
        } else {
            None
        }
    }

    fn syntax(&self) -> (r: SyntaxNodeRef<'a>) {
        self.syntax
    }
}

impl<'a> BreakExpr<'a> {
    pub fn expr(&self) -> (r: Option<Expr<'a>>)
        requires
            self.wf(),
        ensures
            is_node(r, self.node(), nth_kid::<Expr>(self.node().tree()@, self.node().index(), 0)),
    {
        child_opt(self)
    }
}

/// An expression: one form of `Expr`.
#[derive(Debug, Clone, Copy, PartialEq, Eq)]
pub struct Label<'a> {
    syntax: SyntaxNodeRef<'a>,
}

impl<'a> AstNode<'a> for Label<'a> {
    open spec fn can_cast(kind: SyntaxKind) -> bool {
        kind == SyntaxKind::LABEL
    }

    closed spec fn node(&self) -> SyntaxNodeRef<'a> {
        self.syntax
    }

    open spec fn wf(&self) -> bool {
        self.node().wf() && self.node().data().kind == SyntaxKind::LABEL
    }

    proof fn lemma_wf(&self) {
    }

    fn cast(syntax: SyntaxNodeRef<'a>) -> (r: Option<Self>) {
        if syntax.kind() == SyntaxKind::LABEL {
            Some(Label { syntax })
        } else {
            None
        }
    }

    fn syntax(&self) -> (r: SyntaxNodeRef<'a>) {
        self.syntax
    }
}

/// An expression: one form of `Expr`.
#[derive(Debug, Clone, Copy, PartialEq, Eq)]
pub struct BlockExpr<'a> {
    syntax: SyntaxNodeRef<'a>,
}

impl<'a> AstNode<'a> for BlockExpr<'a> {
    open spec fn can_cast(kind: SyntaxKind) -> bool {
        kind == SyntaxKind::BLOCK_EXPR
    }

    closed spec fn node(&self) -> SyntaxNodeRef<'a> {
        self.syntax
    }

    open spec fn wf(&self) -> bool {
        self.node().wf() && self.node().data().kind == SyntaxKind::BLOCK_EXPR
    }

    proof fn lemma_wf(&self) {
    }

    fn cast(syntax: SyntaxNodeRef<'a>) -> (r: Option<Self>) {
        if syntax.kind() == SyntaxKind::BLOCK_EXPR {
            Some(BlockExpr { syntax })
        } else {
            None
        }
    }

    fn syntax(&self) -> (r: SyntaxNodeRef<'a>) {
        self.syntax
    }
}

impl<'a> BlockExpr<'a> {
    pub fn block(&self) -> (r: Option<Block<'a>>)
        requires
            self.wf(),
        ensures
            is_node(r, self.node(), nth_kid::<Block>(self.node().tree()@, self.node().index(), 0)),
    {
        child_opt(self)
    }
}

/// An expression: one form of `Expr`.
#[derive(Debug, Clone, Copy, PartialEq, Eq)]
pub struct ReturnExpr<'a> {
    syntax: SyntaxNodeRef<'a>,
}

impl<'a> AstNode<'a> for ReturnExpr<'a> {
    open spec fn can_cast(kind: SyntaxKind) -> bool {
        kind == SyntaxKind::RETURN_EXPR
    }

    closed spec fn node(&self) -> SyntaxNodeRef<'a> {
        self.syntax
    }

    open spec fn wf(&self) -> bool {
        self.node().wf() && self.node().data().kind == SyntaxKind::RETURN_EXPR
    }

    proof fn lemma_wf(&self) {
    }

    fn cast(syntax: SyntaxNodeRef<'a>) -> (r: Option<Self>) {
        if syntax.kind() == SyntaxKind::RETURN_EXPR {
            Some(ReturnExpr { syntax })
        } else {
            None
        }
    }

    fn syntax(&self) -> (r: SyntaxNodeRef<'a>) {
        self.syntax
    }
}

impl<'a> ReturnExpr<'a> {
    pub fn expr(&self) -> (r: Option<Expr<'a>>)
        requires
            self.wf(),
        ensures
            is_node(r, self.node(), nth_kid::<Expr>(self.node().tree()@, self.node().index(), 0)),
    {
        child_opt(self)
    }
}

/// An expression: one form of `Expr`.
#[derive(Debug, Clone, Copy, PartialEq, Eq)]
pub struct MatchExpr<'a> {
    syntax: SyntaxNodeRef<'a>,
}

impl<'a> AstNode<'a> for MatchExpr<'a> {
    open spec fn can_cast(kind: SyntaxKind) -> bool {
        kind == SyntaxKind::MATCH_EXPR
    }

    closed spec fn node(&self) -> SyntaxNodeRef<'a> {
        self.syntax
    }

    open spec fn wf(&self) -> bool {
        self.node().wf() && self.node().data().kind == SyntaxKind::MATCH_EXPR
    }

    proof fn lemma_wf(&self) {
    }

    fn cast(syntax: SyntaxNodeRef<'a>) -> (r: Option<Self>) {
        if syntax.kind() == SyntaxKind::MATCH_EXPR {
            Some(MatchExpr { syntax })
        } else {
            None
        }
    }

    fn syntax(&self) -> (r: SyntaxNodeRef<'a>) {
        self.syntax
    }
}

impl<'a> MatchExpr<'a> {
    pub fn expr(&self) -> (r: Option<Expr<'a>>)
        requires
            self.wf(),
        ensures
            is_node(r, self.node(), nth_kid::<Expr>(self.node().tree()@, self.node().index(), 0)),
    {
        child_opt(self)
    }

    pub fn match_arm_list(&self) -> (r: Option<MatchArmList<'a>>)
        requires
            self.wf(),
        ensures
            is_node(r, self.node(), nth_kid::<MatchArmList>(self.node().tree()@, self.node().index(), 0)),
    {
        child_opt(self)
    }
}

/// An expression: one form of `Expr`.
#[derive(Debug, Clone, Copy, PartialEq, Eq)]
pub struct StructLit<'a> {
    syntax: SyntaxNodeRef<'a>,
}

impl<'a> AstNode<'a> for StructLit<'a> {
    open spec fn can_cast(kind: SyntaxKind) -> bool {
        kind == SyntaxKind::STRUCT_LIT
    }

    closed spec fn node(&self) -> SyntaxNodeRef<'a> {
        self.syntax
    }

    open spec fn wf(&self) -> bool {
        self.node().wf() && self.node().data().kind == SyntaxKind::STRUCT_LIT
    }

    proof fn lemma_wf(&self) {
    }

    fn cast(syntax: SyntaxNodeRef<'a>) -> (r: Option<Self>) {
        if syntax.kind() == SyntaxKind::STRUCT_LIT {
            Some(StructLit { syntax })
        } else {
            None
        }
    }

    fn syntax(&self) -> (r: SyntaxNodeRef<'a>) {
        self.syntax
    }
}

impl<'a> StructLit<'a> {
    pub fn path(&self) -> (r: Option<Path<'a>>)
        requires
            self.wf(),
        ensures
            is_node(r, self.node(), nth_kid::<Path>(self.node().tree()@, self.node().index(), 0)),
    {
        child_opt(self)
    }

    pub fn named_field_list(&self) -> (r: Option<NamedFieldList<'a>>)
        requires
            self.wf(),
        ensures
            is_node(r, self.node(), nth_kid::<NamedFieldList>(self.node().tree()@, self.node().index(), 0)),
    {
        child_opt(self)
    }

    pub fn spread(&self) -> (r: Option<Expr<'a>>)
        requires
            self.wf(),
        ensures
            is_node(r, self.node(), nth_kid::<Expr>(self.node().tree()@, self.node().index(), 0)),
    {
        child_opt(self)
    }
}

/// An expression: one form of `Expr`.
#[derive(Debug, Clone, Copy, PartialEq, Eq)]
pub struct CallExpr<'a> {
    syntax: SyntaxNodeRef<'a>,
}

impl<'a> AstNode<'a> for CallExpr<'a> {
    open spec fn can_cast(kind: SyntaxKind) -> bool {
        kind == SyntaxKind::CALL_EXPR
    }

    closed spec fn node(&self) -> SyntaxNodeRef<'a> {
        self.syntax
    }

    open spec fn wf(&self) -> bool {
        self.node().wf() && self.node().data().kind == SyntaxKind::CALL_EXPR
    }

    proof fn lemma_wf(&self) {
    }

    fn cast(syntax: SyntaxNodeRef<'a>) -> (r: Option<Self>) {
        if syntax.kind() == SyntaxKind::CALL_EXPR {
            Some(CallExpr { syntax })
        } else {
            None
        }
    }

    fn syntax(&self) -> (r: SyntaxNodeRef<'a>) {
        self.syntax
    }
}

impl<'a> ArgListOwner<'a> for CallExpr<'a> {
}

impl<'a> CallExpr<'a> {
    pub fn expr(&self) -> (r: Option<Expr<'a>>)
        requires
            self.wf(),
        ensures
            is_node(r, self.node(), nth_kid::<Expr>(self.node().tree()@, self.node().index(), 0)),
    {
        child_opt(self)
    }
}

/// An expression: one form of `Expr`.
#[derive(Debug, Clone, Copy, PartialEq, Eq)]
pub struct IndexExpr<'a> {
    syntax: SyntaxNodeRef<'a>,
}

impl<'a> AstNode<'a> for IndexExpr<'a> {
    open spec fn can_cast(kind: SyntaxKind) -> bool {
        kind == SyntaxKind::INDEX_EXPR
    }

    closed spec fn node(&self) -> SyntaxNodeRef<'a> {
        self.syntax
    }

    open spec fn wf(&self) -> bool {
        self.node().wf() && self.node().data().kind == SyntaxKind::INDEX_EXPR
    }

    proof fn lemma_wf(&self) {
    }

    fn cast(syntax: SyntaxNodeRef<'a>) -> (r: Option<Self>) {
        if syntax.kind() == SyntaxKind::INDEX_EXPR {
            Some(IndexExpr { syntax })
        } else {
            None
        }
    }

    fn syntax(&self) -> (r: SyntaxNodeRef<'a>) {
        self.syntax
    }
}

/// An expression: one form of `Expr`.
#[derive(Debug, Clone, Copy, PartialEq, Eq)]
pub struct MethodCallExpr<'a> {
    syntax: SyntaxNodeRef<'a>,
}

impl<'a> AstNode<'a> for MethodCallExpr<'a> {
    open spec fn can_cast(kind: SyntaxKind) -> bool {
        kind == SyntaxKind::METHOD_CALL_EXPR
    }

    closed spec fn node(&self) -> SyntaxNodeRef<'a> {
        self.syntax
    }

    open spec fn wf(&self) -> bool {
        self.node().wf() && self.node().data().kind == SyntaxKind::METHOD_CALL_EXPR
    }

    proof fn lemma_wf(&self) {
    }

    fn cast(syntax: SyntaxNodeRef<'a>) -> (r: Option<Self>) {
        if syntax.kind() == SyntaxKind::METHOD_CALL_EXPR {
            Some(MethodCallExpr { syntax })
        } else {
            None
        }
    }

    fn syntax(&self) -> (r: SyntaxNodeRef<'a>) {
        self.syntax
    }
}

impl<'a> ArgListOwner<'a> for MethodCallExpr<'a> {
}

impl<'a> MethodCallExpr<'a> {
    pub fn expr(&self) -> (r: Option<Expr<'a>>)
        requires
            self.wf(),
        ensures
            is_node(r, self.node(), nth_kid::<Expr>(self.node().tree()@, self.node().index(), 0)),
    {
        child_opt(self)
    }

    pub fn name_ref(&self) -> (r: Option<NameRef<'a>>)
        requires
            self.wf(),
        ensures
            is_node(r, self.node(), nth_kid::<NameRef>(self.node().tree()@, self.node().index(), 0)),
    {
        child_opt(self)
    }
}

/// An expression: one form of `Expr`.
#[derive(Debug, Clone, Copy, PartialEq, Eq)]
pub struct FieldExpr<'a> {
    syntax: SyntaxNodeRef<'a>,
}

impl<'a> AstNode<'a> for FieldExpr<'a> {
    open spec fn can_cast(kind: SyntaxKind) -> bool {
        kind == SyntaxKind::FIELD_EXPR
    }

    closed spec fn node(&self) -> SyntaxNodeRef<'a> {
        self.syntax
    }

    open spec fn wf(&self) -> bool {
        self.node().wf() && self.node().data().kind == SyntaxKind::FIELD_EXPR
    }

    proof fn lemma_wf(&self) {
    }

    fn cast(syntax: SyntaxNodeRef<'a>) -> (r: Option<Self>) {
        if syntax.kind() == SyntaxKind::FIELD_EXPR {
            Some(FieldExpr { syntax })
        } else {
            None
        }
    }

    fn syntax(&self) -> (r: SyntaxNodeRef<'a>) {
        self.syntax
    }
}

impl<'a> FieldExpr<'a> {
    pub fn expr(&self) -> (r: Option<Expr<'a>>)
        requires
            self.wf(),
        ensures
            is_node(r, self.node(), nth_kid::<Expr>(self.node().tree()@, self.node().index(), 0)),
    {
        child_opt(self)
    }

    pub fn name_ref(&self) -> (r: Option<NameRef<'a>>)
        requires
            self.wf(),
        ensures
            is_node(r, self.node(), nth_kid::<NameRef>(self.node().tree()@, self.node().index(), 0)),
    {
        child_opt(self)
    }
}

/// An expression: one form of `Expr`.
#[derive(Debug, Clone, Copy, PartialEq, Eq)]
pub struct TryExpr<'a> {
    syntax: SyntaxNodeRef<'a>,
}

impl<'a> AstNode<'a> for TryExpr<'a> {
    open spec fn can_cast(kind: SyntaxKind) -> bool {
        kind == SyntaxKind::TRY_EXPR
    }

    closed spec fn node(&self) -> SyntaxNodeRef<'a> {
        self.syntax
    }

    open spec fn wf(&self) -> bool {
        self.node().wf() && self.node().data().kind == SyntaxKind::TRY_EXPR
    }

    proof fn lemma_wf(&self) {
    }

    fn cast(syntax: SyntaxNodeRef<'a>) -> (r: Option<Self>) {
        if syntax.kind() == SyntaxKind::TRY_EXPR {
            Some(TryExpr { syntax })
        } else {
            None
        }
    }

    fn syntax(&self) -> (r: SyntaxNodeRef<'a>) {
        self.syntax
    }
}

impl<'a> TryExpr<'a> {
    pub fn expr(&self) -> (r: Option<Expr<'a>>)
        requires
            self.wf(),
        ensures
            is_node(r, self.node(), nth_kid::<Expr>(self.node().tree()@, self.node().index(), 0)),
    {
        child_opt(self)
    }
}

/// An expression: one form of `Expr`.
#[derive(Debug, Clone, Copy, PartialEq, Eq)]
pub struct CastExpr<'a> {
    syntax: SyntaxNodeRef<'a>,
}

impl<'a> AstNode<'a> for CastExpr<'a> {
    open spec fn can_cast(kind: SyntaxKind) -> bool {
        kind == SyntaxKind::CAST_EXPR
    }

    closed spec fn node(&self) -> SyntaxNodeRef<'a> {
        self.syntax
    }

    open spec fn wf(&self) -> bool {
        self.node().wf() && self.node().data().kind == SyntaxKind::CAST_EXPR
    }

    proof fn lemma_wf(&self) {
    }

    fn cast(syntax: SyntaxNodeRef<'a>) -> (r: Option<Self>) {
        if syntax.kind() == SyntaxKind::CAST_EXPR {
            Some(CastExpr { syntax })
        } else {
            None
        }
    }

    fn syntax(&self) -> (r: SyntaxNodeRef<'a>) {
        self.syntax
    }
}

impl<'a> CastExpr<'a> {
    pub fn expr(&self) -> (r: Option<Expr<'a>>)
        requires
            self.wf(),
        ensures
            is_node(r, self.node(), nth_kid::<Expr>(self.node().tree()@, self.node().index(), 0)),
    {
        child_opt(self)
    }

    pub fn type_ref(&self) -> (r: Option<TypeRef<'a>>)
        requires
            self.wf(),
        ensures
            is_node(r, self.node(), nth_kid::<TypeRef>(self.node().tree()@, self.node().index(), 0)),
    {
        child_opt(self)
    }
}

/// An expression: one form of `Expr`.
#[derive(Debug, Clone, Copy, PartialEq, Eq)]
pub struct RefExpr<'a> {
    syntax: SyntaxNodeRef<'a>,
}

impl<'a> AstNode<'a> for RefExpr<'a> {
    open spec fn can_cast(kind: SyntaxKind) -> bool {
        kind == SyntaxKind::REF_EXPR
    }

    closed spec fn node(&self) -> SyntaxNodeRef<'a> {
        self.syntax
    }

    open spec fn wf(&self) -> bool {
        self.node().wf() && self.node().data().kind == SyntaxKind::REF_EXPR
    }

    proof fn lemma_wf(&self) {
    }

    fn cast(syntax: SyntaxNodeRef<'a>) -> (r: Option<Self>) {
        if syntax.kind() == SyntaxKind::REF_EXPR {
            Some(RefExpr { syntax })
        } else {
            None
        }
    }

    fn syntax(&self) -> (r: SyntaxNodeRef<'a>) {
        self.syntax
    }
}

impl<'a> RefExpr<'a> {
    pub fn expr(&self) -> (r: Option<Expr<'a>>)
        requires
            self.wf(),
        ensures
            is_node(r, self.node(), nth_kid::<Expr>(self.node().tree()@, self.node().index(), 0)),
    {
        child_opt(self)
    }
}

/// An expression: one form of `Expr`.
#[derive(Debug, Clone, Copy, PartialEq, Eq)]
pub struct PrefixExpr<'a> {
    syntax: SyntaxNodeRef<'a>,
}

impl<'a> AstNode<'a> for PrefixExpr<'a> {
    open spec fn can_cast(kind: SyntaxKind) -> bool {
        kind == SyntaxKind::PREFIX_EXPR
    }

    closed spec fn node(&self) -> SyntaxNodeRef<'a> {
        self.syntax
    }

    open spec fn wf(&self) -> bool {
        self.node().wf() && self.node().data().kind == SyntaxKind::PREFIX_EXPR
    }

    proof fn lemma_wf(&self) {
    }

    fn cast(syntax: SyntaxNodeRef<'a>) -> (r: Option<Self>) {
        if syntax.kind() == SyntaxKind::PREFIX_EXPR {
            Some(PrefixExpr { syntax })
        } else {
            None
        }
    }

    fn syntax(&self) -> (r: SyntaxNodeRef<'a>) {
        self.syntax
    }
}

impl<'a> PrefixExpr<'a> {
    pub fn expr(&self) -> (r: Option<Expr<'a>>)
        requires
            self.wf(),
        ensures
            is_node(r, self.node(), nth_kid::<Expr>(self.node().tree()@, self.node().index(), 0)),
    {
        child_opt(self)
    }
}

/// An expression: one form of `Expr`.
#[derive(Debug, Clone, Copy, PartialEq, Eq)]
pub struct RangeExpr<'a> {
    syntax: SyntaxNodeRef<'a>,
}

impl<'a> AstNode<'a> for RangeExpr<'a> {
    open spec fn can_cast(kind: SyntaxKind) -> bool {
        kind == SyntaxKind::RANGE_EXPR
    }

    closed spec fn node(&self) -> SyntaxNodeRef<'a> {
        self.syntax
    }

    open spec fn wf(&self) -> bool {
        self.node().wf() && self.node().data().kind == SyntaxKind::RANGE_EXPR
    }

    proof fn lemma_wf(&self) {
    }

    fn cast(syntax: SyntaxNodeRef<'a>) -> (r: Option<Self>) {
        if syntax.kind() == SyntaxKind::RANGE_EXPR {
            Some(RangeExpr { syntax })
        } else {
            None
        }
    }

    fn syntax(&self) -> (r: SyntaxNodeRef<'a>) {
        self.syntax
    }
}

/// An expression: one form of `Expr`.
#[derive(Debug, Clone, Copy, PartialEq, Eq)]
pub struct BinExpr<'a> {
    syntax: SyntaxNodeRef<'a>,
}

impl<'a> AstNode<'a> for BinExpr<'a> {
    open spec fn can_cast(kind: SyntaxKind) -> bool {
        kind == SyntaxKind::BIN_EXPR
    }

    closed spec fn node(&self) -> SyntaxNodeRef<'a> {
        self.syntax
    }

    open spec fn wf(&self) -> bool {
        self.node().wf() && self.node().data().kind == SyntaxKind::BIN_EXPR
    }

    proof fn lemma_wf(&self) {
    }

    fn cast(syntax: SyntaxNodeRef<'a>) -> (r: Option<Self>) {
        if syntax.kind() == SyntaxKind::BIN_EXPR {
            Some(BinExpr { syntax })
        } else {
            None
        }
    }

    fn syntax(&self) -> (r: SyntaxNodeRef<'a>) {
        self.syntax
    }
}

/// An expression: one form of `Expr`.
#[derive(Debug, Clone, Copy, PartialEq, Eq)]
pub struct Literal<'a> {
    syntax: SyntaxNodeRef<'a>,
}

impl<'a> AstNode<'a> for Literal<'a> {
    open spec fn can_cast(kind: SyntaxKind) -> bool {
        kind == SyntaxKind::LITERAL
    }

    closed spec fn node(&self) -> SyntaxNodeRef<'a> {
        self.syntax
    }

    open spec fn wf(&self) -> bool {
        self.node().wf() && self.node().data().kind == SyntaxKind::LITERAL
    }

    proof fn lemma_wf(&self) {
    }

    fn cast(syntax: SyntaxNodeRef<'a>) -> (r: Option<Self>) {
        if syntax.kind() == SyntaxKind::LITERAL {
            Some(Literal { syntax })
        } else {
            None
        }
    }

    fn syntax(&self) -> (r: SyntaxNodeRef<'a>) {
        self.syntax
    }
}

/// A pattern: one form of `Pat`.
#[derive(Debug, Clone, Copy, PartialEq, Eq)]
pub struct RefPat<'a> {
    syntax: SyntaxNodeRef<'a>,
}

impl<'a> AstNode<'a> for RefPat<'a> {
    open spec fn can_cast(kind: SyntaxKind) -> bool {
        kind == SyntaxKind::REF_PAT
    }

    closed spec fn node(&self) -> SyntaxNodeRef<'a> {
        self.syntax
    }

    open spec fn wf(&self) -> bool {
        self.node().wf() && self.node().data().kind == SyntaxKind::REF_PAT
    }

    proof fn lemma_wf(&self) {
    }

    fn cast(syntax: SyntaxNodeRef<'a>) -> (r: Option<Self>) {
        if syntax.kind() == SyntaxKind::REF_PAT {
            Some(RefPat { syntax })
        } else {
            None
        }
    }

    fn syntax(&self) -> (r: SyntaxNodeRef<'a>) {
        self.syntax
    }
}

/// A pattern: one form of `Pat`.
#[derive(Debug, Clone, Copy, PartialEq, Eq)]
pub struct BindPat<'a> {
    syntax: SyntaxNodeRef<'a>,
}

impl<'a> AstNode<'a> for BindPat<'a> {
    open spec fn can_cast(kind: SyntaxKind) -> bool {
        kind == SyntaxKind::BIND_PAT
    }

    closed spec fn node(&self) -> SyntaxNodeRef<'a> {
        self.syntax
    }

    open spec fn wf(&self) -> bool {
        self.node().wf() && self.node().data().kind == SyntaxKind::BIND_PAT
    }

    proof fn lemma_wf(&self) {
    }

    fn cast(syntax: SyntaxNodeRef<'a>) -> (r: Option<Self>) {
        if syntax.kind() == SyntaxKind::BIND_PAT {
            Some(BindPat { syntax })
        } else {
            None
        }
    }

    fn syntax(&self) -> (r: SyntaxNodeRef<'a>) {
        self.syntax
    }
}

impl<'a> NameOwner<'a> for BindPat<'a> {
}

/// A pattern: one form of `Pat`.
#[derive(Debug, Clone, Copy, PartialEq, Eq)]
pub struct PlaceholderPat<'a> {
    syntax: SyntaxNodeRef<'a>,
}

impl<'a> AstNode<'a> for PlaceholderPat<'a> {
    open spec fn can_cast(kind: SyntaxKind) -> bool {
        kind == SyntaxKind::PLACEHOLDER_PAT
    }

    closed spec fn node(&self) -> SyntaxNodeRef<'a> {
        self.syntax
    }

    open spec fn wf(&self) -> bool {
        self.node().wf() && self.node().data().kind == SyntaxKind::PLACEHOLDER_PAT
    }

    proof fn lemma_wf(&self) {
    }

    fn cast(syntax: SyntaxNodeRef<'a>) -> (r: Option<Self>) {
        if syntax.kind() == SyntaxKind::PLACEHOLDER_PAT {
            Some(PlaceholderPat { syntax })
        } else {
            None
        }
    }

    fn syntax(&self) -> (r: SyntaxNodeRef<'a>) {
        self.syntax
    }
}

/// A pattern: one form of `Pat`.
#[derive(Debug, Clone, Copy, PartialEq, Eq)]
pub struct PathPat<'a> {
    syntax: SyntaxNodeRef<'a>,
}

impl<'a> AstNode<'a> for PathPat<'a> {
    open spec fn can_cast(kind: SyntaxKind) -> bool {
        kind == SyntaxKind::PATH_PAT
    }

    closed spec fn node(&self) -> SyntaxNodeRef<'a> {
        self.syntax
    }

    open spec fn wf(&self) -> bool {
        self.node().wf() && self.node().data().kind == SyntaxKind::PATH_PAT
    }

    proof fn lemma_wf(&self) {
    }

    fn cast(syntax: SyntaxNodeRef<'a>) -> (r: Option<Self>) {
        if syntax.kind() == SyntaxKind::PATH_PAT {
            Some(PathPat { syntax })
        } else {
            None
        }
    }

    fn syntax(&self) -> (r: SyntaxNodeRef<'a>) {
        self.syntax
    }
}

/// A pattern: one form of `Pat`.
#[derive(Debug, Clone, Copy, PartialEq, Eq)]
pub struct StructPat<'a> {
    syntax: SyntaxNodeRef<'a>,
}

impl<'a> AstNode<'a> for StructPat<'a> {
    open spec fn can_cast(kind: SyntaxKind) -> bool {
        kind == SyntaxKind::STRUCT_PAT
    }

    closed spec fn node(&self) -> SyntaxNodeRef<'a> {
        self.syntax
    }

    open spec fn wf(&self) -> bool {
        self.node().wf() && self.node().data().kind == SyntaxKind::STRUCT_PAT
    }

    proof fn lemma_wf(&self) {
    }

    fn cast(syntax: SyntaxNodeRef<'a>) -> (r: Option<Self>) {
        if syntax.kind() == SyntaxKind::STRUCT_PAT {
            Some(StructPat { syntax })
        } else {
            None
        }
    }

    fn syntax(&self) -> (r: SyntaxNodeRef<'a>) {
        self.syntax
    }
}

/// A pattern: one form of `Pat`.
#[derive(Debug, Clone, Copy, PartialEq, Eq)]
pub struct FieldPatList<'a> {
    syntax: SyntaxNodeRef<'a>,
}

impl<'a> AstNode<'a> for FieldPatList<'a> {
    open spec fn can_cast(kind: SyntaxKind) -> bool {
        kind == SyntaxKind::FIELD_PAT_LIST
    }

    closed spec fn node(&self) -> SyntaxNodeRef<'a> {
        self.syntax
    }

    open spec fn wf(&self) -> bool {
        self.node().wf() && self.node().data().kind == SyntaxKind::FIELD_PAT_LIST
    }

    proof fn lemma_wf(&self) {
    }

    fn cast(syntax: SyntaxNodeRef<'a>) -> (r: Option<Self>) {
        if syntax.kind() == SyntaxKind::FIELD_PAT_LIST {
            Some(FieldPatList { syntax })
        } else {
            None
        }
    }

    fn syntax(&self) -> (r: SyntaxNodeRef<'a>) {
        self.syntax
    }
}

/// A pattern: one form of `Pat`.
#[derive(Debug, Clone, Copy, PartialEq, Eq)]
pub struct TupleStructPat<'a> {
    syntax: SyntaxNodeRef<'a>,
}

impl<'a> AstNode<'a> for TupleStructPat<'a> {
    open spec fn can_cast(kind: SyntaxKind) -> bool {
        kind == SyntaxKind::TUPLE_STRUCT_PAT
    }

    closed spec fn node(&self) -> SyntaxNodeRef<'a> {
        self.syntax
    }

    open spec fn wf(&self) -> bool {
        self.node().wf() && self.node().data().kind == SyntaxKind::TUPLE_STRUCT_PAT
    }

    proof fn lemma_wf(&self) {
    }

    fn cast(syntax: SyntaxNodeRef<'a>) -> (r: Option<Self>) {
        if syntax.kind() == SyntaxKind::TUPLE_STRUCT_PAT {
            Some(TupleStructPat { syntax })
        } else {
            None
        }
    }

    fn syntax(&self) -> (r: SyntaxNodeRef<'a>) {
        self.syntax
    }
}

impl<'a> TupleStructPat<'a> {
    pub fn path(&self) -> (r: Option<Path<'a>>)
        requires
            self.wf(),
        ensures
            is_node(r, self.node(), nth_kid::<Path>(self.node().tree()@, self.node().index(), 0)),
    {
        child_opt(self)
    }

    pub fn args(&self) -> (r: AstChildren<'a, Pat<'a>>)
        requires
            self.wf(),
        ensures
            r.wf(),
            r.parent() == self.node(),
            r.pos() == 0,
    {
        children(self)
    }
}

/// A pattern: one form of `Pat`.
#[derive(Debug, Clone, Copy, PartialEq, Eq)]
pub struct TuplePat<'a> {
    syntax: SyntaxNodeRef<'a>,
}

impl<'a> AstNode<'a> for TuplePat<'a> {
    open spec fn can_cast(kind: SyntaxKind) -> bool {
        kind == SyntaxKind::TUPLE_PAT
    }

    closed spec fn node(&self) -> SyntaxNodeRef<'a> {
        self.syntax
    }

    open spec fn wf(&self) -> bool {
        self.node().wf() && self.node().data().kind == SyntaxKind::TUPLE_PAT
    }

    proof fn lemma_wf(&self) {
    }

    fn cast(syntax: SyntaxNodeRef<'a>) -> (r: Option<Self>) {
        if syntax.kind() == SyntaxKind::TUPLE_PAT {
            Some(TuplePat { syntax })
        } else {
            None
        }
    }

    fn syntax(&self) -> (r: SyntaxNodeRef<'a>) {
        self.syntax
    }
}

/// A pattern: one form of `Pat`.
#[derive(Debug, Clone, Copy, PartialEq, Eq)]
pub struct SlicePat<'a> {
    syntax: SyntaxNodeRef<'a>,
}

impl<'a> AstNode<'a> for SlicePat<'a> {
    open spec fn can_cast(kind: SyntaxKind) -> bool {
        kind == SyntaxKind::SLICE_PAT
    }

    closed spec fn node(&self) -> SyntaxNodeRef<'a> {
        self.syntax
    }

    open spec fn wf(&self) -> bool {
        self.node().wf() && self.node().data().kind == SyntaxKind::SLICE_PAT
    }

    proof fn lemma_wf(&self) {
    }

    fn cast(syntax: SyntaxNodeRef<'a>) -> (r: Option<Self>) {
        if syntax.kind() == SyntaxKind::SLICE_PAT {
            Some(SlicePat { syntax })
        } else {
            None
        }
    }

    fn syntax(&self) -> (r: SyntaxNodeRef<'a>) {
        self.syntax
    }
}

/// A pattern: one form of `Pat`.
#[derive(Debug, Clone, Copy, PartialEq, Eq)]
pub struct RangePat<'a> {
    syntax: SyntaxNodeRef<'a>,
}

impl<'a> AstNode<'a> for RangePat<'a> {
    open spec fn can_cast(kind: SyntaxKind) -> bool {
        kind == SyntaxKind::RANGE_PAT
    }

    closed spec fn node(&self) -> SyntaxNodeRef<'a> {
        self.syntax
    }

    open spec fn wf(&self) -> bool {
        self.node().wf() && self.node().data().kind == SyntaxKind::RANGE_PAT
    }

    proof fn lemma_wf(&self) {
    }

    fn cast(syntax: SyntaxNodeRef<'a>) -> (r: Option<Self>) {
        if syntax.kind() == SyntaxKind::RANGE_PAT {
            Some(RangePat { syntax })
        } else {
            None
        }
    }

    fn syntax(&self) -> (r: SyntaxNodeRef<'a>) {
        self.syntax
    }
}

/// The keyword `self`.
#[derive(Debug, Clone, Copy, PartialEq, Eq)]
pub struct SelfKw<'a> {
    syntax: SyntaxNodeRef<'a>,
}

impl<'a> AstNode<'a> for SelfKw<'a> {
    open spec fn can_cast(kind: SyntaxKind) -> bool {
        kind == SyntaxKind::SELF_KW
    }

    closed spec fn node(&self) -> SyntaxNodeRef<'a> {
        self.syntax
    }

    open spec fn wf(&self) -> bool {
        self.node().wf() && self.node().data().kind == SyntaxKind::SELF_KW
    }

    proof fn lemma_wf(&self) {
    }

    fn cast(syntax: SyntaxNodeRef<'a>) -> (r: Option<Self>) {
        if syntax.kind() == SyntaxKind::SELF_KW {
            Some(SelfKw { syntax })
        } else {
            None
        }
    }

    fn syntax(&self) -> (r: SyntaxNodeRef<'a>) {
        self.syntax
    }
}

/// A lifetime: `'a`.
#[derive(Debug, Clone, Copy, PartialEq, Eq)]
pub struct Lifetime<'a> {
    syntax: SyntaxNodeRef<'a>,
}

impl<'a> AstNode<'a> for Lifetime<'a> {
    open spec fn can_cast(kind: SyntaxKind) -> bool {
        kind == SyntaxKind::LIFETIME
    }

    closed spec fn node(&self) -> SyntaxNodeRef<'a> {
        self.syntax
    }

    open spec fn wf(&self) -> bool {
        self.node().wf() && self.node().data().kind == SyntaxKind::LIFETIME
    }

    proof fn lemma_wf(&self) {
    }

    fn cast(syntax: SyntaxNodeRef<'a>) -> (r: Option<Self>) {
        if syntax.kind() == SyntaxKind::LIFETIME {
            Some(Lifetime { syntax })
        } else {
            None
        }
    }

    fn syntax(&self) -> (r: SyntaxNodeRef<'a>) {
        self.syntax
    }
}

/// A character literal.
#[derive(Debug, Clone, Copy, PartialEq, Eq)]
pub struct Char<'a> {
    syntax: SyntaxNodeRef<'a>,
}

impl<'a> AstNode<'a> for Char<'a> {
    open spec fn can_cast(kind: SyntaxKind) -> bool {
        kind == SyntaxKind::CHAR
    }

    closed spec fn node(&self) -> SyntaxNodeRef<'a> {
        self.syntax
    }

    open spec fn wf(&self) -> bool {
        self.node().wf() && self.node().data().kind == SyntaxKind::CHAR
    }

    proof fn lemma_wf(&self) {
    }

    fn cast(syntax: SyntaxNodeRef<'a>) -> (r: Option<Self>) {
        if syntax.kind() == SyntaxKind::CHAR {
            Some(Char { syntax })
        } else {
            None
        }
    }

    fn syntax(&self) -> (r: SyntaxNodeRef<'a>) {
        self.syntax
    }
}

/// A byte literal.
#[derive(Debug, Clone, Copy, PartialEq, Eq)]
pub struct Byte<'a> {
    syntax: SyntaxNodeRef<'a>,
}

impl<'a> AstNode<'a> for Byte<'a> {
    open spec fn can_cast(kind: SyntaxKind) -> bool {
        kind == SyntaxKind::BYTE
    }

    closed spec fn node(&self) -> SyntaxNodeRef<'a> {
        self.syntax
    }

    open spec fn wf(&self) -> bool {
        self.node().wf() && self.node().data().kind == SyntaxKind::BYTE
    }

    proof fn lemma_wf(&self) {
    }

    fn cast(syntax: SyntaxNodeRef<'a>) -> (r: Option<Self>) {
        if syntax.kind() == SyntaxKind::BYTE {
            Some(Byte { syntax })
        } else {
            None
        }
    }

    fn syntax(&self) -> (r: SyntaxNodeRef<'a>) {
        self.syntax
    }
}

/// A byte string literal.
#[derive(Debug, Clone, Copy, PartialEq, Eq)]
pub struct ByteString<'a> {
    syntax: SyntaxNodeRef<'a>,
}

impl<'a> AstNode<'a> for ByteString<'a> {
    open spec fn can_cast(kind: SyntaxKind) -> bool {
        kind == SyntaxKind::BYTE_STRING
    }

    closed spec fn node(&self) -> SyntaxNodeRef<'a> {
        self.syntax
    }

    open spec fn wf(&self) -> bool {
        self.node().wf() && self.node().data().kind == SyntaxKind::BYTE_STRING
    }

    proof fn lemma_wf(&self) {
    }

    fn cast(syntax: SyntaxNodeRef<'a>) -> (r: Option<Self>) {
        if syntax.kind() == SyntaxKind::BYTE_STRING {
            Some(ByteString { syntax })
        } else {
            None
        }
    }

    fn syntax(&self) -> (r: SyntaxNodeRef<'a>) {
        self.syntax
    }
}

/// A string literal.
#[derive(Debug, Clone, Copy, PartialEq, Eq)]
pub struct String<'a> {
    syntax: SyntaxNodeRef<'a>,
}

impl<'a> AstNode<'a> for String<'a> {
    open spec fn can_cast(kind: SyntaxKind) -> bool {
        kind == SyntaxKind::STRING
    }

    closed spec fn node(&self) -> SyntaxNodeRef<'a> {
        self.syntax
    }

    open spec fn wf(&self) -> bool {
        self.node().wf() && self.node().data().kind == SyntaxKind::STRING
    }

    proof fn lemma_wf(&self) {
    }

    fn cast(syntax: SyntaxNodeRef<'a>) -> (r: Option<Self>) {
        if syntax.kind() == SyntaxKind::STRING {
            Some(String { syntax })
        } else {
            None
        }
    }

    fn syntax(&self) -> (r: SyntaxNodeRef<'a>) {
        self.syntax
    }
}

/// A comment.
#[derive(Debug, Clone, Copy, PartialEq, Eq)]
pub struct Comment<'a> {
    syntax: SyntaxNodeRef<'a>,
}

impl<'a> AstNode<'a> for Comment<'a> {
    open spec fn can_cast(kind: SyntaxKind) -> bool {
        kind == SyntaxKind::COMMENT
    }

    closed spec fn node(&self) -> SyntaxNodeRef<'a> {
        self.syntax
    }

    open spec fn wf(&self) -> bool {
        self.node().wf() && self.node().data().kind == SyntaxKind::COMMENT
    }

    proof fn lemma_wf(&self) {
    }

    fn cast(syntax: SyntaxNodeRef<'a>) -> (r: Option<Self>) {
        if syntax.kind() == SyntaxKind::COMMENT {
            Some(Comment { syntax })
        } else {
            None
        }
    }

    fn syntax(&self) -> (r: SyntaxNodeRef<'a>) {
        self.syntax
    }
}

/// A run of white space.
#[derive(Debug, Clone, Copy, PartialEq, Eq)]
pub struct Whitespace<'a> {
    syntax: SyntaxNodeRef<'a>,
}

impl<'a> AstNode<'a> for Whitespace<'a> {
    open spec fn can_cast(kind: SyntaxKind) -> bool {
        kind == SyntaxKind::WHITESPACE
    }

    closed spec fn node(&self) -> SyntaxNodeRef<'a> {
        self.syntax
    }

    open spec fn wf(&self) -> bool {
        self.node().wf() && self.node().data().kind == SyntaxKind::WHITESPACE
    }

    proof fn lemma_wf(&self) {
    }

    fn cast(syntax: SyntaxNodeRef<'a>) -> (r: Option<Self>) {
        if syntax.kind() == SyntaxKind::WHITESPACE {
            Some(Whitespace { syntax })
        } else {
            None
        }
    }

    fn syntax(&self) -> (r: SyntaxNodeRef<'a>) {
        self.syntax
    }
}

/// A type, in any of its forms.
#[derive(Debug, Clone, Copy, PartialEq, Eq)]
pub enum TypeRef<'a> {
    ParenType(ParenType<'a>),
    TupleType(TupleType<'a>),
    NeverType(NeverType<'a>),
    PathType(PathType<'a>),
    PointerType(PointerType<'a>),
    ArrayType(ArrayType<'a>),
    SliceType(SliceType<'a>),
    ReferenceType(ReferenceType<'a>),
    PlaceholderType(PlaceholderType<'a>),
    FnPointerType(FnPointerType<'a>),
    ForType(ForType<'a>),
    ImplTraitType(ImplTraitType<'a>),
    DynTraitType(DynTraitType<'a>),
}

impl<'a> AstNode<'a> for TypeRef<'a> {
    open spec fn can_cast(kind: SyntaxKind) -> bool {
        match kind {
            SyntaxKind::PAREN_TYPE => true,
            SyntaxKind::TUPLE_TYPE => true,
            SyntaxKind::NEVER_TYPE => true,
            SyntaxKind::PATH_TYPE => true,
            SyntaxKind::POINTER_TYPE => true,
            SyntaxKind::ARRAY_TYPE => true,
            SyntaxKind::SLICE_TYPE => true,
            SyntaxKind::REFERENCE_TYPE => true,
            SyntaxKind::PLACEHOLDER_TYPE => true,
            SyntaxKind::FN_POINTER_TYPE => true,
            SyntaxKind::FOR_TYPE => true,
            SyntaxKind::IMPL_TRAIT_TYPE => true,
            SyntaxKind::DYN_TRAIT_TYPE => true,
            _ => false,
        }
    }

    open spec fn node(&self) -> SyntaxNodeRef<'a> {
        match self {
            TypeRef::ParenType(n) => n.node(),
            TypeRef::TupleType(n) => n.node(),
            TypeRef::NeverType(n) => n.node(),
            TypeRef::PathType(n) => n.node(),
            TypeRef::PointerType(n) => n.node(),
            TypeRef::ArrayType(n) => n.node(),
            TypeRef::SliceType(n) => n.node(),
            TypeRef::ReferenceType(n) => n.node(),
            TypeRef::PlaceholderType(n) => n.node(),
            TypeRef::FnPointerType(n) => n.node(),
            TypeRef::ForType(n) => n.node(),
            TypeRef::ImplTraitType(n) => n.node(),
            TypeRef::DynTraitType(n) => n.node(),
        }
    }

    open spec fn wf(&self) -> bool {
        match self {
            TypeRef::ParenType(n) => n.wf(),
            TypeRef::TupleType(n) => n.wf(),
            TypeRef::NeverType(n) => n.wf(),
            TypeRef::PathType(n) => n.wf(),
            TypeRef::PointerType(n) => n.wf(),
            TypeRef::ArrayType(n) => n.wf(),
            TypeRef::SliceType(n) => n.wf(),
            TypeRef::ReferenceType(n) => n.wf(),
            TypeRef::PlaceholderType(n) => n.wf(),
            TypeRef::FnPointerType(n) => n.wf(),
            TypeRef::ForType(n) => n.wf(),
            TypeRef::ImplTraitType(n) => n.wf(),
            TypeRef::DynTraitType(n) => n.wf(),
        }
    }

    proof fn lemma_wf(&self) {
    }

    fn cast(syntax: SyntaxNodeRef<'a>) -> (r: Option<Self>) {
        match syntax.kind() {
            SyntaxKind::PAREN_TYPE => Some(TypeRef::ParenType(ParenType { syntax })),
            SyntaxKind::TUPLE_TYPE => Some(TypeRef::TupleType(TupleType { syntax })),
            SyntaxKind::NEVER_TYPE => Some(TypeRef::NeverType(NeverType { syntax })),
            SyntaxKind::PATH_TYPE => Some(TypeRef::PathType(PathType { syntax })),
            SyntaxKind::POINTER_TYPE => Some(TypeRef::PointerType(PointerType { syntax })),
            SyntaxKind::ARRAY_TYPE => Some(TypeRef::ArrayType(ArrayType { syntax })),
            SyntaxKind::SLICE_TYPE => Some(TypeRef::SliceType(SliceType { syntax })),
            SyntaxKind::REFERENCE_TYPE => Some(TypeRef::ReferenceType(ReferenceType { syntax })),
            SyntaxKind::PLACEHOLDER_TYPE => Some(TypeRef::PlaceholderType(PlaceholderType { syntax })),
            SyntaxKind::FN_POINTER_TYPE => Some(TypeRef::FnPointerType(FnPointerType { syntax })),
            SyntaxKind::FOR_TYPE => Some(TypeRef::ForType(ForType { syntax })),
            SyntaxKind::IMPL_TRAIT_TYPE => Some(TypeRef::ImplTraitType(ImplTraitType { syntax })),
            SyntaxKind::DYN_TRAIT_TYPE => Some(TypeRef::DynTraitType(DynTraitType { syntax })),
            _ => None,
        }
    }

    fn syntax(&self) -> (r: SyntaxNodeRef<'a>) {
        match self {
            TypeRef::ParenType(n) => n.syntax,
            TypeRef::TupleType(n) => n.syntax,
            TypeRef::NeverType(n) => n.syntax,
            TypeRef::PathType(n) => n.syntax,
            TypeRef::PointerType(n) => n.syntax,
            TypeRef::ArrayType(n) => n.syntax,
            TypeRef::SliceType(n) => n.syntax,
            TypeRef::ReferenceType(n) => n.syntax,
            TypeRef::PlaceholderType(n) => n.syntax,
            TypeRef::FnPointerType(n) => n.syntax,
            TypeRef::ForType(n) => n.syntax,
            TypeRef::ImplTraitType(n) => n.syntax,
            TypeRef::DynTraitType(n) => n.syntax,
        }
    }
}

/// An expression, in any of its forms.
#[derive(Debug, Clone, Copy, PartialEq, Eq)]
pub enum Expr<'a> {
    TupleExpr(TupleExpr<'a>),
    ArrayExpr(ArrayExpr<'a>),
    ParenExpr(ParenExpr<'a>),
    PathExpr(PathExpr<'a>),
    LambdaExpr(LambdaExpr<'a>),
    IfExpr(IfExpr<'a>),
    LoopExpr(LoopExpr<'a>),
    ForExpr(ForExpr<'a>),
    WhileExpr(WhileExpr<'a>),
    ContinueExpr(ContinueExpr<'a>),
    BreakExpr(BreakExpr<'a>),
    Label(Label<'a>),
    BlockExpr(BlockExpr<'a>),
    ReturnExpr(ReturnExpr<'a>),
    MatchExpr(MatchExpr<'a>),
    StructLit(StructLit<'a>),
    CallExpr(CallExpr<'a>),
    IndexExpr(IndexExpr<'a>),
    MethodCallExpr(MethodCallExpr<'a>),
    FieldExpr(FieldExpr<'a>),
    TryExpr(TryExpr<'a>),
    CastExpr(CastExpr<'a>),
    RefExpr(RefExpr<'a>),
    PrefixExpr(PrefixExpr<'a>),
    RangeExpr(RangeExpr<'a>),
    BinExpr(BinExpr<'a>),
    Literal(Literal<'a>),
}

impl<'a> AstNode<'a> for Expr<'a> {
    open spec fn can_cast(kind: SyntaxKind) -> bool {
        match kind {
            SyntaxKind::TUPLE_EXPR => true,
            SyntaxKind::ARRAY_EXPR => true,
            SyntaxKind::PAREN_EXPR => true,
            SyntaxKind::PATH_EXPR => true,
            SyntaxKind::LAMBDA_EXPR => true,
            SyntaxKind::IF_EXPR => true,
            SyntaxKind::LOOP_EXPR => true,
            SyntaxKind::FOR_EXPR => true,
            SyntaxKind::WHILE_EXPR => true,
            SyntaxKind::CONTINUE_EXPR => true,
            SyntaxKind::BREAK_EXPR => true,
            SyntaxKind::LABEL => true,
            SyntaxKind::BLOCK_EXPR => true,
            SyntaxKind::RETURN_EXPR => true,
            SyntaxKind::MATCH_EXPR => true,
            SyntaxKind::STRUCT_LIT => true,
            SyntaxKind::CALL_EXPR => true,
            SyntaxKind::INDEX_EXPR => true,
            SyntaxKind::METHOD_CALL_EXPR => true,
            SyntaxKind::FIELD_EXPR => true,
            SyntaxKind::TRY_EXPR => true,
            SyntaxKind::CAST_EXPR => true,
            SyntaxKind::REF_EXPR => true,
            SyntaxKind::PREFIX_EXPR => true,
            SyntaxKind::RANGE_EXPR => true,
            SyntaxKind::BIN_EXPR => true,
            SyntaxKind::LITERAL => true,
            _ => false,
        }
    }

    open spec fn node(&self) -> SyntaxNodeRef<'a> {
        match self {
            Expr::TupleExpr(n) => n.node(),
            Expr::ArrayExpr(n) => n.node(),
            Expr::ParenExpr(n) => n.node(),
            Expr::PathExpr(n) => n.node(),
            Expr::LambdaExpr(n) => n.node(),
            Expr::IfExpr(n) => n.node(),
            Expr::LoopExpr(n) => n.node(),
            Expr::ForExpr(n) => n.node(),
            Expr::WhileExpr(n) => n.node(),
            Expr::ContinueExpr(n) => n.node(),
            Expr::BreakExpr(n) => n.node(),
            Expr::Label(n) => n.node(),
            Expr::BlockExpr(n) => n.node(),
            Expr::ReturnExpr(n) => n.node(),
            Expr::MatchExpr(n) => n.node(),
            Expr::StructLit(n) => n.node(),
            Expr::CallExpr(n) => n.node(),
            Expr::IndexExpr(n) => n.node(),
            Expr::MethodCallExpr(n) => n.node(),
            Expr::FieldExpr(n) => n.node(),
            Expr::TryExpr(n) => n.node(),
            Expr::CastExpr(n) => n.node(),
            Expr::RefExpr(n) => n.node(),
            Expr::PrefixExpr(n) => n.node(),
            Expr::RangeExpr(n) => n.node(),
            Expr::BinExpr(n) => n.node(),
            Expr::Literal(n) => n.node(),
        }
    }

    open spec fn wf(&self) -> bool {
        match self {
            Expr::TupleExpr(n) => n.wf(),
            Expr::ArrayExpr(n) => n.wf(),
            Expr::ParenExpr(n) => n.wf(),
            Expr::PathExpr(n) => n.wf(),
            Expr::LambdaExpr(n) => n.wf(),
            Expr::IfExpr(n) => n.wf(),
            Expr::LoopExpr(n) => n.wf(),
            Expr::ForExpr(n) => n.wf(),
            Expr::WhileExpr(n) => n.wf(),
            Expr::ContinueExpr(n) => n.wf(),
            Expr::BreakExpr(n) => n.wf(),
            Expr::Label(n) => n.wf(),
            Expr::BlockExpr(n) => n.wf(),
            Expr::ReturnExpr(n) => n.wf(),
            Expr::MatchExpr(n) => n.wf(),
            Expr::StructLit(n) => n.wf(),
            Expr::CallExpr(n) => n.wf(),
            Expr::IndexExpr(n) => n.wf(),
            Expr::MethodCallExpr(n) => n.wf(),
            Expr::FieldExpr(n) => n.wf(),
            Expr::TryExpr(n) => n.wf(),
            Expr::CastExpr(n) => n.wf(),
            Expr::RefExpr(n) => n.wf(),
            Expr::PrefixExpr(n) => n.wf(),
            Expr::RangeExpr(n) => n.wf(),
            Expr::BinExpr(n) => n.wf(),
            Expr::Literal(n) => n.wf(),
        }
    }

    proof fn lemma_wf(&self) {
    }

    fn cast(syntax: SyntaxNodeRef<'a>) -> (r: Option<Self>) {
        match syntax.kind() {
            SyntaxKind::TUPLE_EXPR => Some(Expr::TupleExpr(TupleExpr { syntax })),
            SyntaxKind::ARRAY_EXPR => Some(Expr::ArrayExpr(ArrayExpr { syntax })),
            SyntaxKind::PAREN_EXPR => Some(Expr::ParenExpr(ParenExpr { syntax })),
            SyntaxKind::PATH_EXPR => Some(Expr::PathExpr(PathExpr { syntax })),
            SyntaxKind::LAMBDA_EXPR => Some(Expr::LambdaExpr(LambdaExpr { syntax })),
            SyntaxKind::IF_EXPR => Some(Expr::IfExpr(IfExpr { syntax })),
            SyntaxKind::LOOP_EXPR => Some(Expr::LoopExpr(LoopExpr { syntax })),
            SyntaxKind::FOR_EXPR => Some(Expr::ForExpr(ForExpr { syntax })),
            SyntaxKind::WHILE_EXPR => Some(Expr::WhileExpr(WhileExpr { syntax })),
            SyntaxKind::CONTINUE_EXPR => Some(Expr::ContinueExpr(ContinueExpr { syntax })),
            SyntaxKind::BREAK_EXPR => Some(Expr::BreakExpr(BreakExpr { syntax })),
            SyntaxKind::LABEL => Some(Expr::Label(Label { syntax })),
            SyntaxKind::BLOCK_EXPR => Some(Expr::BlockExpr(BlockExpr { syntax })),
            SyntaxKind::RETURN_EXPR => Some(Expr::ReturnExpr(ReturnExpr { syntax })),
            SyntaxKind::MATCH_EXPR => Some(Expr::MatchExpr(MatchExpr { syntax })),
            SyntaxKind::STRUCT_LIT => Some(Expr::StructLit(StructLit { syntax })),
            SyntaxKind::CALL_EXPR => Some(Expr::CallExpr(CallExpr { syntax })),
            SyntaxKind::INDEX_EXPR => Some(Expr::IndexExpr(IndexExpr { syntax })),
            SyntaxKind::METHOD_CALL_EXPR => Some(Expr::MethodCallExpr(MethodCallExpr { syntax })),
            SyntaxKind::FIELD_EXPR => Some(Expr::FieldExpr(FieldExpr { syntax })),
            SyntaxKind::TRY_EXPR => Some(Expr::TryExpr(TryExpr { syntax })),
            SyntaxKind::CAST_EXPR => Some(Expr::CastExpr(CastExpr { syntax })),
            SyntaxKind::REF_EXPR => Some(Expr::RefExpr(RefExpr { syntax })),
            SyntaxKind::PREFIX_EXPR => Some(Expr::PrefixExpr(PrefixExpr { syntax })),
            SyntaxKind::RANGE_EXPR => Some(Expr::RangeExpr(RangeExpr { syntax })),
            SyntaxKind::BIN_EXPR => Some(Expr::BinExpr(BinExpr { syntax })),
            SyntaxKind::LITERAL => Some(Expr::Literal(Literal { syntax })),
            _ => None,
        }
    }

    fn syntax(&self) -> (r: SyntaxNodeRef<'a>) {
        match self {
            Expr::TupleExpr(n) => n.syntax,
            Expr::ArrayExpr(n) => n.syntax,
            Expr::ParenExpr(n) => n.syntax,
            Expr::PathExpr(n) => n.syntax,
            Expr::LambdaExpr(n) => n.syntax,
            Expr::IfExpr(n) => n.syntax,
            Expr::LoopExpr(n) => n.syntax,
            Expr::ForExpr(n) => n.syntax,
            Expr::WhileExpr(n) => n.syntax,
            Expr::ContinueExpr(n) => n.syntax,
            Expr::BreakExpr(n) => n.syntax,
            Expr::Label(n) => n.syntax,
            Expr::BlockExpr(n) => n.syntax,
            Expr::ReturnExpr(n) => n.syntax,
            Expr::MatchExpr(n) => n.syntax,
            Expr::StructLit(n) => n.syntax,
            Expr::CallExpr(n) => n.syntax,
            Expr::IndexExpr(n) => n.syntax,
            Expr::MethodCallExpr(n) => n.syntax,
            Expr::FieldExpr(n) => n.syntax,
            Expr::TryExpr(n) => n.syntax,
            Expr::CastExpr(n) => n.syntax,
            Expr::RefExpr(n) => n.syntax,
            Expr::PrefixExpr(n) => n.syntax,
            Expr::RangeExpr(n) => n.syntax,
            Expr::BinExpr(n) => n.syntax,
            Expr::Literal(n) => n.syntax,
        }
    }
}

/// A pattern, in any of its forms.
#[derive(Debug, Clone, Copy, PartialEq, Eq)]
pub enum Pat<'a> {
    RefPat(RefPat<'a>),
    BindPat(BindPat<'a>),
    PlaceholderPat(PlaceholderPat<'a>),
    PathPat(PathPat<'a>),
    StructPat(StructPat<'a>),
    FieldPatList(FieldPatList<'a>),
    TupleStructPat(TupleStructPat<'a>),
    TuplePat(TuplePat<'a>),
    SlicePat(SlicePat<'a>),
    RangePat(RangePat<'a>),
}

impl<'a> AstNode<'a> for Pat<'a> {
    open spec fn can_cast(kind: SyntaxKind) -> bool {
        match kind {
            SyntaxKind::REF_PAT => true,
            SyntaxKind::BIND_PAT => true,
            SyntaxKind::PLACEHOLDER_PAT => true,
            SyntaxKind::PATH_PAT => true,
            SyntaxKind::STRUCT_PAT => true,
            SyntaxKind::FIELD_PAT_LIST => true,
            SyntaxKind::TUPLE_STRUCT_PAT => true,
            SyntaxKind::TUPLE_PAT => true,
            SyntaxKind::SLICE_PAT => true,
            SyntaxKind::RANGE_PAT => true,
            _ => false,
        }
    }

    open spec fn node(&self) -> SyntaxNodeRef<'a> {
        match self {
            Pat::RefPat(n) => n.node(),
            Pat::BindPat(n) => n.node(),
            Pat::PlaceholderPat(n) => n.node(),
            Pat::PathPat(n) => n.node(),
            Pat::StructPat(n) => n.node(),
            Pat::FieldPatList(n) => n.node(),
            Pat::TupleStructPat(n) => n.node(),
            Pat::TuplePat(n) => n.node(),
            Pat::SlicePat(n) => n.node(),
            Pat::RangePat(n) => n.node(),
        }
    }

    open spec fn wf(&self) -> bool {
        match self {
            Pat::RefPat(n) => n.wf(),
            Pat::BindPat(n) => n.wf(),
            Pat::PlaceholderPat(n) => n.wf(),
            Pat::PathPat(n) => n.wf(),
            Pat::StructPat(n) => n.wf(),
            Pat::FieldPatList(n) => n.wf(),
            Pat::TupleStructPat(n) => n.wf(),
            Pat::TuplePat(n) => n.wf(),
            Pat::SlicePat(n) => n.wf(),
            Pat::RangePat(n) => n.wf(),
        }
    }

    proof fn lemma_wf(&self) {
    }

    fn cast(syntax: SyntaxNodeRef<'a>) -> (r: Option<Self>) {
        match syntax.kind() {
            SyntaxKind::REF_PAT => Some(Pat::RefPat(RefPat { syntax })),
            SyntaxKind::BIND_PAT => Some(Pat::BindPat(BindPat { syntax })),
            SyntaxKind::PLACEHOLDER_PAT => Some(Pat::PlaceholderPat(PlaceholderPat { syntax })),
            SyntaxKind::PATH_PAT => Some(Pat::PathPat(PathPat { syntax })),
            SyntaxKind::STRUCT_PAT => Some(Pat::StructPat(StructPat { syntax })),
            SyntaxKind::FIELD_PAT_LIST => Some(Pat::FieldPatList(FieldPatList { syntax })),
            SyntaxKind::TUPLE_STRUCT_PAT => Some(Pat::TupleStructPat(TupleStructPat { syntax })),
            SyntaxKind::TUPLE_PAT => Some(Pat::TuplePat(TuplePat { syntax })),
            SyntaxKind::SLICE_PAT => Some(Pat::SlicePat(SlicePat { syntax })),
            SyntaxKind::RANGE_PAT => Some(Pat::RangePat(RangePat { syntax })),
            _ => None,
        }
    }

    fn syntax(&self) -> (r: SyntaxNodeRef<'a>) {
        match self {
            Pat::RefPat(n) => n.syntax,
            Pat::BindPat(n) => n.syntax,
            Pat::PlaceholderPat(n) => n.syntax,
            Pat::PathPat(n) => n.syntax,
            Pat::StructPat(n) => n.syntax,
            Pat::FieldPatList(n) => n.syntax,
            Pat::TupleStructPat(n) => n.syntax,
            Pat::TuplePat(n) => n.syntax,
            Pat::SlicePat(n) => n.syntax,
            Pat::RangePat(n) => n.syntax,
        }
    }
}

/// A statement of a block.
#[derive(Debug, Clone, Copy, PartialEq, Eq)]
pub enum Stmt<'a> {
    ExprStmt(ExprStmt<'a>),
    LetStmt(LetStmt<'a>),
}

impl<'a> AstNode<'a> for Stmt<'a> {
    open spec fn can_cast(kind: SyntaxKind) -> bool {
        match kind {
            SyntaxKind::EXPR_STMT => true,
            SyntaxKind::LET_STMT => true,
            _ => false,
        }
    }

    open spec fn node(&self) -> SyntaxNodeRef<'a> {
        match self {
            Stmt::ExprStmt(n) => n.node(),
            Stmt::LetStmt(n) => n.node(),
        }
    }

    open spec fn wf(&self) -> bool {
        match self {
            Stmt::ExprStmt(n) => n.wf(),
            Stmt::LetStmt(n) => n.wf(),
        }
    }

    proof fn lemma_wf(&self) {
    }

    fn cast(syntax: SyntaxNodeRef<'a>) -> (r: Option<Self>) {
        match syntax.kind() {
            SyntaxKind::EXPR_STMT => Some(Stmt::ExprStmt(ExprStmt { syntax })),
            SyntaxKind::LET_STMT => Some(Stmt::LetStmt(LetStmt { syntax })),
            _ => None,
        }
    }

    fn syntax(&self) -> (r: SyntaxNodeRef<'a>) {
        match self {
            Stmt::ExprStmt(n) => n.syntax,
            Stmt::LetStmt(n) => n.syntax,
        }
    }
}

/// An item of a module.
#[derive(Debug, Clone, Copy, PartialEq, Eq)]
pub enum ModuleItem<'a> {
    StructDef(StructDef<'a>),
    EnumDef(EnumDef<'a>),
    FnDef(FnDef<'a>),
    TraitDef(TraitDef<'a>),
    TypeDef(TypeDef<'a>),
    ImplBlock(ImplBlock<'a>),
    UseItem(UseItem<'a>),
    ExternCrateItem(ExternCrateItem<'a>),
    ConstDef(ConstDef<'a>),
    StaticDef(StaticDef<'a>),
    Module(Module<'a>),
}

impl<'a> AstNode<'a> for ModuleItem<'a> {
    open spec fn can_cast(kind: SyntaxKind) -> bool {
        match kind {
            SyntaxKind::STRUCT_DEF => true,
            SyntaxKind::ENUM_DEF => true,
            SyntaxKind::FN_DEF => true,
            SyntaxKind::TRAIT_DEF => true,
            SyntaxKind::TYPE_DEF => true,
            SyntaxKind::IMPL_BLOCK => true,
            SyntaxKind::USE_ITEM => true,
            SyntaxKind::EXTERN_CRATE_ITEM => true,
            SyntaxKind::CONST_DEF => true,
            SyntaxKind::STATIC_DEF => true,
            SyntaxKind::MODULE => true,
            _ => false,
        }
    }

    open spec fn node(&self) -> SyntaxNodeRef<'a> {
        match self {
            ModuleItem::StructDef(n) => n.node(),
            ModuleItem::EnumDef(n) => n.node(),
            ModuleItem::FnDef(n) => n.node(),
            ModuleItem::TraitDef(n) => n.node(),
            ModuleItem::TypeDef(n) => n.node(),
            ModuleItem::ImplBlock(n) => n.node(),
            ModuleItem::UseItem(n) => n.node(),
            ModuleItem::ExternCrateItem(n) => n.node(),
            ModuleItem::ConstDef(n) => n.node(),
            ModuleItem::StaticDef(n) => n.node(),
            ModuleItem::Module(n) => n.node(),
        }
    }

    open spec fn wf(&self) -> bool {
        match self {
            ModuleItem::StructDef(n) => n.wf(),
            ModuleItem::EnumDef(n) => n.wf(),
            ModuleItem::FnDef(n) => n.wf(),
            ModuleItem::TraitDef(n) => n.wf(),
            ModuleItem::TypeDef(n) => n.wf(),
            ModuleItem::ImplBlock(n) => n.wf(),
            ModuleItem::UseItem(n) => n.wf(),
            ModuleItem::ExternCrateItem(n) => n.wf(),
            ModuleItem::ConstDef(n) => n.wf(),
            ModuleItem::StaticDef(n) => n.wf(),
            ModuleItem::Module(n) => n.wf(),
        }
    }

    proof fn lemma_wf(&self) {
    }

    fn cast(syntax: SyntaxNodeRef<'a>) -> (r: Option<Self>) {
        match syntax.kind() {
            SyntaxKind::STRUCT_DEF => Some(ModuleItem::StructDef(StructDef { syntax })),
            SyntaxKind::ENUM_DEF => Some(ModuleItem::EnumDef(EnumDef { syntax })),
            SyntaxKind::FN_DEF => Some(ModuleItem::FnDef(FnDef { syntax })),
            SyntaxKind::TRAIT_DEF => Some(ModuleItem::TraitDef(TraitDef { syntax })),
            SyntaxKind::TYPE_DEF => Some(ModuleItem::TypeDef(TypeDef { syntax })),
            SyntaxKind::IMPL_BLOCK => Some(ModuleItem::ImplBlock(ImplBlock { syntax })),
            SyntaxKind::USE_ITEM => Some(ModuleItem::UseItem(UseItem { syntax })),
            SyntaxKind::EXTERN_CRATE_ITEM => Some(ModuleItem::ExternCrateItem(ExternCrateItem { syntax })),
            SyntaxKind::CONST_DEF => Some(ModuleItem::ConstDef(ConstDef { syntax })),
            SyntaxKind::STATIC_DEF => Some(ModuleItem::StaticDef(StaticDef { syntax })),
            SyntaxKind::MODULE => Some(ModuleItem::Module(Module { syntax })),
            _ => None,
        }
    }

    fn syntax(&self) -> (r: SyntaxNodeRef<'a>) {
        match self {
            ModuleItem::StructDef(n) => n.syntax,
            ModuleItem::EnumDef(n) => n.syntax,
            ModuleItem::FnDef(n) => n.syntax,
            ModuleItem::TraitDef(n) => n.syntax,
            ModuleItem::TypeDef(n) => n.syntax,
            ModuleItem::ImplBlock(n) => n.syntax,
            ModuleItem::UseItem(n) => n.syntax,
            ModuleItem::ExternCrateItem(n) => n.syntax,
            ModuleItem::ConstDef(n) => n.syntax,
            ModuleItem::StaticDef(n) => n.syntax,
            ModuleItem::Module(n) => n.syntax,
        }
    }
}

/// An item of an impl block.
#[derive(Debug, Clone, Copy, PartialEq, Eq)]
pub enum ImplItem<'a> {
    FnDef(FnDef<'a>),
    TypeDef(TypeDef<'a>),
    ConstDef(ConstDef<'a>),
}

impl<'a> AstNode<'a> for ImplItem<'a> {
    open spec fn can_cast(kind: SyntaxKind) -> bool {
        match kind {
            SyntaxKind::FN_DEF => true,
            SyntaxKind::TYPE_DEF => true,
            SyntaxKind::CONST_DEF => true,
            _ => false,
        }
    }

    open spec fn node(&self) -> SyntaxNodeRef<'a> {
        match self {
            ImplItem::FnDef(n) => n.node(),
            ImplItem::TypeDef(n) => n.node(),
            ImplItem::ConstDef(n) => n.node(),
        }
    }

    open spec fn wf(&self) -> bool {
        match self {
            ImplItem::FnDef(n) => n.wf(),
            ImplItem::TypeDef(n) => n.wf(),
            ImplItem::ConstDef(n) => n.wf(),
        }
    }

    proof fn lemma_wf(&self) {
    }

    fn cast(syntax: SyntaxNodeRef<'a>) -> (r: Option<Self>) {
        match syntax.kind() {
            SyntaxKind::FN_DEF => Some(ImplItem::FnDef(FnDef { syntax })),
            SyntaxKind::TYPE_DEF => Some(ImplItem::TypeDef(TypeDef { syntax })),
            SyntaxKind::CONST_DEF => Some(ImplItem::ConstDef(ConstDef { syntax })),
            _ => None,
        }
    }

    fn syntax(&self) -> (r: SyntaxNodeRef<'a>) {
        match self {
            ImplItem::FnDef(n) => n.syntax,
            ImplItem::TypeDef(n) => n.syntax,
            ImplItem::ConstDef(n) => n.syntax,
        }
    }
}

} // verus!
