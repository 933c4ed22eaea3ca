//! The layouts of structs and enums.

use vstd::prelude::*;
use std::sync::Arc;
use crate::ast;
use crate::ast::{AstNode, NameOwner, StructFlavor, first_token_text, kids, nth_kid};
use crate::lower::lemma_found;
use crate::lower_spec::{kid, name_or_missing, type_or_error};
use crate::name::Name;
use crate::syntax::NodeView;
use crate::text::spec_decimal;
use crate::type_ref::{TypeRef, TypeRefView};

verus! {

/// A single field of an enum variant or struct
#[derive(Debug, PartialEq, Eq)]
pub struct StructField {
    pub name: Name,
    pub type_ref: TypeRef,
}

/// A field as a mathematical value.
pub struct StructFieldView {
    pub name: Seq<char>,
    pub type_ref: TypeRefView,
}

impl View for StructField {
    type V = StructFieldView;

    open spec fn view(&self) -> StructFieldView {
        StructFieldView { name: self.name@, type_ref: self.type_ref@ }
    }
}

/// Fields of an enum variant or struct
#[derive(Debug, PartialEq, Eq)]
pub enum VariantData {
    Struct(Vec<StructField>),
    Tuple(Vec<StructField>),
    Unit,
}

/// The fields of a struct or an enum variant as a mathematical value.
pub enum VariantDataView {
    Struct(Seq<StructFieldView>),
    Tuple(Seq<StructFieldView>),
    Unit,
}

/// The views of fields.
pub open spec fn fields_view(v: Seq<StructField>) -> Seq<StructFieldView> {
    v.map_values(|f: StructField| f@)
}

impl View for VariantData {
    type V = VariantDataView;

    open spec fn view(&self) -> VariantDataView {
        match self {
            VariantData::Struct(v) => VariantDataView::Struct(fields_view(v@)),
            VariantData::Tuple(v) => VariantDataView::Tuple(fields_view(v@)),
            VariantData::Unit => VariantDataView::Unit,
        }
    }
}

/// The named fields at the nodes `ks`, after those of `acc`. A field
/// without a name gets the name that stands in for a missing one, and a
/// field without a type the error type.
pub open spec fn named_fields(nodes: Seq<NodeView>, ks: Seq<int>, acc: Seq<StructFieldView>) -> Seq<
    StructFieldView,
>
    decreases ks.len(),
{
    if ks.len() == 0 {
        acc
    } else {
        named_fields(
            nodes,
            ks.drop_first(),
            acc.push(
                StructFieldView {
                    name: name_or_missing(nodes, kid::<ast::Name>(nodes, ks[0], 0)),
                    type_ref: type_or_error(nodes, kid::<ast::TypeRef>(nodes, ks[0], 0)),
                },
            ),
        )
    }
}

/// The positional fields at the nodes `ks`, after those of `acc`: each is
/// named by its position.
pub open spec fn pos_fields(nodes: Seq<NodeView>, ks: Seq<int>, acc: Seq<StructFieldView>) -> Seq<StructFieldView>
    decreases ks.len(),
{
    if ks.len() == 0 {
        acc
    } else {
        pos_fields(
            nodes,
            ks.drop_first(),
            acc.push(
                StructFieldView {
                    name: spec_decimal(acc.len()),
                    type_ref: type_or_error(nodes, kid::<ast::TypeRef>(nodes, ks[0], 0)),
                },
            ),
        )
    }
}

/// The fields that the children of node `i` show: those of its list of
/// named fields, else those of its list of positional fields, else none.
pub open spec fn variant_data_of(nodes: Seq<NodeView>, i: int) -> VariantDataView {
    match nth_kid::<ast::NamedFieldDefList>(nodes, i, 0) {
        Some(l) => VariantDataView::Struct(named_fields(nodes, kids::<ast::NamedFieldDef>(nodes, l), Seq::empty())),
        None => match nth_kid::<ast::PosFieldList>(nodes, i, 0) {
            Some(l) => VariantDataView::Tuple(pos_fields(nodes, kids::<ast::PosField>(nodes, l), Seq::empty())),
            None => VariantDataView::Unit,
        },
    }
}

impl VariantData {
    /// The fields that a struct or an enum variant of the given flavor has.
    pub fn new(flavor: StructFlavor) -> (r: VariantData)
        requires
            flavor.wf(),
        ensures
            r@ == (match flavor {
                StructFlavor::Named(l) => VariantDataView::Struct(
                    named_fields(
                        l.node().tree()@,
                        kids::<ast::NamedFieldDef>(l.node().tree()@, l.node().index()),
                        Seq::empty(),
                    ),
                ),
                StructFlavor::Tuple(l) => VariantDataView::Tuple(
                    pos_fields(
                        l.node().tree()@,
                        kids::<ast::PosField>(l.node().tree()@, l.node().index()),
                        Seq::empty(),
                    ),
                ),
                StructFlavor::Unit => VariantDataView::Unit,
            }),
    {
        match flavor {
            StructFlavor::Tuple(fl) => {
                let ghost nodes = fl.node().tree()@;
                let mut it = fl.fields();
                let ghost all = it.rest();
                let mut fields: Vec<StructField> = Vec::new();
                assert(fields_view(fields@) =~= Seq::empty());
                loop
                    invariant
                        it.wf(),
                        it.parent().tree()@ == nodes,
                        nodes == fl.node().tree()@,
                        all == kids::<ast::PosField>(nodes, fl.node().index()),
                        flavor == StructFlavor::Tuple(fl),
                        pos_fields(nodes, it.rest(), fields_view(fields@)) == pos_fields(nodes, all, Seq::empty()),
                    decreases it.rest().len(),
                {
                    match it.next() {
                        Some(fd) => {
                            proof {
                                fd.lemma_wf();
                            }
                            let ty = fd.type_ref();
                            proof {
                                lemma_found::<ast::TypeRef>(ty, fd.node(), 0);
                            }
                            let ghost acc = fields_view(fields@);
                            let field = StructField {
                                name: Name::tuple_field_name(fields.len()),
                                type_ref: TypeRef::from_ast_opt(ty),
                            };
                            let ghost view = field@;
                            fields.push(field);
                            assert(fields_view(fields@) =~= acc.push(view));
                        },
                        None => {
                            return VariantData::Tuple(fields);
                        },
                    }
                }
            },
            StructFlavor::Named(fl) => {
                let ghost nodes = fl.node().tree()@;
                let mut it = fl.fields();
                let ghost all = it.rest();
                let mut fields: Vec<StructField> = Vec::new();
                assert(fields_view(fields@) =~= Seq::empty());
                loop
                    invariant
                        it.wf(),
                        it.parent().tree()@ == nodes,
                        nodes == fl.node().tree()@,
                        all == kids::<ast::NamedFieldDef>(nodes, fl.node().index()),
                        flavor == StructFlavor::Named(fl),
                        named_fields(nodes, it.rest(), fields_view(fields@)) == named_fields(
                            nodes,
                            all,
                            Seq::empty(),
                        ),
                    decreases it.rest().len(),
                {
                    match it.next() {
                        Some(fd) => {
                            proof {
                                fd.lemma_wf();
                            }
                            let ty = fd.type_ref();
                            let name_syntax = fd.name();
                            proof {
                                lemma_found::<ast::TypeRef>(ty, fd.node(), 0);
                                lemma_found::<ast::Name>(name_syntax, fd.node(), 0);
                            }
                            let ghost acc = fields_view(fields@);
                            let field = StructField {
                                name: match name_syntax {
                                    Some(n) => Name::from_name(n),
                                    None => Name::missing(),
                                },
                                type_ref: TypeRef::from_ast_opt(ty),
                            };
                            let ghost view = field@;
                            fields.push(field);
                            assert(fields_view(fields@) =~= acc.push(view));
                        },
                        None => {
                            return VariantData::Struct(fields);
                        },
                    }
                }
            },
            StructFlavor::Unit => VariantData::Unit,
        }
    }

    /// The fields, in the order of the source; none for a unit.
    pub fn fields(&self) -> (r: &[StructField])
        ensures
            r@.map_values(|f: StructField| f@) == (match self@ {
                VariantDataView::Struct(f) => f,
                VariantDataView::Tuple(f) => f,
                VariantDataView::Unit => Seq::empty(),
            }),
    {
        match self {
            VariantData::Struct(fields) => fields.as_slice(),
            VariantData::Tuple(fields) => fields.as_slice(),
            VariantData::Unit => {
                let e: &[StructField] = &[];
                assert(e@.map_values(|f: StructField| f@) =~= Seq::empty());
                e
            },
        }
    }
}

/// The layout of a struct: its name and its fields.
#[derive(Debug, PartialEq, Eq)]
pub struct StructData {
    name: Option<Name>,
    variant_data: Arc<VariantData>,
}

/// The layout of a struct as a mathematical value.
pub struct StructDataView {
    pub name: Option<Seq<char>>,
    pub variant_data: VariantDataView,
}

/// The view of a name that may be missing.
pub open spec fn opt_name(n: Option<Name>) -> Option<Seq<char>> {
    match n {
        Some(n) => Some(n@),
        None => None,
    }
}

/// The text of the name at node `n`, if there is such a node.
pub open spec fn name_text(nodes: Seq<NodeView>, n: Option<int>) -> Option<Seq<char>> {
    match n {
        Some(n) => Some(first_token_text(nodes, n)),
        None => None,
    }
}

impl View for StructData {
    type V = StructDataView;

    closed spec fn view(&self) -> StructDataView {
        StructDataView { name: opt_name(self.name), variant_data: (*self.variant_data)@ }
    }
}

impl StructData {
    pub fn new(struct_def: ast::StructDef) -> (r: StructData)
        requires
            struct_def.wf(),
        ensures
            r@ == (StructDataView {
                name: name_text(
                    struct_def.node().tree()@,
                    nth_kid::<ast::Name>(struct_def.node().tree()@, struct_def.node().index(), 0),
                ),
                variant_data: variant_data_of(struct_def.node().tree()@, struct_def.node().index()),
            }),
    {
        let name = match struct_def.name() {
            Some(n) => Some(Name::from_name(n)),
            None => None,
        };
        let variant_data = VariantData::new(struct_def.flavor());
        let variant_data = Arc::new(variant_data);
        StructData { name, variant_data }
    }

    pub fn name(&self) -> (r: Option<&Name>)
        ensures
            r.is_some() == self@.name.is_some(),
            r matches Some(n) ==> Some(n@) == self@.name,
    {
        self.name.as_ref()
    }

    pub fn variant_data(&self) -> (r: &Arc<VariantData>)
        ensures
            (**r)@ == self@.variant_data,
    {
        &self.variant_data
    }
}

/// The layout of an enum: its name and its variants, each with its name
/// and its fields.
#[derive(Debug, PartialEq, Eq)]
pub struct EnumData {
    name: Option<Name>,
    variants: Vec<(Name, Arc<VariantData>)>,
}

/// The layout of an enum as a mathematical value.
pub struct EnumDataView {
    pub name: Option<Seq<char>>,
    pub variants: Seq<(Seq<char>, VariantDataView)>,
}

/// The views of variants.
pub open spec fn variants_view(v: Seq<(Name, Arc<VariantData>)>) -> Seq<(Seq<char>, VariantDataView)> {
    v.map_values(|p: (Name, Arc<VariantData>)| (p.0@, (*p.1)@))
}

impl View for EnumData {
    type V = EnumDataView;

    closed spec fn view(&self) -> EnumDataView {
        EnumDataView { name: opt_name(self.name), variants: variants_view(self.variants@) }
    }
}

/// The variants at the nodes `ks` that have a name, after those of `acc`.
pub open spec fn variants_of(nodes: Seq<NodeView>, ks: Seq<int>, acc: Seq<(Seq<char>, VariantDataView)>) -> Seq<
    (Seq<char>, VariantDataView),
>
    decreases ks.len(),
{
    if ks.len() == 0 {
        acc
    } else {
        variants_of(
            nodes,
            ks.drop_first(),
            match nth_kid::<ast::Name>(nodes, ks[0], 0) {
                Some(n) => acc.push((first_token_text(nodes, n), variant_data_of(nodes, ks[0]))),
                None => acc,
            },
        )
    }
}

impl EnumData {
    pub fn new(enum_def: ast::EnumDef) -> (r: EnumData)
        requires
            enum_def.wf(),
        ensures
            r@ == (EnumDataView {
                name: name_text(
                    enum_def.node().tree()@,
                    nth_kid::<ast::Name>(enum_def.node().tree()@, enum_def.node().index(), 0),
                ),
                variants: match nth_kid::<ast::EnumVariantList>(
                    enum_def.node().tree()@,
                    enum_def.node().index(),
                    0,
                ) {
                    Some(l) => variants_of(
                        enum_def.node().tree()@,
                        kids::<ast::EnumVariant>(enum_def.node().tree()@, l),
                        Seq::empty(),
                    ),
                    None => Seq::empty(),
                },
            }),
    {
        let ghost nodes = enum_def.node().tree()@;
        let name = match enum_def.name() {
            Some(n) => Some(Name::from_name(n)),
            None => None,
        };
        let mut variants: Vec<(Name, Arc<VariantData>)> = Vec::new();
        assert(variants_view(variants@) =~= Seq::empty());
        if let Some(vl) = enum_def.variant_list() {
            let mut it = vl.variants();
            let ghost all = it.rest();
            loop
                invariant
                    it.wf(),
                    it.parent().tree()@ == nodes,
                    nodes == enum_def.node().tree()@,
                    opt_name(name) == name_text(nodes, nth_kid::<ast::Name>(nodes, enum_def.node().index(), 0)),
                    nth_kid::<ast::EnumVariantList>(nodes, enum_def.node().index(), 0) == Some(vl.node().index()),
                    all == kids::<ast::EnumVariant>(nodes, vl.node().index()),
                    variants_of(nodes, it.rest(), variants_view(variants@)) == variants_of(
                        nodes,
                        all,
                        Seq::empty(),
                    ),
                decreases it.rest().len(),
            {
                match it.next() {
                    Some(v) => {
                        let ghost acc = variants_view(variants@);
                        match v.name() {
                            Some(n) => {
                                let name = Name::from_name(n);
                                let data = Arc::new(VariantData::new(v.flavor()));
                                let ghost view = (name@, (*data)@);
                                variants.push((name, data));
                                assert(variants_view(variants@) =~= acc.push(view));
                            },
                            None => {},
                        }
                    },
                    None => {
                        return EnumData { name, variants };
                    },
                }
            }
        }
        EnumData { name, variants }
    }

    pub fn name(&self) -> (r: Option<&Name>)
        ensures
            r.is_some() == self@.name.is_some(),
            r matches Some(n) ==> Some(n@) == self@.name,
    {
        self.name.as_ref()
    }

    pub fn variants(&self) -> (r: &Vec<(Name, Arc<VariantData>)>)
        ensures
            variants_view(r@) == self@.variants,
    {
        &self.variants
    }
}

} // verus!
