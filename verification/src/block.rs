//! The block tree: the in-memory form of the job-spec document that the
//! external document renderer serialises.  A block has a type tag, positional
//! labels, an ordered attribute list and ordered child blocks; the order of
//! attributes and children is part of the output contract.

use vstd::prelude::*;

verus! {

/// A typed attribute value: string, integer, boolean, or list of strings.
#[derive(Debug, Clone, PartialEq)]
pub enum AttrValue {
    Str(String),
    Int(i64),
    Bool(bool),
    StrList(Vec<String>),
}

/// A key/typed-value pair attached to a block.
#[derive(Debug, Clone, PartialEq)]
pub struct Attribute {
    pub key: String,
    pub value: AttrValue,
}

/// A node of the output document tree.
#[derive(Debug, PartialEq)]
pub struct Block {
    pub tag: String,
    pub labels: Vec<String>,
    pub attrs: Vec<Attribute>,
    pub children: Vec<Block>,
}

/// Mathematical model of an attribute value.
#[verifier::ext_equal]
pub enum AttrValueModel {
    Str(Seq<char>),
    Int(i64),
    Bool(bool),
    StrList(Seq<Seq<char>>),
}

/// Mathematical model of an attribute.
#[verifier::ext_equal]
pub struct AttributeModel {
    pub key: Seq<char>,
    pub value: AttrValueModel,
}

/// Mathematical model of a block: the same tree over `Seq` and `Seq<char>`.
#[verifier::ext_equal]
pub struct BlockModel {
    pub tag: Seq<char>,
    pub labels: Seq<Seq<char>>,
    pub attrs: Seq<AttributeModel>,
    pub children: Seq<BlockModel>,
}

impl View for AttrValue {
    type V = AttrValueModel;

    open spec fn view(&self) -> AttrValueModel {
        match self {
            AttrValue::Str(s) => AttrValueModel::Str(s@),
            AttrValue::Int(n) => AttrValueModel::Int(*n),
            AttrValue::Bool(b) => AttrValueModel::Bool(*b),
            AttrValue::StrList(v) => AttrValueModel::StrList(v@.map_values(|s: String| s@)),
        }
    }
}

impl View for Attribute {
    type V = AttributeModel;

    open spec fn view(&self) -> AttributeModel {
        AttributeModel { key: self.key@, value: self.value@ }
    }
}

/// The model of a block, computed recursively over its children.
pub open spec fn block_model(b: Block) -> BlockModel
    decreases b,
{
    BlockModel {
        tag: b.tag@,
        labels: b.labels@.map_values(|s: String| s@),
        attrs: b.attrs@.map_values(|a: Attribute| a@),
        children: Seq::new(
            b.children@.len(),
            |i: int|
                if 0 <= i < b.children@.len() {
                    block_model(b.children@[i])
                } else {
                    arbitrary()
                },
        ),
    }
}

impl View for Block {
    type V = BlockModel;

    open spec fn view(&self) -> BlockModel {
        block_model(*self)
    }
}

} // verus!
