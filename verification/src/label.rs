//! Labels of record fields and variant alternatives.
use vstd::prelude::*;
use vstd::string::*;
use crate::text::text_copy;

verus! {

/// A label: a number, a name, or the position of a field that was given no label.
#[derive(Debug, PartialEq, Eq)]
pub enum Label {
    Id(u32),
    Named(String),
    Unnamed(u32),
}

pub enum LabelView {
    Id(u32),
    Named(Seq<char>),
    Unnamed(u32),
}

impl View for Label {
    type V = LabelView;

    open spec fn view(&self) -> LabelView {
        match self {
            Label::Id(n) => LabelView::Id(*n),
            Label::Named(s) => LabelView::Named(s@),
            Label::Unnamed(n) => LabelView::Unnamed(*n),
        }
    }
}

impl Clone for Label {
    fn clone(&self) -> (r: Self)
        ensures
            r@ == self@,
    {
        match self {
            Label::Id(n) => Label::Id(*n),
            Label::Named(s) => Label::Named(text_copy(s.as_str())),
            Label::Unnamed(n) => Label::Unnamed(*n),
        }
    }
}

/// The hash of a name: over its bytes, from the first on, the sum so far times 223
/// plus the byte, in 32 bits.
pub open spec fn name_hash(bytes: Seq<u8>) -> u32
    decreases bytes.len(),
{
    if bytes.len() == 0 {
        0
    } else {
        ((name_hash(bytes.drop_last()) * 223 + bytes.last()) % 0x1_0000_0000) as u32
    }
}

/// The id of a label: its number, or the hash of its name. Labels are ordered
/// and told apart by their ids.
pub open spec fn label_id(l: LabelView) -> u32 {
    match l {
        LabelView::Id(n) => n,
        LabelView::Named(s) => name_hash(vstd::utf8::encode_utf8(s)),
        LabelView::Unnamed(n) => n,
    }
}

/// Calls `candid::types::Label::get_id` on a named label. The contract claims
/// that the id is the hash of the name's bytes as `name_hash` states it.
#[verifier::external_body]
fn named_label_id(name: &str) -> (r: u32)
    ensures
        r == name_hash(vstd::utf8::encode_utf8(name@)),
{
    candid::types::Label::Named(name.to_string()).get_id()
}

impl Label {
    /// The id of this label.
    pub fn id(&self) -> (r: u32)
        ensures
            r == label_id(self@),
    {
        match self {
            Label::Id(n) => *n,
            Label::Named(s) => named_label_id(s.as_str()),
            Label::Unnamed(n) => *n,
        }
    }

    /// The id of the label with this name.
    pub fn id_of_name(name: &str) -> (r: u32)
        ensures
            r == label_id(LabelView::Named(name@)),
    {
        named_label_id(name)
    }
}

} // verus!
