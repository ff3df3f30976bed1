//! Attributes and events as plain values.

use vstd::prelude::*;

verus! {

/// The value of an attribute as contracts see it.
///
/// `Foreign` stands for any value of a kind that this crate never writes.
pub enum AttrValueView {
    Int(i64),
    Text(Seq<char>),
    Flag(bool),
    Foreign,
}

/// The value of an attribute.
#[derive(Debug)]
pub enum AttrValue {
    Int(i64),
    Text(String),
    Flag(bool),
}

impl View for AttrValue {
    type V = AttrValueView;

    open spec fn view(&self) -> AttrValueView {
        match self {
            AttrValue::Int(i) => AttrValueView::Int(*i),
            AttrValue::Text(s) => AttrValueView::Text(s@),
            AttrValue::Flag(b) => AttrValueView::Flag(*b),
        }
    }
}

/// A key with its value, as contracts see it.
#[verifier::ext_equal]
pub struct AttributeView {
    pub key: Seq<char>,
    pub value: AttrValueView,
}

/// A key with its value.
#[derive(Debug)]
pub struct Attribute {
    pub key: String,
    pub value: AttrValue,
}

impl View for Attribute {
    type V = AttributeView;

    open spec fn view(&self) -> AttributeView {
        AttributeView { key: self.key@, value: self.value@ }
    }
}

/// The attribute `key` with an integer value.
pub open spec fn int_attr(key: Seq<char>, value: i64) -> AttributeView {
    AttributeView { key, value: AttrValueView::Int(value) }
}

/// The attribute `key` with a text value.
pub open spec fn text_attr(key: Seq<char>, value: Seq<char>) -> AttributeView {
    AttributeView { key, value: AttrValueView::Text(value) }
}

/// The attribute `key` with a boolean value.
pub open spec fn flag_attr(key: Seq<char>, value: bool) -> AttributeView {
    AttributeView { key, value: AttrValueView::Flag(value) }
}

impl Attribute {
    /// An attribute with an integer value.
    pub fn integer(key: &str, value: i64) -> (a: Attribute)
        ensures
            a@ == int_attr(key@, value),
    {
        Attribute { key: String::from_str(key), value: AttrValue::Int(value) }
    }

    /// An attribute with a text value.
    pub fn text(key: &str, value: &str) -> (a: Attribute)
        ensures
            a@ == text_attr(key@, value@),
    {
        Attribute { key: String::from_str(key), value: AttrValue::Text(String::from_str(value)) }
    }

    /// An attribute with a boolean value.
    pub fn flag(key: &str, value: bool) -> (a: Attribute)
        ensures
            a@ == flag_attr(key@, value),
    {
        Attribute { key: String::from_str(key), value: AttrValue::Flag(value) }
    }
}

/// The views of a list of attributes, in order.
pub open spec fn attribute_views(attrs: Seq<Attribute>) -> Seq<AttributeView> {
    attrs.map_values(|a: Attribute| a@)
}

/// A named point in time with its attributes, as contracts see it.
#[verifier::ext_equal]
pub struct EventView {
    pub name: Seq<char>,
    pub attributes: Seq<AttributeView>,
}

/// A named point in time with its attributes.
#[derive(Debug)]
pub struct SpanEvent {
    pub name: String,
    pub attributes: Vec<Attribute>,
}

impl View for SpanEvent {
    type V = EventView;

    open spec fn view(&self) -> EventView {
        EventView { name: self.name@, attributes: attribute_views(self.attributes@) }
    }
}

/// The largest `i64` not above `n`, which is `n` itself wherever it fits.
pub open spec fn clamp_i64(n: int) -> i64 {
    if n > i64::MAX {
        i64::MAX
    } else if n < i64::MIN {
        i64::MIN
    } else {
        n as i64
    }
}

/// A count as an attribute value: itself, or `i64::MAX` where it is larger.
pub fn count_to_i64(n: usize) -> (v: i64)
    ensures
        v == clamp_i64(n as int),
{
    wide_to_i64(n as u128)
}

/// A 128-bit count as an attribute value: itself, or `i64::MAX` where it is larger.
pub fn wide_to_i64(n: u128) -> (v: i64)
    ensures
        v == clamp_i64(n as int),
{
    if n > 0x7fff_ffff_ffff_ffff {
        i64::MAX
    } else {
        n as i64
    }
}

/// The largest `u64` not above `n`, which is `n` itself wherever it fits.
pub open spec fn clamp_u64(n: nat) -> u64 {
    if n > u64::MAX {
        u64::MAX
    } else {
        n as u64
    }
}

/// A 128-bit count as a metric value: itself, or `u64::MAX` where it is larger.
pub fn wide_to_u64(n: u128) -> (v: u64)
    ensures
        v == clamp_u64(n as nat),
{
    if n > 0xffff_ffff_ffff_ffff {
        u64::MAX
    } else {
        n as u64
    }
}

} // verus!
