//! The positional values of a call and of its reply.

use vstd::prelude::*;

verus! {

/// What a positional value holds, over sequences.
pub enum PrimitiveView {
    Empty,
    Bool(bool),
    Text(Seq<char>),
    Index(usize),
}

/// One positional value of a call or of a reply. A call is a run of them; a
/// handler reads the first and takes a value of another kind, or none, as
/// "nothing was passed".
#[derive(Debug, PartialEq, Eq)]
pub enum Primitive {
    /// Nothing, or a value of a kind that no handler reads.
    Empty,
    /// A flag.
    Bool(bool),
    /// Text: a URL, a path, a status name, an encoded list.
    Text(String),
    /// The position of a subscription in the list.
    Index(usize),
}

impl View for Primitive {
    type V = PrimitiveView;

    open spec fn view(&self) -> PrimitiveView {
        match self {
            Primitive::Empty => PrimitiveView::Empty,
            Primitive::Bool(flag) => PrimitiveView::Bool(*flag),
            Primitive::Text(text) => PrimitiveView::Text(text@),
            Primitive::Index(index) => PrimitiveView::Index(*index),
        }
    }
}

/// The views of a run of positional values, in the same order.
pub open spec fn primitive_views(values: Seq<Primitive>) -> Seq<PrimitiveView> {
    values.map_values(|value: Primitive| value@)
}

/// The flag at the first position, if a flag stands there.
pub open spec fn first_bool(params: Seq<PrimitiveView>) -> Option<bool> {
    if params.len() > 0 && params[0] is Bool {
        Some(params[0]->Bool_0)
    } else {
        None
    }
}

/// The text at the first position, if text stands there.
pub open spec fn first_text(params: Seq<PrimitiveView>) -> Option<Seq<char>> {
    if params.len() > 0 && params[0] is Text {
        Some(params[0]->Text_0)
    } else {
        None
    }
}

/// The index at the first position, if an index stands there.
pub open spec fn first_index(params: Seq<PrimitiveView>) -> Option<usize> {
    if params.len() > 0 && params[0] is Index {
        Some(params[0]->Index_0)
    } else {
        None
    }
}

/// Reads the flag at the first position.
pub fn read_bool(params: &Vec<Primitive>) -> (flag: Option<bool>)
    ensures
        flag == first_bool(primitive_views(params@)),
{
    if params.len() == 0 {
        return None;
    }
    match &params[0] {
        Primitive::Bool(flag) => Some(*flag),
        _ => None,
    }
}

/// Reads the text at the first position.
pub fn read_text(params: &Vec<Primitive>) -> (text: Option<String>)
    ensures
        text is Some <==> first_text(primitive_views(params@)) is Some,
        text matches Some(t) ==> first_text(primitive_views(params@)) == Some(t@),
{
    if params.len() == 0 {
        return None;
    }
    match &params[0] {
        Primitive::Text(text) => Some(text.clone()),
        _ => None,
    }
}

/// Reads the index at the first position.
pub fn read_index(params: &Vec<Primitive>) -> (index: Option<usize>)
    ensures
        index == first_index(primitive_views(params@)),
{
    if params.len() == 0 {
        return None;
    }
    match &params[0] {
        Primitive::Index(index) => Some(*index),
        _ => None,
    }
}

/// The reply that carries nothing.
pub fn empty_reply() -> (reply: Vec<Primitive>)
    ensures
        primitive_views(reply@) == Seq::<PrimitiveView>::empty(),
{
    Vec::new()
}

/// The reply that carries one flag.
pub fn bool_reply(flag: bool) -> (reply: Vec<Primitive>)
    ensures
        primitive_views(reply@) == seq![PrimitiveView::Bool(flag)],
{
    let mut reply: Vec<Primitive> = Vec::new();
    reply.push(Primitive::Bool(flag));
    reply
}

/// The reply that carries one text.
pub fn text_reply(text: String) -> (reply: Vec<Primitive>)
    ensures
        primitive_views(reply@) == seq![PrimitiveView::Text(text@)],
{
    let mut reply: Vec<Primitive> = Vec::new();
    reply.push(Primitive::Text(text));
    reply
}

} // verus!
