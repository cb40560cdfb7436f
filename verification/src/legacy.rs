//! Legacy response types, kept for compatibility with callers that expect them.

use vstd::prelude::*;

verus! {

/// One item of a [`Response`]: nothing but an identifier.
#[derive(PartialEq, Debug)]
pub struct Item {
    pub id: String,
}

impl DeepView for Item {
    type V = Seq<char>;

    open spec fn deep_view(&self) -> Seq<char> {
        self.id@
    }
}

impl Clone for Item {
    fn clone(&self) -> (copy: Item)
        ensures
            copy.deep_view() == self.deep_view(),
    {
        Item { id: self.id.clone() }
    }
}

/// The items of a [`Response`].
#[derive(PartialEq, Debug)]
pub struct NestedData {
    pub items: Vec<Item>,
}

impl DeepView for NestedData {
    type V = Seq<Seq<char>>;

    open spec fn deep_view(&self) -> Seq<Seq<char>> {
        self.items.deep_view()
    }
}

impl Clone for NestedData {
    fn clone(&self) -> (copy: NestedData)
        ensures
            copy.deep_view() == self.deep_view(),
    {
        NestedData { items: self.items.clone() }
    }
}

/// An answer that wraps its items in a `data` member.
#[derive(PartialEq, Debug)]
pub struct Response {
    pub data: NestedData,
}

impl DeepView for Response {
    type V = Seq<Seq<char>>;

    open spec fn deep_view(&self) -> Seq<Seq<char>> {
        self.data.deep_view()
    }
}

impl Clone for Response {
    fn clone(&self) -> (copy: Response)
        ensures
            copy.deep_view() == self.deep_view(),
    {
        Response { data: self.data.clone() }
    }
}

} // verus!
