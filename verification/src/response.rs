//! What a contract call answers: a list of key-value attributes.

use vstd::prelude::*;

verus! {

/// One key-value attribute of a response.
#[derive(Clone, Debug, PartialEq)]
pub struct Attribute {
    pub key: String,
    pub value: String,
}

/// The response of a contract call.
#[derive(Clone, Debug, PartialEq)]
pub struct Response {
    pub attributes: Vec<Attribute>,
}

/// The attributes of a response, as pairs of character sequences.
pub open spec fn attributes_of(r: Response) -> Seq<(Seq<char>, Seq<char>)> {
    r.attributes@.map_values(|a: Attribute| (a.key@, a.value@))
}

impl Response {
    /// A response without attributes.
    pub fn new() -> (r: Response)
        ensures
            attributes_of(r) == Seq::<(Seq<char>, Seq<char>)>::empty(),
    {
        let r = Response { attributes: Vec::new() };
        assert(attributes_of(r) =~= Seq::<(Seq<char>, Seq<char>)>::empty());
        r
    }

    /// The response with one more attribute at the end.
    pub fn add_attribute(self, key: &str, value: String) -> (r: Response)
        ensures
            attributes_of(r) == attributes_of(self).push((key@, value@)),
    {
        let ghost before = attributes_of(self);
        let mut attributes = self.attributes;
        attributes.push(Attribute { key: key.to_owned(), value });
        let r = Response { attributes };
        assert(attributes_of(r) =~= before.push((key@, value@)));
        r
    }
}

} // verus!
