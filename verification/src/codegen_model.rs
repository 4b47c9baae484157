//! The Smithy model as the code generator reads it: shapes by ID, with the
//! members and traits they carry.  Maps are (key, value) pairs in the order
//! the model gave them; a trait keeps its value when that value is a string.

use vstd::prelude::*;
use crate::seqs::{first_index, lemma_first_index_is};
use crate::text::str_eq;

verus! {

/// A reference to another shape.
#[derive(Debug, Clone)]
pub struct ShapeRef {
    /// The full shape ID being referenced.
    pub target: String,
}

/// A shape with only traits.
#[derive(Debug, Default)]
pub struct SimpleShape {
    /// The traits: name, and the value when it is a string.
    pub traits: Vec<(String, Option<String>)>,
}

/// A member of a structure, union or enum.
#[derive(Debug)]
pub struct MemberShape {
    /// The target shape ID.
    pub target: String,
    /// The traits: name, and the value when it is a string.
    pub traits: Vec<(String, Option<String>)>,
}

/// A structure shape.
#[derive(Debug)]
pub struct StructureShape {
    /// The members, by name.
    pub members: Vec<(String, MemberShape)>,
    /// The traits: name, and the value when it is a string.
    pub traits: Vec<(String, Option<String>)>,
}

/// An operation shape.
#[derive(Debug)]
pub struct OperationShape {
    /// The input shape, if any.
    pub input: Option<ShapeRef>,
    /// The output shape, if any.
    pub output: Option<ShapeRef>,
    /// The traits: name, and the value when it is a string.
    pub traits: Vec<(String, Option<String>)>,
}

/// An enum shape.
#[derive(Debug)]
pub struct EnumShape {
    /// The members, by name.
    pub members: Vec<(String, MemberShape)>,
    /// The traits: name, and the value when it is a string.
    pub traits: Vec<(String, Option<String>)>,
}

/// A list shape.
#[derive(Debug)]
pub struct ListShape {
    /// The member type.
    pub member: ShapeRef,
    /// The traits: name, and the value when it is a string.
    pub traits: Vec<(String, Option<String>)>,
}

/// A map shape.
#[derive(Debug)]
pub struct MapShape {
    /// The key type.
    pub key: ShapeRef,
    /// The value type.
    pub value: ShapeRef,
    /// The traits: name, and the value when it is a string.
    pub traits: Vec<(String, Option<String>)>,
}

/// A union shape.
#[derive(Debug)]
pub struct UnionShape {
    /// The members, by name.
    pub members: Vec<(String, MemberShape)>,
    /// The traits: name, and the value when it is a string.
    pub traits: Vec<(String, Option<String>)>,
}

/// A Smithy shape (the `map` kind is `Mapping`).
#[derive(Debug)]
pub enum Shape {
    Structure(StructureShape),
    Operation(OperationShape),
    String(SimpleShape),
    Boolean(SimpleShape),
    Integer(SimpleShape),
    Long(SimpleShape),
    Timestamp(SimpleShape),
    Blob(SimpleShape),
    Enum(EnumShape),
    List(ListShape),
    Mapping(MapShape),
    Union(UnionShape),
    Service(SimpleShape),
    Resource(SimpleShape),
    IntEnum(SimpleShape),
    Double(SimpleShape),
    Float(SimpleShape),
}

/// A Smithy JSON AST model.
#[derive(Debug)]
pub struct SmithyModel {
    /// The Smithy version.
    pub smithy: String,
    /// The shapes, by shape ID.
    pub shapes: Vec<(String, Shape)>,
}

/// Selects the entries with key `k`.
pub open spec fn key_is<V>(k: Seq<char>) -> spec_fn((String, V)) -> bool {
    |e: (String, V)| e.0@ == k
}

/// The value of the first entry with key `k`, if any.
pub open spec fn lookup<V>(entries: Seq<(String, V)>, k: Seq<char>) -> Option<V> {
    let i = first_index(entries, key_is::<V>(k)) as int;
    if i < entries.len() {
        Some(entries[i].1)
    } else {
        None
    }
}

/// The index of the first entry with key `k`, or the length when none has it.
pub fn find_key<V>(entries: &Vec<(String, V)>, k: &str) -> (r: usize)
    ensures
        r == first_index(entries@, key_is::<V>(k@)),
        r <= entries@.len(),
{
    let ghost pred = key_is::<V>(k@);
    let mut i: usize = 0;
    while i < entries.len() && !str_eq(entries[i].0.as_str(), k)
        invariant
            i <= entries.len(),
            pred == key_is::<V>(k@),
            forall|q: int| 0 <= q < i ==> !pred(#[trigger] entries@[q]),
        decreases entries.len() - i,
    {
        i = i + 1;
    }
    proof {
        lemma_first_index_is(entries@, pred, i as int);
    }
    i
}

/// Whether the traits include `name`.
pub open spec fn has_trait(traits: Seq<(String, Option<String>)>, name: Seq<char>) -> bool {
    lookup(traits, name) is Some
}

/// The string value of trait `name`, when it is present with a string value.
pub open spec fn trait_text(traits: Seq<(String, Option<String>)>, name: Seq<char>) -> Option<Seq<char>> {
    match lookup(traits, name) {
        Some(Some(s)) => Some(s@),
        _ => None,
    }
}

/// Whether the traits include `name`.
pub fn trait_present(traits: &Vec<(String, Option<String>)>, name: &str) -> (r: bool)
    ensures
        r == has_trait(traits@, name@),
{
    find_key(traits, name) < traits.len()
}

/// The string value of trait `name`, when it is present with a string value.
pub fn trait_string<'a>(traits: &'a Vec<(String, Option<String>)>, name: &str) -> (r: Option<&'a String>)
    ensures
        match r {
            Some(s) => trait_text(traits@, name@) == Some(s@),
            None => trait_text(traits@, name@) is None,
        },
{
    let i = find_key(traits, name);
    if i < traits.len() {
        match &traits[i].1 {
            Some(s) => Some(s),
            None => None,
        }
    } else {
        None
    }
}

impl SmithyModel {
    /// The shape with the given ID, if any.
    pub open spec fn shape(&self, id: Seq<char>) -> Option<Shape> {
        lookup(self.shapes@, id)
    }

    /// The shape with the given ID, if any.
    pub fn get_shape(&self, id: &str) -> (r: Option<&Shape>)
        ensures
            match r {
                Some(s) => self.shape(id@) == Some(*s),
                None => self.shape(id@) is None,
            },
    {
        let i = find_key(&self.shapes, id);
        if i < self.shapes.len() {
            Some(&self.shapes[i].1)
        } else {
            None
        }
    }
}

} // verus!
