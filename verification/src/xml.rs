//! A plain-data picture of one XML element, as the entry-parsing loop hands
//! it to a namespace handler: its namespace and local tag, its attributes in
//! document order, and its collapsed child text.

use vstd::prelude::*;
use crate::model::opt_str_view;

verus! {

/// The XML namespaces the parser distinguishes. An element of any other
/// vocabulary reaches a handler only to be ignored.
#[derive(Debug, PartialEq, Eq, Structural, Clone, Copy)]
pub enum NS {
    /// The core feed vocabulary.
    Atom,
    /// The arXiv extension vocabulary handled here.
    Arxiv,
    /// A namespace the parser does not recognize.
    Unknown,
}

/// One attribute of an element.
#[derive(Debug, PartialEq, Eq, Clone)]
pub struct Attribute {
    pub name: String,
    pub value: String,
}

/// Spec-level value of an `Attribute`.
pub struct AttributeView {
    pub name: Seq<char>,
    pub value: Seq<char>,
}

impl View for Attribute {
    type V = AttributeView;

    open spec fn view(&self) -> AttributeView {
        AttributeView { name: self.name@, value: self.value@ }
    }
}

/// One XML element: ephemeral, consumed by exactly one handler dispatch.
#[derive(Debug, PartialEq, Eq, Clone)]
pub struct Element {
    pub ns: NS,
    pub tag: String,
    /// The attributes in document order.
    pub attributes: Vec<Attribute>,
    /// The descendant text nodes collapsed into one string, if any.
    pub child_text: Option<String>,
}

/// Spec-level value of an `Element`.
pub struct ElementView {
    pub ns: NS,
    pub tag: Seq<char>,
    pub attributes: Seq<AttributeView>,
    pub child_text: Option<Seq<char>>,
}

impl View for Element {
    type V = ElementView;

    open spec fn view(&self) -> ElementView {
        ElementView {
            ns: self.ns,
            tag: self.tag@,
            attributes: self.attributes@.map_values(|a: Attribute| a@),
            child_text: opt_str_view(self.child_text),
        }
    }
}

/// The value of the first attribute named `name`, if any: what a lookup by
/// name returns.
pub open spec fn first_attr(attrs: Seq<AttributeView>, name: Seq<char>) -> Option<Seq<char>>
    decreases attrs.len(),
{
    if attrs.len() == 0 {
        None
    } else if attrs.first().name == name {
        Some(attrs.first().value)
    } else {
        first_attr(attrs.drop_first(), name)
    }
}

/// The value of the last attribute named `name`, if any: what is left by a
/// scan that assigns every occurrence in document order.
pub open spec fn last_attr(attrs: Seq<AttributeView>, name: Seq<char>) -> Option<Seq<char>>
    decreases attrs.len(),
{
    if attrs.len() == 0 {
        None
    } else if attrs.last().name == name {
        Some(attrs.last().value)
    } else {
        last_attr(attrs.drop_last(), name)
    }
}

/// No attribute in `attrs` is named `name`.
pub open spec fn attr_absent(attrs: Seq<AttributeView>, name: Seq<char>) -> bool {
    forall|j: int| 0 <= j < attrs.len() ==> attrs[j].name != name
}

/// `name` occurs in `attrs` exactly once, at position `i`.
pub open spec fn attr_only_at(attrs: Seq<AttributeView>, name: Seq<char>, i: int) -> bool {
    &&& 0 <= i < attrs.len()
    &&& attrs[i].name == name
    &&& forall|j: int| 0 <= j < attrs.len() && j != i ==> attrs[j].name != name
}

/// An absent attribute is found neither by a first-occurrence lookup nor by
/// a full scan.
pub proof fn lemma_attr_absent(attrs: Seq<AttributeView>, name: Seq<char>)
    requires
        attr_absent(attrs, name),
    ensures
        first_attr(attrs, name) is None,
        last_attr(attrs, name) is None,
    decreases attrs.len(),
{
    if attrs.len() > 0 {
        assert forall|j: int| 0 <= j < attrs.drop_first().len() implies attrs.drop_first()[j].name
            != name by {
            assert(attrs.drop_first()[j] == attrs[j + 1]);
        }
        assert forall|j: int| 0 <= j < attrs.drop_last().len() implies attrs.drop_last()[j].name
            != name by {
            assert(attrs.drop_last()[j] == attrs[j]);
        }
        lemma_attr_absent(attrs.drop_first(), name);
        lemma_attr_absent(attrs.drop_last(), name);
    }
}

/// An attribute that occurs exactly once is found with that one value, by a
/// first-occurrence lookup and by a full scan alike, wherever in the list
/// it stands.
pub proof fn lemma_attr_only_at(attrs: Seq<AttributeView>, name: Seq<char>, i: int)
    requires
        attr_only_at(attrs, name, i),
    ensures
        first_attr(attrs, name) == Some(attrs[i].value),
        last_attr(attrs, name) == Some(attrs[i].value),
    decreases attrs.len(),
{
    if i > 0 {
        assert forall|j: int| 0 <= j < attrs.drop_first().len() && j != i - 1 implies attrs
            .drop_first()[j].name != name by {
            assert(attrs.drop_first()[j] == attrs[j + 1]);
        }
        assert(attrs.drop_first()[i - 1] == attrs[i]);
        lemma_attr_only_at(attrs.drop_first(), name, i - 1);
    }
    if i < attrs.len() - 1 {
        assert forall|j: int| 0 <= j < attrs.drop_last().len() && j != i implies attrs.drop_last()[
            j].name != name by {
            assert(attrs.drop_last()[j] == attrs[j]);
        }
        assert(attrs.drop_last()[i] == attrs[i]);
        lemma_attr_only_at(attrs.drop_last(), name, i);
    }
}

/// Whether two string slices hold the same characters.
pub(crate) fn str_eq(a: &str, b: &str) -> (r: bool)
    ensures
        r == (a@ == b@),
{
    let s1: String = a.to_owned();
    let s2: String = b.to_owned();
    s1 == s2
}

impl Element {
    /// The element's namespace and local tag, the identity dispatch goes by.
    pub fn ns_and_tag(&self) -> (r: (NS, &str))
        ensures
            r.0 == self@.ns,
            r.1@ == self@.tag,
    {
        (self.ns, self.tag.as_str())
    }

    /// The value of the first attribute with the given name, if any.
    pub fn attr_value(&self, name: &str) -> (r: Option<String>)
        ensures
            opt_str_view(r) == first_attr(self@.attributes, name@),
    {
        let ghost attrs = self@.attributes;
        let n: usize = self.attributes.len();
        let mut i: usize = 0;
        proof {
            assert(attrs.skip(0) =~= attrs);
        }
        while i < n
            invariant
                n == self.attributes.len(),
                attrs == self@.attributes,
                i <= n,
                first_attr(attrs, name@) == first_attr(attrs.skip(i as int), name@),
            decreases n - i,
        {
            let a = &self.attributes[i];
            proof {
                assert(attrs[i as int] == a@);
                assert(attrs.skip(i as int).first() == attrs[i as int]);
                assert(attrs.skip(i as int).drop_first() =~= attrs.skip(i as int + 1));
            }
            if str_eq(a.name.as_str(), name) {
                return Some(a.value.clone());
            }
            i += 1;
        }
        proof {
            assert(attrs.skip(n as int) =~= Seq::<AttributeView>::empty());
        }
        None
    }

    /// The collapsed text of the element's descendants, if there is any.
    pub fn child_as_text(&self) -> (r: Option<String>)
        ensures
            opt_str_view(r) == self@.child_text,
    {
        match &self.child_text {
            Some(t) => Some(t.clone()),
            None => None,
        }
    }
}

} // verus!
