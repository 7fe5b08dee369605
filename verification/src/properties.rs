//! Metadata properties and descriptions of subjects.
use vstd::prelude::*;
use crate::Uuid;

verus! {

/// A single property (key:value pair). The key, data and type are the bytes of the C
/// strings, without the nul terminator.
#[derive(Debug, Clone)]
pub struct Property {
    key: Vec<u8>,
    data: Vec<u8>,
    type_: Option<Vec<u8>>,
}

impl Property {
    /// The key of the property.
    pub closed spec fn spec_key(&self) -> Seq<u8> {
        self.key@
    }

    /// The value of the property.
    pub closed spec fn spec_data(&self) -> Seq<u8> {
        self.data@
    }

    /// The type of the property, if it has one.
    pub closed spec fn spec_type(&self) -> Option<Seq<u8>> {
        match self.type_ {
            Some(t) => Some(t@),
            None => None,
        }
    }

    /// A property with the given key, value and type.
    pub fn new(key: Vec<u8>, data: Vec<u8>, type_: Option<Vec<u8>>) -> (r: Property)
        ensures
            r.spec_key() == key@,
            r.spec_data() == data@,
            r.spec_type() == (match type_ {
                Some(t) => Some(t@),
                None => None::<Seq<u8>>,
            }),
    {
        Property { key, data, type_ }
    }

    /// Returns the key of this property (URI string).
    pub fn key(&self) -> (r: &[u8])
        ensures
            r@ == self.spec_key(),
    {
        self.key.as_slice()
    }

    /// Returns the property value.
    pub fn data(&self) -> (r: &[u8])
        ensures
            r@ == self.spec_data(),
    {
        self.data.as_slice()
    }

    /// Returns the type of property data, either a MIME type or URI; `None` when the
    /// property has no type.
    pub fn type_(&self) -> (r: Option<&[u8]>)
        ensures
            match self.spec_type() {
                Some(t) => r matches Some(s) && s@ == t,
                None => r is None,
            },
    {
        match &self.type_ {
            Some(t) => Some(t.as_slice()),
            None => None,
        }
    }
}

/// A description of a subject (a set of properties).
#[derive(Debug, Clone)]
pub struct PropertyDescription {
    subject: Uuid,
    properties: Vec<Property>,
}

impl PropertyDescription {
    /// The subject described.
    pub closed spec fn spec_subject(&self) -> Uuid {
        self.subject
    }

    /// The properties of the subject.
    pub closed spec fn spec_properties(&self) -> Seq<Property> {
        self.properties@
    }

    /// A description of `subject` holding `properties`.
    pub fn new(subject: Uuid, properties: Vec<Property>) -> (r: PropertyDescription)
        ensures
            r.spec_subject() == subject,
            r.spec_properties() == properties@,
    {
        PropertyDescription { subject, properties }
    }

    /// Returns the current subject of this property list.
    pub fn subject(&self) -> (r: Uuid)
        ensures
            r == self.spec_subject(),
    {
        self.subject
    }

    /// Returns the properties of the subject.
    pub fn properties(&self) -> (r: &[Property])
        ensures
            r@ == self.spec_properties(),
    {
        self.properties.as_slice()
    }
}

/// A list of property descriptions.
#[derive(Debug, Clone)]
pub struct PropertyDescriptionList {
    descriptions: Vec<PropertyDescription>,
}

impl PropertyDescriptionList {
    /// The descriptions in the list.
    pub closed spec fn spec_descriptions(&self) -> Seq<PropertyDescription> {
        self.descriptions@
    }

    /// A list holding `descriptions`.
    pub fn new(descriptions: Vec<PropertyDescription>) -> (r: PropertyDescriptionList)
        ensures
            r.spec_descriptions() == descriptions@,
    {
        PropertyDescriptionList { descriptions }
    }

    /// Returns the descriptions.
    pub fn descriptions(&self) -> (r: &[PropertyDescription])
        ensures
            r@ == self.spec_descriptions(),
    {
        self.descriptions.as_slice()
    }
}

} // verus!
