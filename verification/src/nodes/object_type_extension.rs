//! The extension of an object type.

use crate::error::{ParseErrorView, ParseResult, result_view};
use crate::nodes::{
    Description, Directives, DirectiveView, FieldDefinitionNode, FieldDefinitionView, NameNode,
    NamedTypeNode, StringValueView, name_of,
};
use crate::error::ValidationError;
use crate::nodes::ObjectTypeDefinitionNode;
use crate::token::{Token, TokenView};
use crate::validation::{
    NodeWithFields, ValidExtensionNode, ValidNode, ValidationResult, conflicting_names, names_of,
    redefinition_message, validate_extension_fields_against_original,
};
use vstd::prelude::*;

verus! {

/// An extension of an object type: `extend type Name ..`. Each of its parts
/// may be missing; an extension without a block of fields has no fields,
/// which differs from an empty block.
#[derive(Debug, PartialEq)]
pub struct ObjectTypeExtensionNode {
    pub description: Description,
    pub name: NameNode,
    pub interfaces: Option<Vec<NamedTypeNode>>,
    pub directives: Option<Directives>,
    pub fields: Option<Vec<FieldDefinitionNode>>,
}

/// An [`ObjectTypeExtensionNode`] as a mathematical value.
pub struct ObjectTypeExtensionView {
    pub description: Option<StringValueView>,
    pub name: Seq<char>,
    pub interfaces: Option<Seq<Seq<char>>>,
    pub directives: Option<Seq<DirectiveView>>,
    pub fields: Option<Seq<FieldDefinitionView>>,
}

impl DeepView for ObjectTypeExtensionNode {
    type V = ObjectTypeExtensionView;

    open spec fn deep_view(&self) -> ObjectTypeExtensionView {
        ObjectTypeExtensionView {
            description: self.description.deep_view(),
            name: self.name.deep_view(),
            interfaces: self.interfaces.deep_view(),
            directives: self.directives.deep_view(),
            fields: self.fields.deep_view(),
        }
    }
}

/// The extension, without interfaces, directives and fields, that a name
/// token makes.
pub open spec fn extension_of(name: TokenView, description: Option<StringValueView>) -> Result<
    ObjectTypeExtensionView,
    ParseErrorView,
> {
    match name_of(name) {
        Ok(n) => Ok(
            ObjectTypeExtensionView {
                description,
                name: n,
                interfaces: None,
                directives: None,
                fields: None,
            },
        ),
        Err(e) => Err(e),
    }
}

impl ObjectTypeExtensionNode {
    /// An extension that has no interfaces, directives or fields yet.
    pub fn new(tok: Token, description: Description) -> (r: ParseResult<ObjectTypeExtensionNode>)
        ensures
            result_view(r) == extension_of(tok@, description.deep_view()),
    {
        match NameNode::new(tok) {
            Ok(name) => Ok(
                ObjectTypeExtensionNode {
                    description,
                    name,
                    interfaces: None,
                    directives: None,
                    fields: None,
                },
            ),
            Err(e) => Err(e),
        }
    }

    /// Sets the interfaces.
    pub fn with_interfaces(&mut self, interfaces: Option<Vec<NamedTypeNode>>) -> (r: &mut Self)
        ensures
            r.deep_view() == (ObjectTypeExtensionView {
                interfaces: interfaces.deep_view(),
                ..old(self).deep_view()
            }),
            *final(self) == *final(r),
    {
        self.interfaces = interfaces;
        self
    }

    /// Sets the directives.
    pub fn with_directives(&mut self, directives: Option<Directives>) -> (r: &mut Self)
        ensures
            r.deep_view() == (ObjectTypeExtensionView {
                directives: directives.deep_view(),
                ..old(self).deep_view()
            }),
            *final(self) == *final(r),
    {
        self.directives = directives;
        self
    }

    /// Sets the fields.
    pub fn with_fields(&mut self, fields: Vec<FieldDefinitionNode>) -> (r: &mut Self)
        ensures
            r.deep_view() == (ObjectTypeExtensionView {
                fields: Some(fields.deep_view()),
                ..old(self).deep_view()
            }),
            r.fields == Some(fields),
            *final(self) == *final(r),
    {
        self.fields = Some(fields);
        self
    }
}

impl NodeWithFields for ObjectTypeDefinitionNode {
    open spec fn spec_fields(&self) -> Seq<FieldDefinitionNode> {
        self.fields@
    }

    fn get_fields(&self) -> (r: &[FieldDefinitionNode]) {
        self.fields.as_slice()
    }
}

impl NodeWithFields for ObjectTypeExtensionNode {
    open spec fn spec_fields(&self) -> Seq<FieldDefinitionNode> {
        match self.fields {
            Some(fields) => fields@,
            None => Seq::empty(),
        }
    }

    fn get_fields(&self) -> (r: &[FieldDefinitionNode]) {
        if let Some(fields) = &self.fields {
            fields.as_slice()
        } else {
            let none: &[FieldDefinitionNode] = &[];
            assert(none@ =~= Seq::empty());
            none
        }
    }
}

impl ValidNode for ObjectTypeExtensionNode {
    /// An extension is valid when it has directives, interfaces or fields.
    open spec fn is_valid(&self) -> bool {
        self.directives is Some || self.interfaces is Some || self.fields is Some
    }

    fn validate(&self) -> (r: ValidationResult)
        ensures
            r matches Err(e) ==> e.message@
                == "Object Extension must have at least one of the following: Directive, Interface, or Field"@,
    {
        if !(self.directives.is_none() && self.interfaces.is_none() && self.fields.is_none()) {
            Ok(())
        } else {
            Err(
                ValidationError::new(
                    "Object Extension must have at least one of the following: Directive, Interface, or Field",
                ),
            )
        }
    }
}

impl ValidExtensionNode<ObjectTypeDefinitionNode> for ObjectTypeExtensionNode {
    /// An extension fits an object type when none of its fields has the
    /// name of a field of the object type.
    open spec fn extends(&self, original: &ObjectTypeDefinitionNode) -> bool {
        conflicting_names(names_of(self.spec_fields()), names_of(original.spec_fields())).len()
            == 0
    }

    fn validate_extension(&self, original: Option<&ObjectTypeDefinitionNode>) -> (r:
        ValidationResult)
        ensures
            r matches Err(e) ==> e.message@ == match original {
                Some(obj) => redefinition_message(
                    conflicting_names(names_of(self.spec_fields()), names_of(obj.spec_fields())),
                ),
                None => "Invalid Extension: No root element"@,
            },
    {
        if let Some(obj) = original {
            validate_extension_fields_against_original(self, obj)
        } else {
            Err(ValidationError::new("Invalid Extension: No root element"))
        }
    }
}

} // verus!
