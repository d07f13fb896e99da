use syntax::nodes::object_type_extension::ObjectTypeExtensionNode;
use syntax::nodes::{
    DirectiveNode, FieldDefinitionNode, NameNode, NamedTypeNode, ObjectTypeDefinitionNode, TypeNode,
};
use syntax::validation::{
    contains_any_element, validate_extension_fields_against_original, NodeWithFields,
    ValidExtensionNode, ValidNode,
};

fn field(name: &str, named: &str) -> FieldDefinitionNode {
    FieldDefinitionNode {
        name: NameNode::from(name),
        description: None,
        arguments: None,
        field_type: TypeNode::Named(NamedTypeNode::from(named)),
    }
}

fn object(fields: Vec<FieldDefinitionNode>) -> ObjectTypeDefinitionNode {
    ObjectTypeDefinitionNode {
        name: NameNode::from("Obj"),
        description: None,
        directives: None,
        interfaces: None,
        fields,
    }
}

fn extension(fields: Option<Vec<FieldDefinitionNode>>) -> ObjectTypeExtensionNode {
    ObjectTypeExtensionNode {
        name: NameNode::from("Obj"),
        description: None,
        directives: None,
        interfaces: None,
        fields,
    }
}

#[test]
fn contains_any_element_fn() {
    assert!(!contains_any_element(&[1], &[2]));
    assert!(contains_any_element(&[1, 2], &[2]));
    assert!(contains_any_element(&[1], &[1, 2]));
}

#[test]
fn contains_any_element_of_nothing() {
    let none: [i32; 0] = [];
    assert!(!contains_any_element(&none, &[1, 2]));
    assert!(!contains_any_element(&[1, 2], &none));
    assert!(contains_any_element(&[true, false], &[false]));
}

#[test]
fn object_extenstion_validates() {
    let mut extension = ObjectTypeExtensionNode {
        name: NameNode::from("SomeObj"),
        description: None,
        directives: None,
        interfaces: None,
        fields: None,
    };
    assert!(extension.validate().is_err());
    extension.with_directives(Some(vec![DirectiveNode {
        arguments: None,
        name: NameNode::from("someDirective"),
    }]));
    assert!(extension.validate().is_ok());
    extension.with_directives(None);
    extension.with_interfaces(Some(vec![NamedTypeNode::from("SomeInterface")]));
    assert!(extension.validate().is_ok());

    extension.with_interfaces(None);
    extension.with_fields(vec![FieldDefinitionNode {
        arguments: None,
        description: None,
        name: NameNode::from("someField"),
        field_type: TypeNode::Named(NamedTypeNode::from("String")),
    }]);
    assert!(extension.validate().is_ok());
}

#[test]
fn object_extension_validates_against_original() {
    let extension = ObjectTypeExtensionNode {
        name: NameNode::from("Obj"),
        description: None,
        directives: Some(vec![DirectiveNode {
            name: NameNode::from("depricated"),
            arguments: None,
        }]),
        interfaces: Some(vec![NamedTypeNode::from("Timestamped")]),
        fields: Some(vec![FieldDefinitionNode {
            name: NameNode::from("someField"),
            description: None,
            arguments: None,
            field_type: TypeNode::Named(NamedTypeNode::from("String")),
        }]),
    };

    println!("Validating against None");
    assert!(extension.validate_extension(None).is_err());

    let mut object = ObjectTypeDefinitionNode {
        name: NameNode::from("Obj"),
        description: None,
        directives: None,
        interfaces: None,
        fields: vec![FieldDefinitionNode {
            name: NameNode::from("initial"),
            description: None,
            arguments: None,
            field_type: TypeNode::Named(NamedTypeNode::from("Int")),
        }],
    };
    println!("Validating against object with NO overlap");
    assert!(extension.validate_extension(Some(&object)).is_ok());

    object.with_fields(vec![FieldDefinitionNode {
        name: NameNode::from("someField"),
        description: None,
        arguments: None,
        field_type: TypeNode::Named(NamedTypeNode::from("String")),
    }]);
    let res = extension.validate_extension(Some(&object));
    assert!(res.is_err());
    assert!(res.unwrap_err().message.contains("someField"));
}

#[test]
fn extension_conflicts_by_name_whatever_the_type() {
    let original = object(vec![field("foo", "Int")]);
    let redefining = extension(Some(vec![field("foo", "String")]));
    let res = redefining.validate_extension(Some(&original));
    assert!(res.is_err());
    let message = res.unwrap_err().message;
    assert!(message.contains("foo"));
    assert_eq!(message, "Invalid Extension: Cannot redefine field(s) foo");

    let disjoint = extension(Some(vec![field("bar", "String")]));
    assert!(disjoint.validate_extension(Some(&original)).is_ok());
}

#[test]
fn extension_names_every_conflict_in_its_own_order() {
    let original = object(vec![field("a", "Int"), field("b", "Int"), field("c", "Int")]);
    let redefining = extension(Some(vec![
        field("c", "Int"),
        field("x", "Int"),
        field("a", "String"),
        field("c", "Int"),
    ]));
    let res = validate_extension_fields_against_original(&redefining, &original);
    assert_eq!(
        res.unwrap_err().message,
        "Invalid Extension: Cannot redefine field(s) c, a, c"
    );
}

#[test]
fn extension_without_original_has_no_root() {
    let lonely = extension(None);
    let res = lonely.validate_extension(None);
    assert_eq!(res.unwrap_err().message, "Invalid Extension: No root element");
}

#[test]
fn extension_without_fields_conflicts_with_nothing() {
    let original = object(vec![field("a", "Int")]);
    assert!(extension(None).validate_extension(Some(&original)).is_ok());
    assert!(extension(Some(vec![])).validate_extension(Some(&original)).is_ok());
    assert_eq!(extension(None).get_fields().len(), 0);
    assert_eq!(original.get_fields().len(), 1);
}

#[test]
fn empty_extension_says_what_it_lacks() {
    let res = extension(None).validate();
    assert_eq!(
        res.unwrap_err().message,
        "Object Extension must have at least one of the following: Directive, Interface, or Field"
    );
    assert!(extension(Some(vec![])).validate().is_ok());
}
