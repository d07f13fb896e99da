use std::rc::Rc;
use syntax::document::Document;
use syntax::error::{LexError, ParseError};
use syntax::nodes::object_type_extension::ObjectTypeExtensionNode;
use syntax::nodes::{
    Argument, BooleanValueNode, DefinitionNode, DirectiveNode, EnumTypeDefinitionNode,
    EnumValueDefinitionNode, ExecutableDefinitionNode, FieldDefinitionNode, FieldNode,
    InputTypeDefinitionNode, InputValueDefinitionNode, IntValueNode, InterfaceTypeDefinitionNode,
    ListTypeNode, NameNode, NamedTypeNode, ObjectTypeDefinitionNode, OperationTypeNode,
    QueryDefinitionNode, ScalarTypeDefinitionNode, SchemaDefinitionNode, Selection,
    StringValueNode, TypeDefinitionNode, TypeNode, TypeSystemDefinitionNode,
    TypeSystemExtensionNode, UnionTypeDefinitionNode, ValueNode,
};
use syntax::token::{Location, Token};
use syntax::{handle_database_request, parse};

#[test]
fn it_handles_empty_document() {
    println!("parsing error");
    let res = parse("");
    assert!(res.is_err());
    assert_eq!(res.unwrap_err(), ParseError::DocumentEmpty);
}

#[test]
fn parses_object() {
    println!("parsing an object");
    let input = r#"type Obj {
  name: String
  id:   Int!
  strs: [String]
  refIds: [Int!]!
  someIds: [Int]!
  arg(arg1: Int = 42, arg2: Bool!): Bool
}"#;
    let res = parse(input);
    println!("res: {:?}", res);
    assert!(res.is_ok());
    assert_eq!(
        res.unwrap(),
        Document {
            definitions: vec![DefinitionNode::TypeSystem(TypeSystemDefinitionNode::Type(
                TypeDefinitionNode::Object(ObjectTypeDefinitionNode {
                    description: None,
                    name: NameNode::from("Obj"),
                    interfaces: None,
                    directives: None,
                    fields: vec![
                        FieldDefinitionNode {
                            description: None,
                            name: NameNode::from("name"),
                            arguments: None,
                            field_type: TypeNode::Named(NamedTypeNode {
                                name: NameNode::from("String"),
                            })
                        },
                        FieldDefinitionNode {
                            description: None,
                            name: NameNode::from("id"),
                            arguments: None,
                            field_type: TypeNode::NonNull(Rc::new(TypeNode::Named(
                                NamedTypeNode {
                                    name: NameNode::from("Int")
                                }
                            )))
                        },
                        FieldDefinitionNode {
                            description: None,
                            name: NameNode::from("strs"),
                            arguments: None,
                            field_type: TypeNode::List(ListTypeNode {
                                list_type: Rc::new(TypeNode::Named(NamedTypeNode {
                                    name: NameNode::from("String")
                                }))
                            })
                        },
                        FieldDefinitionNode {
                            description: None,
                            name: NameNode::from("refIds"),
                            arguments: None,
                            field_type: TypeNode::NonNull(Rc::new(TypeNode::List(
                                ListTypeNode::new(TypeNode::NonNull(Rc::new(TypeNode::Named(
                                    NamedTypeNode {
                                        name: NameNode::from("Int")
                                    }
                                ))))
                            )))
                        },
                        FieldDefinitionNode {
                            description: None,
                            name: NameNode::from("someIds"),
                            arguments: None,
                            field_type: TypeNode::NonNull(Rc::new(TypeNode::List(
                                ListTypeNode::new(TypeNode::Named(NamedTypeNode {
                                    name: NameNode::from("Int")
                                }))
                            )))
                        },
                        FieldDefinitionNode {
                            description: None,
                            name: NameNode::from("arg"),
                            arguments: Some(vec![
                                InputValueDefinitionNode {
                                    description: None,
                                    name: NameNode::from("arg1"),
                                    input_type: TypeNode::Named(NamedTypeNode {
                                        name: NameNode::from("Int")
                                    }),
                                    default_value: Some(ValueNode::Int(IntValueNode {
                                        value: 42
                                    })),
                                    directives: None,
                                },
                                InputValueDefinitionNode {
                                    description: None,
                                    name: NameNode::from("arg2"),
                                    input_type: TypeNode::NonNull(Rc::new(TypeNode::Named(
                                        NamedTypeNode {
                                            name: NameNode::from("Bool")
                                        }
                                    ))),
                                    default_value: None,
                                    directives: None,
                                },
                            ]),
                            field_type: TypeNode::Named(NamedTypeNode {
                                name: NameNode::from("Bool")
                            })
                        },
                    ],
                })
            ))]
        }
    )
}

#[test]
fn parses_documentation() {
    println!("parsing documentation");
    let input = r#"
"""
This is a generic object comment
They can be multiple lines
"""
type Obj {
  """This is the name of the object"""
  name: String
}"#;
    let res = parse(input);
    assert!(res.is_ok());
    assert_eq!(
        res.unwrap(),
        Document {
            definitions: vec![DefinitionNode::TypeSystem(TypeSystemDefinitionNode::Type(
                TypeDefinitionNode::Object(ObjectTypeDefinitionNode {
                    description: Some(
                        StringValueNode::new(Token::BlockStr(
                            Location::ignored(),
                            "\nThis is a generic object comment\nThey can be multiple lines\n"
                        ))
                        .unwrap()
                    ),
                    name: NameNode {
                        value: String::from("Obj")
                    },
                    interfaces: None,
                    directives: None,
                    fields: vec![FieldDefinitionNode {
                        description: Some(
                            StringValueNode::new(Token::BlockStr(
                            Location::ignored(),
                            "This is the name of the object"
                            ))
                            .unwrap()
                        ),
                        name: NameNode {
                            value: String::from("name")
                        },
                        arguments: None,
                        field_type: TypeNode::Named(NamedTypeNode {
                            name: NameNode {
                                value: String::from("String")
                            }
                        })
                    },],
                })
            ))]
        }
    );
}

#[test]
fn it_handles_enums() {
    println!("parsing enums");
    let res = parse(
        r#"enum VEHICLE_TYPE {
  SEDAN
  SUV
  COMPACT
  TRUCK
  HYBRID
}
"#,
    );
    assert!(res.is_ok());
    assert_eq!(
        res.unwrap(),
        Document {
            definitions: vec![DefinitionNode::TypeSystem(TypeSystemDefinitionNode::Type(
                TypeDefinitionNode::Enum(EnumTypeDefinitionNode {
                    description: None,
                    name: NameNode {
                        value: String::from("VEHICLE_TYPE")
                    },
                    directives: None,
                    values: vec![
                        EnumValueDefinitionNode {
                            description: None,
                            name: NameNode {
                                value: String::from("SEDAN")
                            },
                            directives: None,
                        },
                        EnumValueDefinitionNode {
                            description: None,
                            name: NameNode {
                                value: String::from("SUV")
                            },
                            directives: None,
                        },
                        EnumValueDefinitionNode {
                            description: None,
                            name: NameNode {
                                value: String::from("COMPACT")
                            },
                            directives: None,
                        },
                        EnumValueDefinitionNode {
                            description: None,
                            name: NameNode {
                                value: String::from("TRUCK")
                            },
                            directives: None,
                        },
                        EnumValueDefinitionNode {
                            description: None,
                            name: NameNode {
                                value: String::from("HYBRID")
                            },
                            directives: None,
                        },
                    ]
                })
            ))]
        }
    );
}

#[test]
fn parses_union() {
    let res = parse(
        r#"union SearchResult = Photo | Person
union Pic =
  | Gif
  | Jpeg
  | Png
  | Svg
"#,
    );
    assert!(res.is_ok());
    assert_eq!(
        res.unwrap(),
        Document {
            definitions: vec![
                DefinitionNode::TypeSystem(TypeSystemDefinitionNode::Type(
                    TypeDefinitionNode::Union(UnionTypeDefinitionNode {
                        description: None,
                        name: NameNode::from("SearchResult"),
                        directives: None,
                        types: vec![
                            NamedTypeNode::from("Photo"),
                            NamedTypeNode::from("Person"),
                        ]
                    })
                )),
                DefinitionNode::TypeSystem(TypeSystemDefinitionNode::Type(
                    TypeDefinitionNode::Union(UnionTypeDefinitionNode {
                        description: None,
                        name: NameNode::from("Pic"),
                        directives: None,
                        types: vec![
                            NamedTypeNode::from("Gif"),
                            NamedTypeNode::from("Jpeg"),
                            NamedTypeNode::from("Png"),
                            NamedTypeNode::from("Svg"),
                        ]
                    })
                )),
            ]
        }
    );
}

#[test]
fn parses_object_with_interface() {
    println!("Parsing object with interface");
    let res = parse(r#"type Obj implements Named & Sort & Filter { id: ID }"#);
    println!("res: {:?}", res);
    assert!(res.is_ok());
    assert_eq!(
        res.unwrap(),
        Document {
            definitions: vec![DefinitionNode::TypeSystem(TypeSystemDefinitionNode::Type(
                TypeDefinitionNode::Object(ObjectTypeDefinitionNode {
                    description: None,
                    name: NameNode::from("Obj"),
                    interfaces: Some(vec![
                        NamedTypeNode::from("Named"),
                        NamedTypeNode::from("Sort"),
                        NamedTypeNode::from("Filter"),
                    ]),
                    directives: None,
                    fields: vec![FieldDefinitionNode {
                        description: None,
                        arguments: None,
                        name: NameNode::from("id"),
                        field_type: TypeNode::Named(NamedTypeNode::from("ID")),
                    }],
                })
            ))]
        }
    );
}

#[test]
fn parses_object_with_directives() {
    println!("Parsing object with directives");
    let res = parse(r#"type Obj @depricated @old(allow: false) { id: ID }"#);
    println!("res: {:?}", res);
    assert!(res.is_ok());
    assert_eq!(
        res.unwrap(),
        Document {
            definitions: vec![DefinitionNode::TypeSystem(TypeSystemDefinitionNode::Type(
                TypeDefinitionNode::Object(ObjectTypeDefinitionNode {
                    description: None,
                    name: NameNode::from("Obj"),
                    interfaces: None,
                    directives: Some(vec![
                        DirectiveNode {
                            name: NameNode::from("depricated"),
                            arguments: None
                        },
                        DirectiveNode {
                            name: NameNode::from("old"),
                            arguments: Some(vec![Argument {
                                name: NameNode::from("allow"),
                                value: ValueNode::Bool(BooleanValueNode { value: false })
                            }])
                        },
                    ]),
                    fields: vec![FieldDefinitionNode {
                        description: None,
                        arguments: None,
                        name: NameNode::from("id"),
                        field_type: TypeNode::Named(NamedTypeNode::from("ID")),
                    }],
                })
            ))]
        }
    );
}

#[test]
fn parse_interfaces() {
    let res = parse(
        r#"interface Empty {}
interface Named {
  name: String
}
interface Void @depricated {
  void: Boolean!
}
"#,
    );
    assert!(res.is_ok());
    assert_eq!(
        res.unwrap(),
        Document {
            definitions: vec![
                DefinitionNode::TypeSystem(TypeSystemDefinitionNode::Type(
                    TypeDefinitionNode::Interface(InterfaceTypeDefinitionNode {
                        name: NameNode::from("Empty"),
                        description: None,
                        directives: None,
                        fields: Vec::new(),
                    })
                )),
                DefinitionNode::TypeSystem(TypeSystemDefinitionNode::Type(
                    TypeDefinitionNode::Interface(InterfaceTypeDefinitionNode {
                        name: NameNode::from("Named"),
                        description: None,
                        directives: None,
                        fields: vec![FieldDefinitionNode {
                            description: None,
                            name: NameNode::from("name"),
                            arguments: None,
                            field_type: TypeNode::Named(NamedTypeNode::from("String"))
                        }],
                    })
                )),
                DefinitionNode::TypeSystem(TypeSystemDefinitionNode::Type(
                    TypeDefinitionNode::Interface(InterfaceTypeDefinitionNode {
                        name: NameNode::from("Void"),
                        description: None,
                        directives: Some(vec![DirectiveNode {
                            name: NameNode::from("depricated"),
                            arguments: None
                        }]),
                        fields: vec![FieldDefinitionNode {
                            description: None,
                            name: NameNode::from("void"),
                            arguments: None,
                            field_type: TypeNode::NonNull(Rc::new(TypeNode::Named(
                                NamedTypeNode::from("Boolean")
                            )))
                        }],
                    })
                )),
            ]
        }
    )
}

#[test]
fn parses_input_type() {
    let res = parse(
        r#"
input Point {
  x: Float
  y: Float
}
"#,
    );
    assert!(res.is_ok());
    assert_eq!(
        res.unwrap(),
        Document {
            definitions: vec![DefinitionNode::TypeSystem(TypeSystemDefinitionNode::Type(
                TypeDefinitionNode::Input(InputTypeDefinitionNode {
                    description: None,
                    name: NameNode::from("Point"),
                    fields: vec![
                        InputValueDefinitionNode {
                            description: None,
                            name: NameNode::from("x"),
                            input_type: TypeNode::Named(NamedTypeNode::from("Float")),
                            default_value: None,
                            directives: None
                        },
                        InputValueDefinitionNode {
                            description: None,
                            name: NameNode::from("y"),
                            input_type: TypeNode::Named(NamedTypeNode::from("Float")),
                            default_value: None,
                            directives: None
                        },
                    ],
                })
            ))]
        }
    )
}

#[test]
fn parses_scalars() {
    let res = parse(
        r#"scalar Date
"""Time is represented by a string"""
scalar Time @format(pattern: "HH:mm:ss")"#,
    );
    assert!(res.is_ok());
    assert_eq!(
        res.unwrap(),
        Document {
            definitions: vec![
                DefinitionNode::TypeSystem(TypeSystemDefinitionNode::Type(
                    TypeDefinitionNode::Scalar(ScalarTypeDefinitionNode {
                        description: None,
                        name: NameNode::from("Date"),
                        directives: None,
                    })
                )),
                DefinitionNode::TypeSystem(TypeSystemDefinitionNode::Type(
                    TypeDefinitionNode::Scalar(ScalarTypeDefinitionNode {
                        description: Some(StringValueNode::from(
                            "Time is represented by a string",
                            true
                        )),
                        name: NameNode::from("Time"),
                        directives: Some(vec![DirectiveNode {
                            name: NameNode::from("format"),
                            arguments: Some(vec![Argument {
                                name: NameNode::from("pattern"),
                                value: ValueNode::Str(StringValueNode::from("HH:mm:ss", false))
                            }])
                        }]),
                    })
                )),
            ]
        }
    )
}

#[test]
fn parses_object_extension() {
    let res = parse(
        r#"extend type Obj implements Timestamped @addedDirective { createdOn: DateTime, updatedOn: DateTime }
            extend type Admin implements Sudo & Root
            extend type User @accessLevel
            "#,
    );
    println!("res: {:?}", res);
    assert!(res.is_ok());
    assert_eq!(
        res.unwrap(),
        Document {
            definitions: vec![
                DefinitionNode::Extension(TypeSystemExtensionNode::Object(
                    ObjectTypeExtensionNode {
                        description: None,
                        name: NameNode::from("Obj"),
                        interfaces: Some(vec![NamedTypeNode::from("Timestamped")]),
                        directives: Some(vec![DirectiveNode {
                            name: NameNode::from("addedDirective"),
                            arguments: None,
                        }]),
                        fields: Some(vec![
                            FieldDefinitionNode {
                                arguments: None,
                                description: None,
                                name: NameNode::from("createdOn"),
                                field_type: TypeNode::Named(NamedTypeNode::from("DateTime")),
                            },
                            FieldDefinitionNode {
                                arguments: None,
                                description: None,
                                name: NameNode::from("updatedOn"),
                                field_type: TypeNode::Named(NamedTypeNode::from("DateTime")),
                            },
                        ]),
                    }
                )),
                DefinitionNode::Extension(TypeSystemExtensionNode::Object(
                    ObjectTypeExtensionNode {
                        description: None,
                        name: NameNode::from("Admin"),
                        interfaces: Some(vec![
                            NamedTypeNode::from("Sudo"),
                            NamedTypeNode::from("Root")
                        ]),
                        directives: None,
                        fields: None,
                    }
                )),
                DefinitionNode::Extension(TypeSystemExtensionNode::Object(
                    ObjectTypeExtensionNode {
                        description: None,
                        name: NameNode::from("User"),
                        interfaces: None,
                        directives: Some(vec![DirectiveNode {
                            name: NameNode::from("accessLevel"),
                            arguments: None
                        }]),
                        fields: None,
                    }
                ))
            ],
        }
    );
}

#[test]
fn it_parses() {
    let doc = parse(
        r#"{
            user {
                name
            }
        }"#
    );
    assert!(doc.is_ok());
    assert_eq!(
        doc.unwrap(),
        Document {
            definitions: vec![DefinitionNode::Executable(
                ExecutableDefinitionNode::Operation(OperationTypeNode::Query(
                    QueryDefinitionNode {
                        name: None,
                        variables: vec![],
                        selections: vec![Selection::Field(FieldNode {
                            name: NameNode::from("user"),
                            alias: None,
                            arguments: None,
                            directives: None,
                            selections: Some(vec![Selection::Field(FieldNode::from("name")),])
                        })]
                    }
                ))
            )]
        }
    )
}

#[test]
fn blank_text_is_an_empty_document() {
    assert_eq!(parse("   \n  ").unwrap_err(), ParseError::DocumentEmpty);
    assert_eq!(parse(",,\t\n").unwrap_err(), ParseError::DocumentEmpty);
    assert_eq!(
        parse("# nothing but a comment\n").unwrap_err(),
        ParseError::DocumentEmpty
    );
}

#[test]
fn empty_object_is_refused_at_its_name() {
    assert_eq!(
        parse("type Empty {}").unwrap_err(),
        ParseError::ObjectEmpty(Location::new(5, 1, 6))
    );
    assert_eq!(
        parse("\n\ntype   Empty @old {\n}").unwrap_err(),
        ParseError::ObjectEmpty(Location::new(9, 3, 8))
    );
    assert_eq!(
        parse("input Point {}").unwrap_err(),
        ParseError::ObjectEmpty(Location::new(12, 1, 13))
    );
    assert_eq!(
        parse("enum E {}").unwrap_err(),
        ParseError::ObjectEmpty(Location::new(7, 1, 8))
    );
    assert!(parse("interface Empty {}").is_ok());
    assert!(parse("extend type Empty {}").is_ok());
}

#[test]
fn enum_names_must_not_be_value_keywords() {
    assert_eq!(parse("enum E { true }").unwrap_err(), ParseError::BadValue);
    assert_eq!(parse("enum E { A false }").unwrap_err(), ParseError::BadValue);
    assert_eq!(parse("enum E { A @d null }").unwrap_err(), ParseError::BadValue);
    assert_eq!(parse("enum true { A }").unwrap_err(), ParseError::BadValue);
    assert_eq!(parse("enum null { A }").unwrap_err(), ParseError::BadValue);
    assert!(parse("enum E { True nulls FALSE }").is_ok());
}

#[test]
fn parsing_twice_gives_equal_documents() {
    let text = r#"
"""A thing"""
type Obj implements Named @d(a: [1, 2.5, "s", {k: $v}]) {
  id(first: Int = 1 @arg): [ID!]!
}
{ me { ...F } }
extend type Obj @more
fragment F on Obj { id }
"#;
    let first = parse(text);
    let second = parse(text);
    assert!(first.is_ok());
    assert_eq!(first, second);
    assert_eq!(first.unwrap().definitions.len(), 4);
    assert_eq!(parse("type"), parse("type"));
    assert!(parse("type").is_err());
}

#[test]
fn parses_the_example_object() {
    let doc = parse("type Obj {\n  name: String\n  id: Int!\n}\n").unwrap();
    assert_eq!(
        doc,
        Document::new(vec![DefinitionNode::TypeSystem(
            TypeSystemDefinitionNode::Type(TypeDefinitionNode::Object(ObjectTypeDefinitionNode {
                description: None,
                name: NameNode::from("Obj"),
                interfaces: None,
                directives: None,
                fields: vec![
                    FieldDefinitionNode {
                        description: None,
                        name: NameNode::from("name"),
                        arguments: None,
                        field_type: TypeNode::Named(NamedTypeNode::from("String")),
                    },
                    FieldDefinitionNode {
                        description: None,
                        name: NameNode::from("id"),
                        arguments: None,
                        field_type: TypeNode::NonNull(Rc::new(TypeNode::Named(
                            NamedTypeNode::from("Int")
                        ))),
                    },
                ],
            }))
        )])
    );
    assert_eq!(doc.to_string(), "Document<1 definitions>");
}

#[test]
fn unterminated_string_fails_at_column_two() {
    assert_eq!(
        parse("\"unterminated").unwrap_err(),
        ParseError::LexError(LexError::UnmatchedQuote(Location::new(0, 1, 2)))
    );
    assert_eq!(
        parse("type A { a: % }").unwrap_err(),
        ParseError::LexError(LexError::UnknownCharacter(Location::new(12, 1, 13)))
    );
}

#[test]
fn definitions_are_told_apart_by_their_first_token() {
    assert_eq!(parse("schema { query: Q }").unwrap_err(), ParseError::BadValue);
    assert_eq!(
        parse("= 1").unwrap_err(),
        ParseError::UnexpectedToken {
            expected: String::from("Token<Name> or Token<OpenBrace>"),
            received: Token::Equals(Location::new(0, 1, 1)).to_string(),
            location: Location::new(0, 1, 1),
        }
    );
    assert_eq!(
        parse("extend enum E { A }").unwrap_err(),
        ParseError::UnexpectedToken {
            expected: String::from("Token::Name"),
            received: Token::Name(Location::new(7, 1, 8), "enum").to_string(),
            location: Location::new(7, 1, 8),
        }
    );
    assert_eq!(
        parse("type A extends B { a: B }").unwrap_err(),
        ParseError::UnexpectedKeyword {
            expected: String::from("implements"),
            received: String::from("extends"),
            location: Location::new(7, 1, 8),
        }
    );
    assert_eq!(
        parse("type A implements B C { a: B }").unwrap_err(),
        ParseError::UnexpectedToken {
            expected: Token::OpenBrace(Location::ignored()).to_string(),
            received: Token::Name(Location::new(20, 1, 21), "C").to_string(),
            location: Location::new(20, 1, 21),
        }
    );
    assert_eq!(
        parse("type A { f(): Int }").unwrap_err(),
        ParseError::ArgumentEmpty(Location::new(11, 1, 12))
    );
    assert_eq!(parse("extend type").unwrap_err(), ParseError::EOF);
    assert_eq!(parse("{ 42 }").unwrap_err(), ParseError::NotImplemented);
    assert_eq!(
        parse("union U = | ").unwrap_err(),
        ParseError::UnexpectedToken {
            expected: String::from("Token<Name>"),
            received: String::from("Token<End>"),
            location: Location::ignored(),
        }
    );
}

#[test]
fn a_description_may_stand_before_a_definition() {
    let doc = parse("\"about\" scalar Date \"\"\"more\"\"\" enum E { \"first\" A }").unwrap();
    assert_eq!(
        doc.definitions,
        vec![
            DefinitionNode::TypeSystem(TypeSystemDefinitionNode::Type(
                TypeDefinitionNode::Scalar(ScalarTypeDefinitionNode {
                    description: Some(StringValueNode::from("about", false)),
                    name: NameNode::from("Date"),
                    directives: None,
                })
            )),
            DefinitionNode::TypeSystem(TypeSystemDefinitionNode::Type(TypeDefinitionNode::Enum(
                EnumTypeDefinitionNode {
                    description: Some(StringValueNode::from("more", true)),
                    name: NameNode::from("E"),
                    directives: None,
                    values: vec![EnumValueDefinitionNode {
                        description: Some(StringValueNode::from("first", false)),
                        name: NameNode::from("A"),
                        directives: None,
                    }],
                }
            ))),
        ]
    );
}

#[test]
fn requests_are_answered_with_text() {
    assert_eq!(
        handle_database_request("type A { a: B } type B { b: A }\n{ a }"),
        "Document<3 definitions>"
    );
    assert_eq!(
        handle_database_request(""),
        "Parse Error: Document is empty. Cannot parse an empty value"
    );
    assert_eq!(
        handle_database_request("type Empty {}"),
        "Parse Error: Object empty on line 1, column 6"
    );
    assert_eq!(
        handle_database_request("type A {\n  a: \"b }"),
        "Parse Error: Unmatched quote found on line 2, column 7"
    );
    assert_eq!(
        handle_database_request("type A { a: 1 }"),
        "Parse Error: Unexpected token on line 1, column 13: Expected \"Token<Name(Location { absolute_position: 0, line: 0, column: 0 }, \"\")>\", but found \"Token<Int(Location { absolute_position: 12, line: 1, column: 13 }, 1)>\""
    );
}

#[test]
fn schema_definitions_start_without_a_description() {
    assert_eq!(SchemaDefinitionNode::new(), SchemaDefinitionNode::new());
    assert_eq!(SchemaDefinitionNode::new().kind, "SchemaDefinition");
    assert_eq!(SchemaDefinitionNode::new().description, None);
}

#[test]
fn an_extension_may_have_an_empty_block() {
    let doc = parse("extend type Empty {}").unwrap();
    assert_eq!(
        doc.definitions,
        vec![DefinitionNode::Extension(TypeSystemExtensionNode::Object(
            ObjectTypeExtensionNode {
                description: None,
                name: NameNode::from("Empty"),
                interfaces: None,
                directives: None,
                fields: Some(vec![]),
            }
        ))]
    );
    let doc = parse("extend type Bare").unwrap();
    assert_eq!(
        doc.definitions,
        vec![DefinitionNode::Extension(TypeSystemExtensionNode::Object(
            ObjectTypeExtensionNode {
                description: None,
                name: NameNode::from("Bare"),
                interfaces: None,
                directives: None,
                fields: None,
            }
        ))]
    );
}

#[test]
fn implements_asks_for_a_name_and_for_ampersands() {
    assert_eq!(
        parse("type A implements { a: B }").unwrap_err(),
        ParseError::UnexpectedToken {
            expected: Token::Name(Location::ignored(), "").to_string(),
            received: Token::OpenBrace(Location::new(18, 1, 19)).to_string(),
            location: Location::new(18, 1, 19),
        }
    );
    assert_eq!(
        parse("type A implements B & { a: B }").unwrap_err(),
        ParseError::UnexpectedToken {
            expected: Token::Name(Location::ignored(), "").to_string(),
            received: Token::OpenBrace(Location::new(22, 1, 23)).to_string(),
            location: Location::new(22, 1, 23),
        }
    );
    assert!(parse("interface A implements B { a: B }").is_err());
}

#[test]
fn a_type_takes_one_bang_only() {
    assert_eq!(
        parse("type A { a: Int!! }").unwrap_err(),
        ParseError::UnexpectedToken {
            expected: Token::Name(Location::ignored(), "").to_string(),
            received: Token::Bang(Location::new(16, 1, 17)).to_string(),
            location: Location::new(16, 1, 17),
        }
    );
}

#[test]
fn a_union_needs_its_pipes() {
    assert_eq!(
        parse("union U = A B").unwrap_err(),
        ParseError::BadValue
    );
    assert_eq!(
        parse("union U A").unwrap_err(),
        ParseError::UnexpectedToken {
            expected: Token::Equals(Location::ignored()).to_string(),
            received: Token::Name(Location::new(8, 1, 9), "A").to_string(),
            location: Location::new(8, 1, 9),
        }
    );
    assert_eq!(
        parse("union U @d = | A").unwrap().definitions,
        vec![DefinitionNode::TypeSystem(TypeSystemDefinitionNode::Type(
            TypeDefinitionNode::Union(UnionTypeDefinitionNode {
                description: None,
                name: NameNode::from("U"),
                directives: Some(vec![DirectiveNode {
                    name: NameNode::from("d"),
                    arguments: None
                }]),
                types: vec![NamedTypeNode::from("A")],
            })
        ))]
    );
}
