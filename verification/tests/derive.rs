use quote::ToTokens;
use struct_field_names::error::DeriveError;
use struct_field_names::kind::MemberKind;
use struct_field_names::{derive_field_names, derive_names, derive_variant_names};

/// The impl block with the constant, out of generated code.
fn generated_impl(code: &str) -> syn::ItemImpl {
    let file = syn::parse_str::<syn::File>(code).expect("the generated code is Rust");
    for item in file.items {
        if let syn::Item::Impl(block) = item {
            return block;
        }
    }
    panic!("no impl block in {}", code);
}

/// The companion struct, out of generated code.
fn generated_struct(code: &str) -> syn::ItemStruct {
    let file = syn::parse_str::<syn::File>(code).expect("the generated code is Rust");
    for item in file.items {
        if let syn::Item::Struct(decl) = item {
            return decl;
        }
    }
    panic!("no struct in {}", code);
}

/// The tokens of a piece of syntax, as text.
fn tokens<T: ToTokens>(syntax: &T) -> String {
    syntax.to_token_stream().to_string()
}

/// What `<constant>.<member>` holds in generated code.
fn constant_member(code: &str, constant: &str, member: &str) -> Option<String> {
    for item in generated_impl(code).items {
        if let syn::ImplItem::Const(decl) = item {
            if decl.ident != constant {
                continue;
            }
            if let syn::Expr::Struct(init) = decl.expr {
                for field in init.fields {
                    let named = match &field.member {
                        syn::Member::Named(name) => name == member,
                        syn::Member::Unnamed(_) => false,
                    };
                    if named {
                        if let syn::Expr::Lit(lit) = &field.expr {
                            if let syn::Lit::Str(text) = &lit.lit {
                                return Some(text.value());
                            }
                        }
                        panic!("{} is no string literal", member);
                    }
                }
            }
        }
    }
    None
}

/// The names of the fields of the companion struct, in order.
fn struct_fields(code: &str) -> Vec<String> {
    generated_struct(code)
        .fields
        .iter()
        .map(|f| f.ident.as_ref().expect("a named field").to_string())
        .collect()
}

/// Whether the field `member` of the companion struct is `pub`.
fn is_pub(code: &str, member: &str) -> bool {
    for field in generated_struct(code).fields.iter() {
        if field.ident.as_ref().expect("a named field") == member {
            return matches!(field.vis, syn::Visibility::Public(_));
        }
    }
    panic!("no field {}", member);
}

#[test]
fn test_field_names() {
    let code = derive_field_names(
        "#[allow(dead_code)]
        struct Struct {
            field_one: i32,
            field_two: Vec<bool>,
            hello: (String,),
            world: [u64; 3],
        }",
    )
    .unwrap();
    assert_eq!(
        constant_member(&code, "FIELD_NAMES", "field_one"),
        Some("field_one".to_string())
    );
    assert_eq!(
        constant_member(&code, "FIELD_NAMES", "field_two"),
        Some("field_two".to_string())
    );
    assert_eq!(constant_member(&code, "FIELD_NAMES", "hello"), Some("hello".to_string()));
    assert_eq!(constant_member(&code, "FIELD_NAMES", "world"), Some("world".to_string()));
    assert_eq!(generated_struct(&code).ident.to_string(), "StructFieldStaticStr");
    assert_eq!(struct_fields(&code), vec!["field_one", "field_two", "hello", "world"]);
}

#[test]
fn test_with_generic_struct() {
    let code = derive_field_names(
        "#[allow(dead_code)]
        struct Struct<'a, T: PartialEq, U> {
            field_one: &'a T,
            field_two: Vec<U>,
        }",
    )
    .unwrap();
    assert_eq!(
        constant_member(&code, "FIELD_NAMES", "field_one"),
        Some("field_one".to_string())
    );
    assert_eq!(
        constant_member(&code, "FIELD_NAMES", "field_two"),
        Some("field_two".to_string())
    );
    let block = generated_impl(&code);
    let expected = syn::parse_str::<syn::ItemImpl>("impl<'a, T: PartialEq, U> Struct<'a, T, U> {}")
        .unwrap();
    assert_eq!(block.generics.params.len(), 3);
    assert_eq!(tokens(&block.generics), tokens(&expected.generics));
    assert_eq!(tokens(&block.self_ty), tokens(&expected.self_ty));
    assert!(generated_struct(&code).generics.params.is_empty());
}

#[test]
fn not_a_test_skip_attribute() {
    let code = derive_field_names(
        "#[allow(dead_code)]
        struct Struct {
            field_one: bool,
            #[struct_field_names(skip)]
            field_two: usize,
        }",
    )
    .unwrap();
    assert_eq!(
        constant_member(&code, "FIELD_NAMES", "field_one"),
        Some("field_one".to_string())
    );
    assert_eq!(constant_member(&code, "FIELD_NAMES", "field_two"), None);
    assert_eq!(struct_fields(&code), vec!["field_one"]);
}

#[test]
fn not_a_test_field_visibility() {
    let public = derive_field_names(
        "#[allow(dead_code)]
        pub struct PublicStruct {
            pub public_field: i32,
            private_field: i32,
        }",
    )
    .unwrap();
    let private = derive_field_names(
        "#[allow(dead_code)]
        struct PrivateStruct {
            pub public_field: i32,
            private_field: i32,
        }",
    )
    .unwrap();
    assert_eq!(
        constant_member(&public, "FIELD_NAMES", "public_field"),
        Some("public_field".to_string())
    );
    assert!(is_pub(&public, "public_field"));
    assert!(!is_pub(&public, "private_field"));
    assert!(matches!(generated_struct(&public).vis, syn::Visibility::Public(_)));
    assert!(is_pub(&private, "public_field"));
    assert!(!is_pub(&private, "private_field"));
    assert!(matches!(generated_struct(&private).vis, syn::Visibility::Inherited));
}

#[test]
fn test_variant_names() {
    let code = derive_variant_names(
        "#[allow(dead_code)]
        enum Enum {
            VarOne(i32),
            VarTwo,
            VarThree { inner: String },
        }",
    )
    .unwrap();
    assert_eq!(constant_member(&code, "VARIANT_NAMES", "VarOne"), Some("VarOne".to_string()));
    assert_eq!(constant_member(&code, "VARIANT_NAMES", "VarTwo"), Some("VarTwo".to_string()));
    assert_eq!(
        constant_member(&code, "VARIANT_NAMES", "VarThree"),
        Some("VarThree".to_string())
    );
    assert_eq!(generated_struct(&code).ident.to_string(), "EnumVariantsStaticStr");
    assert!(is_pub(&code, "VarOne"));
    assert!(is_pub(&code, "VarTwo"));
    assert!(is_pub(&code, "VarThree"));
}

#[test]
fn two_field_struct_scenario() {
    let code =
        derive_field_names("struct Struct { field_one: i32, field_two: Vec<bool> }").unwrap();
    assert_eq!(
        code,
        "struct StructFieldStaticStr { field_one: &'static str, field_two: &'static str, } \
         impl Struct  { const FIELD_NAMES: StructFieldStaticStr = StructFieldStaticStr { \
         field_one: \"field_one\", field_two: \"field_two\", }; }"
    );
}

#[test]
fn enum_text_is_exact() {
    let code = derive_variant_names("pub enum E { A, #[enum_variant_names(skip)] B, C(u8) }")
        .unwrap();
    assert_eq!(
        code,
        "#[allow(non_snake_case)] pub struct EVariantsStaticStr { pub A: &'static str, \
         pub C: &'static str, } impl E  { pub const VARIANT_NAMES: EVariantsStaticStr = \
         EVariantsStaticStr { A: \"A\", C: \"C\", }; }"
    );
}

#[test]
fn constant_is_as_visible_as_the_type() {
    let code = derive_field_names("pub(crate) struct S { a: u8 }").unwrap();
    let block = generated_impl(&code);
    let mut seen = false;
    for item in block.items {
        if let syn::ImplItem::Const(decl) = item {
            seen = true;
            assert!(matches!(decl.vis, syn::Visibility::Restricted(_)));
        }
    }
    assert!(seen);
    assert!(matches!(generated_struct(&code).vis, syn::Visibility::Restricted(_)));
}

#[test]
fn where_clause_is_carried_to_the_impl_block() {
    let code = derive_field_names("struct S<T> where T: Clone + Send { a: T }").unwrap();
    let block = generated_impl(&code);
    let expected =
        syn::parse_str::<syn::ItemImpl>("impl<T> S<T> where T: Clone + Send {}").unwrap();
    assert_eq!(tokens(&block.generics), tokens(&expected.generics));
    assert_eq!(
        tokens(&block.generics.where_clause),
        tokens(&expected.generics.where_clause)
    );
    assert!(block.generics.where_clause.is_some());
}

#[test]
fn names_do_not_depend_on_generic_parameters() {
    let plain = derive_field_names("struct S { a: u8, b: u8 }").unwrap();
    let generic = derive_field_names("struct S<A, B: Copy> { a: A, b: B }").unwrap();
    assert_eq!(struct_fields(&plain), struct_fields(&generic));
    assert_eq!(
        constant_member(&plain, "FIELD_NAMES", "a"),
        constant_member(&generic, "FIELD_NAMES", "a")
    );
    assert_eq!(
        constant_member(&plain, "FIELD_NAMES", "b"),
        constant_member(&generic, "FIELD_NAMES", "b")
    );
    assert_eq!(tokens(&generated_struct(&plain)), tokens(&generated_struct(&generic)));
}

#[test]
fn all_fields_skipped_gives_an_empty_companion() {
    let code = derive_field_names(
        "struct S { #[struct_field_names(skip)] a: u8, #[struct_field_names(skip)] b: u8 }",
    )
    .unwrap();
    assert!(struct_fields(&code).is_empty());
    assert_eq!(constant_member(&code, "FIELD_NAMES", "a"), None);
    assert_eq!(
        code,
        "struct SFieldStaticStr { } impl S  { const FIELD_NAMES: SFieldStaticStr = \
         SFieldStaticStr { }; }"
    );
}

#[test]
fn declarations_without_members_give_an_empty_companion() {
    let fields = derive_field_names("struct S {}").unwrap();
    assert!(struct_fields(&fields).is_empty());
    let variants = derive_variant_names("enum E {}").unwrap();
    assert!(struct_fields(&variants).is_empty());
}

#[test]
fn other_shapes_are_rejected() {
    let field = Err(DeriveError::ShapeMismatch(MemberKind::Field));
    assert_eq!(derive_field_names("struct S(u8, u8);"), field);
    assert_eq!(derive_field_names("struct S;"), field);
    assert_eq!(derive_field_names("union U { a: u8, b: u16 }"), field);
    assert_eq!(derive_field_names("enum E { A, B }"), field);
    let variant = Err(DeriveError::ShapeMismatch(MemberKind::Variant));
    assert_eq!(derive_variant_names("struct S { a: u8 }"), variant);
    assert_eq!(derive_variant_names("struct S(u8);"), variant);
    assert_eq!(derive_variant_names("struct S;"), variant);
    assert_eq!(derive_variant_names("union U { a: u8, b: u16 }"), variant);
}

#[test]
fn text_that_is_no_declaration_is_a_syntax_error() {
    assert_eq!(derive_field_names("fn f() {}"), Err(DeriveError::Syntax));
    assert_eq!(derive_field_names(""), Err(DeriveError::Syntax));
    assert_eq!(derive_field_names("struct S { a: }"), Err(DeriveError::Syntax));
    assert_eq!(derive_variant_names("enum { A }"), Err(DeriveError::Syntax));
    assert_eq!(derive_variant_names("\"unterminated"), Err(DeriveError::Syntax));
}

#[test]
fn annotations_of_another_form_exclude_nothing() {
    let code = derive_field_names(
        "struct S {
            #[struct_field_names] a: u8,
            #[struct_field_names = \"skip\"] b: u8,
            #[struct_field_names(other)] c: u8,
            #[struct_field_names(skip = true)] d: u8,
            #[struct_field_names(\"skip\")] e: u8,
            #[struct_field_names(skip(x))] f: u8,
            #[struct_field_names(a::skip)] g: u8,
            #[struct_field_names(::skip)] h: u8,
            #[other(skip)] i: u8,
            #[a::struct_field_names(skip)] j: u8,
            #[enum_variant_names(skip)] k: u8,
            #[struct_field_names(skip oops)] l: u8,
            #[struct_field_names(r#skip)] m: u8,
            #[struct_field_names()] n: u8,
            /// skip
            o: u8,
            #[struct_field_names[skip]] p: u8,
        }",
    )
    .unwrap();
    assert_eq!(
        struct_fields(&code),
        vec!["a", "b", "c", "d", "e", "f", "g", "h", "i", "j", "k", "l", "m", "n", "o", "p"]
    );
}

#[test]
fn skip_is_found_among_other_items_and_annotations() {
    let code = derive_field_names(
        "struct S {
            #[struct_field_names(other, skip)] a: u8,
            #[struct_field_names(skip, \"x\", y = 1)] b: u8,
            #[doc = \"x\"] #[struct_field_names(other)] #[struct_field_names(skip)] c: u8,
            #[struct_field_names(skip,)] d: u8,
            #[serde(rename = \"e\")] e: u8,
        }",
    )
    .unwrap();
    assert_eq!(struct_fields(&code), vec!["e"]);
    assert_eq!(constant_member(&code, "FIELD_NAMES", "e"), Some("e".to_string()));
}

#[test]
fn variants_are_skipped_by_their_own_marker_only() {
    let code = derive_variant_names(
        "enum E {
            #[enum_variant_names(skip)] A,
            #[struct_field_names(skip)] B(u8),
            C { #[enum_variant_names(skip)] inner: u8 },
        }",
    )
    .unwrap();
    assert_eq!(struct_fields(&code), vec!["B", "C"]);
    assert_eq!(constant_member(&code, "VARIANT_NAMES", "A"), None);
}

#[test]
fn order_of_declaration_is_kept() {
    let code = derive_field_names(
        "struct S { z: u8, #[struct_field_names(skip)] m: u8, a: u8, k: u8 }",
    )
    .unwrap();
    assert_eq!(struct_fields(&code), vec!["z", "a", "k"]);
}

#[test]
fn names_are_spelled_as_written() {
    let code = derive_field_names("struct S { CamelCase: u8, _x1: u8, r#type: u8, été: u8 }")
        .unwrap();
    assert_eq!(constant_member(&code, "FIELD_NAMES", "CamelCase"), Some("CamelCase".to_string()));
    assert_eq!(constant_member(&code, "FIELD_NAMES", "_x1"), Some("_x1".to_string()));
    assert_eq!(constant_member(&code, "FIELD_NAMES", "r#type"), Some("r#type".to_string()));
    assert_eq!(constant_member(&code, "FIELD_NAMES", "été"), Some("été".to_string()));
}

#[test]
fn both_companions_of_one_type_have_different_names() {
    let fields = derive_field_names("struct T { a: u8 }").unwrap();
    assert_eq!(generated_struct(&fields).ident.to_string(), "TFieldStaticStr");
    let variants = derive_variant_names("enum T { A }").unwrap();
    assert_eq!(generated_struct(&variants).ident.to_string(), "TVariantsStaticStr");
}

#[test]
fn derive_names_is_what_both_requests_run() {
    let text = "struct S { a: u8 }";
    assert_eq!(derive_names(text, MemberKind::Field), derive_field_names(text));
    let text = "enum E { A }";
    assert_eq!(derive_names(text, MemberKind::Variant), derive_variant_names(text));
}

#[test]
fn the_lint_is_switched_off_for_variant_companions_only() {
    let variants = derive_variant_names("enum E { A }").unwrap();
    let attrs = generated_struct(&variants).attrs;
    assert_eq!(attrs.len(), 1);
    assert!(attrs[0].path().is_ident("allow"));
    let fields = derive_field_names("struct S { a: u8 }").unwrap();
    assert!(generated_struct(&fields).attrs.is_empty());
}

#[test]
fn failures_have_messages() {
    assert_eq!(
        DeriveError::ShapeMismatch(MemberKind::Field).message(),
        "StructFieldNames can only be derived for structs with named fields"
    );
    assert_eq!(
        DeriveError::ShapeMismatch(MemberKind::Variant).message(),
        "EnumVariantNames can only be derived for enums"
    );
    assert_eq!(DeriveError::Syntax.message(), "expected a struct, enum or union declaration");
}

#[test]
fn literals_of_every_kind_in_a_list_ask_for_nothing() {
    let code = derive_field_names(
        "struct S {
            #[struct_field_names(c\"x\")] a: u8,
            #[other(c\"x\", cr#\"y\"#, b\"z\", 1.5e3, 0x1f_u8, 'c', true)] b: u8,
            #[struct_field_names(\"skip\", 7, skip)] c: u8,
            #[doc = c\"x\"] d: u8,
        }",
    )
    .unwrap();
    assert_eq!(struct_fields(&code), vec!["a", "b", "d"]);
    let code = derive_variant_names(
        "enum E { #[enum_variant_names(c\"x\")] A = 1, #[enum_variant_names(skip, c\"x\")] B }",
    )
    .unwrap();
    assert_eq!(struct_fields(&code), vec!["A"]);
}

#[test]
fn literals_of_every_kind_in_a_declaration_are_read() {
    let code = derive_variant_names("enum E { A = c\"x\", B = 0x10, C = b'c' as isize }")
        .unwrap();
    assert_eq!(struct_fields(&code), vec!["A", "B", "C"]);
    let code = derive_field_names(
        "struct S<const N: usize = { c\"x\"; 3 }> { a: [u8; 0b11], b: [u8; { 1.5e1 as usize }] }",
    )
    .unwrap();
    assert_eq!(struct_fields(&code), vec!["a", "b"]);
}

#[test]
fn items_of_a_list_are_what_stands_between_its_commas() {
    let code = derive_field_names(
        "struct S {
            #[struct_field_names(skip, +)] a: u8,
            #[struct_field_names(a b, skip)] b: u8,
            #[struct_field_names(, skip)] c: u8,
            #[struct_field_names(skip skip)] d: u8,
            #[struct_field_names((skip))] e: u8,
            #[struct_field_names(skip;)] f: u8,
            #[struct_field_names(,)] g: u8,
            #[struct_field_names(other, , skip, )] h: u8,
        }",
    )
    .unwrap();
    assert_eq!(struct_fields(&code), vec!["d", "e", "f", "g"]);
}
