use yew_router_extra_macro::derive::{routable_derive, TitleArm};
use yew_router_extra_macro::error::DeriveError;
use yew_router_extra_macro::input::{Attribute, Data, DeriveInput, Fields, Variant};

fn attribute_of(attribute: &syn::Attribute) -> Attribute {
    Attribute {
        ident: attribute.path.get_ident().map(|ident| ident.to_string()),
        arguments: attribute
            .parse_args::<proc_macro2::TokenStream>()
            .ok()
            .map(|tokens| tokens.to_string()),
    }
}

fn variant_of(variant: &syn::Variant) -> Variant {
    Variant {
        attrs: variant.attrs.iter().map(attribute_of).collect(),
        ident: variant.ident.to_string(),
        fields: match &variant.fields {
            syn::Fields::Named(fields) => Fields::Named(
                fields.named.iter().map(|field| field.ident.as_ref().unwrap().to_string()).collect(),
            ),
            syn::Fields::Unnamed(_) => Fields::Unnamed,
            syn::Fields::Unit => Fields::Unit,
        },
    }
}

/// The declaration in `source`, read by `syn`.
fn declaration(source: &str) -> DeriveInput {
    let input = syn::parse_str::<syn::DeriveInput>(source).unwrap();
    DeriveInput {
        ident: input.ident.to_string(),
        data: match &input.data {
            syn::Data::Struct(_) => Data::Struct,
            syn::Data::Enum(data) => Data::Enum(data.variants.iter().map(variant_of).collect()),
            syn::Data::Union(_) => Data::Union,
        },
    }
}

#[test]
fn a_route_enum_in_source_form_is_derived() {
    let input = declaration(
        r##"
        #[derive(Clone, Routable, TitledRoutable)]
        enum Route {
            #[at("/")]
            #[title("Home")]
            Home,
            /// One item.
            #[at("/item/:id")]
            #[title("Item :id")]
            Item { id: u32 },
            #[at("/files/*path")]
            #[title(r#"Files "*path""#)]
            Files { path: String },
            #[not_found]
            #[at("/404")]
            #[title("Not found\n")]
            NotFound,
        }
        "##,
    );
    let title_impl = routable_derive(input).unwrap();
    assert_eq!(title_impl.ident, "Route");
    assert_eq!(
        title_impl.arms,
        vec![
            TitleArm::Verbatim { variant: "Home".to_string(), title: "Home".to_string() },
            TitleArm::Formatted {
                variant: "Item".to_string(),
                fields: vec!["id".to_string()],
                template: "Item {id}".to_string(),
            },
            TitleArm::Formatted {
                variant: "Files".to_string(),
                fields: vec!["path".to_string()],
                template: "Files \"{path}\"".to_string(),
            },
            TitleArm::Verbatim { variant: "NotFound".to_string(), title: "Not found\n".to_string() },
        ]
    );
}

#[test]
fn a_struct_in_source_form_is_refused() {
    let input = declaration("struct Route { id: u32 }");
    assert_eq!(routable_derive(input).unwrap_err().message(), "expected enum, found struct");
}

#[test]
fn a_union_in_source_form_is_refused() {
    let input = declaration("union Route { id: u32, page: u64 }");
    assert_eq!(routable_derive(input).unwrap_err().message(), "expected enum, found union");
}

#[test]
fn positional_fields_in_source_form_are_refused() {
    let input = declaration("enum Route { #[title(\"Foo\")] Foo(String) }");
    let reason = routable_derive(input).unwrap_err();
    assert_eq!(reason, DeriveError::UnnamedFields { variant: 0 });
    assert_eq!(reason.message(), "only named fields are supported");
}

#[test]
fn title_attributes_in_source_form_are_counted() {
    let input = declaration("enum Route { #[title(\"Home\")] Home, #[at(\"/about\")] About }");
    assert_eq!(routable_derive(input), Err(DeriveError::MissingTitle { variant: 1 }));
    let input = declaration("enum Route { #[title(\"Home\")] #[at(\"/\")] #[title(\"Start\")] Home }");
    assert_eq!(
        routable_derive(input),
        Err(DeriveError::DuplicateTitle { variant: 0, attributes: vec![0, 2] })
    );
}

#[test]
fn title_arguments_in_source_form_must_be_a_string_literal() {
    for source in [
        "enum Route { #[title] Home }",
        "enum Route { #[title = \"Home\"] Home }",
        "enum Route { #[title()] Home }",
        "enum Route { #[title(Home)] Home }",
        "enum Route { #[title(42)] Home }",
        "enum Route { #[title(b\"Home\")] Home }",
        "enum Route { #[title(\"Home\", \"Start\")] Home }",
        "enum Route { #[title((\"Home\"))] Home }",
    ] {
        assert_eq!(
            routable_derive(declaration(source)),
            Err(DeriveError::BadLiteral { variant: 0, attribute: 0 }),
            "{}",
            source
        );
    }
}

#[test]
fn a_title_in_source_form_is_read_as_syn_reads_it() {
    for literal in [
        "\"Home\"",
        "\"Item :id\"",
        "\"tab\\there\"",
        "\"quote \\\" and backslash \\\\\"",
        "\"\\u{1F600} \\x7f \\0\"",
        "\"line \\\n    continued\"",
        "r\"raw \\n\"",
        "r##\"raw \"# still\"##",
        "\"größer ✓\"",
    ] {
        let source = format!("enum Route {{ #[title({})] Home }}", literal);
        let parsed = syn::parse_str::<syn::DeriveInput>(&source).unwrap();
        let expected = match &parsed.data {
            syn::Data::Enum(data) => data.variants[0].attrs[0].parse_args::<syn::LitStr>().unwrap().value(),
            _ => unreachable!(),
        };
        let title_impl = routable_derive(declaration(&source)).unwrap();
        assert_eq!(
            title_impl.arms,
            vec![TitleArm::Verbatim { variant: "Home".to_string(), title: expected }],
            "{}",
            literal
        );
    }
}
