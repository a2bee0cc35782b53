use yew_router_extra_macro::derive::{TitleArm, TitleImpl};
use yew_router_extra_macro::literal::parse_title;
use yew_router_extra_macro::source::{write_impl, write_method};

fn verbatim(variant: &str, title: &str) -> TitleArm {
    TitleArm::Verbatim { variant: variant.to_string(), title: title.to_string() }
}

fn formatted(variant: &str, fields: &[&str], template: &str) -> TitleArm {
    TitleArm::Formatted {
        variant: variant.to_string(),
        fields: fields.iter().map(|field| field.to_string()).collect(),
        template: template.to_string(),
    }
}

fn route(arms: Vec<TitleArm>) -> TitleImpl {
    TitleImpl { ident: "Route".to_string(), arms }
}

/// The tokens of `source`, printed in one fixed way.
fn tokens(source: &str) -> String {
    source.parse::<proc_macro2::TokenStream>().unwrap().to_string()
}

/// The string literals that are the first argument of a call or macro in the arms of the one
/// method of the implementation in `source`, as `syn` reads them.
fn titles_in(source: &str) -> Vec<String> {
    let item = syn::parse_str::<syn::ItemImpl>(source).unwrap();
    assert_eq!(item.items.len(), 1);
    let method = match &item.items[0] {
        syn::ImplItem::Method(method) => method,
        _ => panic!("no method"),
    };
    assert_eq!(method.sig.ident, "title");
    let body = match &method.block.stmts[..] {
        [syn::Stmt::Expr(syn::Expr::Match(body))] => body,
        _ => panic!("no match"),
    };
    body.arms
        .iter()
        .map(|arm| match &*arm.body {
            syn::Expr::Call(call) => match &call.args[0] {
                syn::Expr::Lit(syn::ExprLit { lit: syn::Lit::Str(literal), .. }) => literal.value(),
                _ => panic!("no literal"),
            },
            syn::Expr::Macro(call) => {
                let arguments = call.mac.tokens.clone().into_iter().next().unwrap();
                match syn::parse2::<syn::LitStr>(arguments.into()) {
                    Ok(literal) => literal.value(),
                    Err(_) => panic!("no literal"),
                }
            }
            _ => panic!("neither call nor macro"),
        })
        .collect()
}

#[test]
fn an_arm_for_a_title_as_it_is() {
    assert_eq!(
        verbatim("Home", "Home").source("\"Home\""),
        "Self::Home => ::std::string::ToString::to_string(\"Home\")"
    );
}

#[test]
fn an_arm_for_a_template() {
    assert_eq!(
        formatted("Item", &["id"], "Item {id}").source("\"Item {id}\""),
        "Self::Item { id } => ::std::format!(\"Item {id}\", id = id)"
    );
    assert_eq!(
        formatted("Post", &["year", "slug"], "{slug} ({year})").source("\"{slug} ({year})\""),
        "Self::Post { year, slug } => ::std::format!(\"{slug} ({year})\", year = year, slug = slug)"
    );
    assert_eq!(
        formatted("Empty", &[], "Empty").source("\"Empty\""),
        "Self::Empty {  } => ::std::format!(\"Empty\", )"
    );
}

#[test]
fn an_arm_holds_the_literal_it_is_given() {
    assert_eq!(
        verbatim("Home", "Home").source("r#\"Home\"#"),
        "Self::Home => ::std::string::ToString::to_string(r#\"Home\"#)"
    );
}

#[test]
fn the_text_of_an_arm_is_its_title_or_template() {
    assert_eq!(verbatim("Home", "Start").text(), "Start");
    assert_eq!(formatted("Item", &["id"], "Item {id}").text(), "Item {id}");
}

#[test]
fn a_method_around_its_arms() {
    let arms = vec!["Self::A => a".to_string(), "Self::B => b".to_string()];
    assert_eq!(
        write_method(&arms),
        "fn title(&self) -> ::std::string::String { match self { Self::A => a, Self::B => b, } }"
    );
    assert_eq!(
        write_method(&vec!["Self::A => a".to_string()]),
        "fn title(&self) -> ::std::string::String { match self { Self::A => a, } }"
    );
}

#[test]
fn a_method_without_arms_has_an_empty_match() {
    assert_eq!(
        write_method(&vec![]),
        "fn title(&self) -> ::std::string::String { match *self { } }"
    );
}

#[test]
fn an_implementation_around_its_method() {
    assert_eq!(
        write_impl("Route", "fn title(&self) {}"),
        "#[automatically_derived] impl ::yew_router_extra::TitledRoutable for Route { fn title(&self) {} }"
    );
}

#[test]
fn the_implementation_as_source_text() {
    let title_impl = route(vec![verbatim("Home", "Home"), formatted("Item", &["id"], "Item {id}")]);
    assert_eq!(
        title_impl.source(),
        "#[automatically_derived] impl ::yew_router_extra::TitledRoutable for Route { \
         fn title(&self) -> ::std::string::String { match self { \
         Self::Home => ::std::string::ToString::to_string(\"Home\"), \
         Self::Item { id } => ::std::format!(\"Item {id}\", id = id), } } }"
    );
}

#[test]
fn the_source_has_the_tokens_of_a_trait_implementation() {
    let title_impl = route(vec![
        verbatim("Home", "Home"),
        formatted("Post", &["year", "slug"], "Post {slug} ({year})"),
    ]);
    let expected = r#"
        #[automatically_derived]
        impl ::yew_router_extra::TitledRoutable for Route {
            fn title(&self) -> ::std::string::String {
                match self {
                    Self::Home => ::std::string::ToString::to_string("Home"),
                    Self::Post { year, slug } =>
                        ::std::format!("Post {slug} ({year})", year = year, slug = slug),
                }
            }
        }
    "#;
    assert_eq!(tokens(&title_impl.source()), tokens(expected));
}

#[test]
fn the_source_of_an_enum_without_variants() {
    let expected = r#"
        #[automatically_derived]
        impl ::yew_router_extra::TitledRoutable for Route {
            fn title(&self) -> ::std::string::String {
                match *self {}
            }
        }
    "#;
    assert_eq!(tokens(&route(vec![]).source()), tokens(expected));
}

#[test]
fn the_source_of_an_enum_without_variants_is_an_implementation_without_arms() {
    let item = syn::parse_str::<syn::ItemImpl>(&route(vec![]).source()).unwrap();
    assert_eq!(item.items.len(), 1);
    let method = match &item.items[0] {
        syn::ImplItem::Method(method) => method,
        _ => panic!("no method"),
    };
    assert_eq!(method.sig.ident, "title");
    let body = match &method.block.stmts[..] {
        [syn::Stmt::Expr(syn::Expr::Match(body))] => body,
        _ => panic!("no match"),
    };
    assert!(body.arms.is_empty());
    match &*body.expr {
        syn::Expr::Unary(scrutinee) => {
            assert!(matches!(scrutinee.op, syn::UnOp::Deref(_)));
            assert!(matches!(&*scrutinee.expr, syn::Expr::Path(path) if path.path.is_ident("self")));
        }
        _ => panic!("no dereference"),
    }
}

#[test]
fn the_source_of_an_enum_with_variants_matches_on_the_reference() {
    let item = syn::parse_str::<syn::ItemImpl>(&route(vec![verbatim("Home", "Home")]).source()).unwrap();
    let method = match &item.items[0] {
        syn::ImplItem::Method(method) => method,
        _ => panic!("no method"),
    };
    let body = match &method.block.stmts[..] {
        [syn::Stmt::Expr(syn::Expr::Match(body))] => body,
        _ => panic!("no match"),
    };
    assert_eq!(body.arms.len(), 1);
    assert!(matches!(&*body.expr, syn::Expr::Path(path) if path.path.is_ident("self")));
}

#[test]
fn the_source_is_an_implementation_of_the_trait_for_the_enum() {
    let source = route(vec![verbatim("Home", "Home")]).source();
    let item = syn::parse_str::<syn::ItemImpl>(&source).unwrap();
    let (_, path, _) = item.trait_.as_ref().unwrap();
    assert!(path.leading_colon.is_some());
    let segments: Vec<String> =
        path.segments.iter().map(|segment| segment.ident.to_string()).collect();
    assert_eq!(segments, vec!["yew_router_extra".to_string(), "TitledRoutable".to_string()]);
    match &*item.self_ty {
        syn::Type::Path(self_ty) => assert!(self_ty.path.is_ident("Route")),
        _ => panic!("no path"),
    }
    assert_eq!(item.attrs.len(), 1);
    assert!(item.attrs[0].path.is_ident("automatically_derived"));
}

#[test]
fn titles_are_written_as_literals_that_stand_for_them() {
    let titles = [
        "Home",
        "",
        "say \"hi\"",
        "back\\slash",
        "it's",
        "line\nbreak\ttab\rreturn",
        "nul\u{0}1 and \u{0}",
        "größer ✓ \u{301} \u{200b}",
        "{braces} (:id) [*name]",
    ];
    let title_impl = route(titles.iter().map(|title| verbatim("Home", title)).collect());
    let expected: Vec<String> = titles.iter().map(|title| title.to_string()).collect();
    assert_eq!(titles_in(&title_impl.source()), expected);
    let title_impl = route(titles.iter().map(|title| formatted("Item", &["id"], title)).collect());
    assert_eq!(titles_in(&title_impl.source()), expected);
}

#[test]
fn a_written_literal_is_read_back_as_the_title() {
    for title in ["Home", "say \"hi\"", "back\\slash", "line\nbreak", "größer ✓", "\u{0}7"] {
        let source = route(vec![verbatim("Home", title)]).source();
        let opening = "::std::string::ToString::to_string(";
        let from = source.find(opening).unwrap() + opening.len();
        let to = source.rfind("), } } }").unwrap();
        let literal = &source[from..to];
        assert_ne!(literal, title);
        assert_eq!(parse_title(&Some(literal.to_string())), Some(title.to_string()));
    }
}

#[test]
fn every_character_is_written_so_that_it_is_read_back() {
    let opening = "::std::string::ToString::to_string(";
    let mut title = String::new();
    for code in (0..0x3100u32).chain(0xd7f0..0xe010).chain(0xfff0..0x10010).chain(0x10fff0..0x110000) {
        let c = match char::from_u32(code) {
            Some(c) => c,
            None => continue,
        };
        title.clear();
        title.push(c);
        title.push('7');
        title.push(c);
        let source = route(vec![verbatim("Home", &title)]).source();
        let from = source.find(opening).unwrap() + opening.len();
        let to = source.rfind("), } } }").unwrap();
        assert_eq!(
            parse_title(&Some(source[from..to].to_string())),
            Some(title.clone()),
            "U+{:04X}",
            code
        );
    }
}
