use error_level_derive::classify::{extract_variants, DiagKind};
use error_level_derive::dispatch::error_level_of;
use error_level_derive::emit::impl_error_level_macro;
use error_level_derive::level::Level;
use error_level_derive::model::{
    ArgToken, Attr, DataDesc, FieldType, FieldsDesc, TypeDesc, VariantDesc,
};

fn leveled(name: &str, sev: &str) -> VariantDesc {
    VariantDesc {
        ident: name.to_string(),
        attrs: vec![Attr {
            name: "level".to_string(),
            args: Some(vec![ArgToken::Ident(sev.to_string())]),
        }],
        fields: FieldsDesc::Unit,
    }
}

fn delegating(name: &str, inner: &str) -> VariantDesc {
    VariantDesc {
        ident: name.to_string(),
        attrs: vec![],
        fields: FieldsDesc::Unnamed(vec![FieldType::Named(inner.to_string())]),
    }
}

fn reported_level(vs: &Vec<VariantDesc>, variant: &str, inner: Option<Level>) -> Option<Level> {
    let (marked, w_inner, _) = extract_variants(vs).unwrap();
    error_level_of(&marked, &w_inner, &variant.to_string(), inner)
        .expect("no dispatch arm covers the variant")
}

#[test]
fn it_works() {
    let outer = vec![leveled("Error0", "Info")];
    let custom = vec![
        leveled("ErrorA", "Warn"),
        leveled("ErrorB", "Info"),
        leveled("ErrorC", "No"),
        delegating("ErrorD", "OuterError"),
    ];
    let custom_desc = TypeDesc {
        ident: "CustomError".to_string(),
        data: DataDesc::Enum(custom.clone()),
    };
    assert!(impl_error_level_macro(&custom_desc).unwrap().is_success());
    let _ = reported_level(&outer, "Error0", None);

    assert_eq!(reported_level(&custom, "ErrorA", None), Some(Level::Warn));
    // the declared severity is returned exactly, so a variant tagged Info is
    // reported at Info
    assert_eq!(reported_level(&custom, "ErrorB", None), Some(Level::Info));
}

#[test]
#[allow(non_snake_case)]
fn does_not_implement_ErrorLevel() {
    // the wrapped type is recorded without checking that it provides the
    // capability itself: that obligation surfaces at the use site, outside
    // this component
    let custom = vec![
        leveled("ErrorA", "Warn"),
        leveled("ErrorB", "Info"),
        leveled("ErrorC", "No"),
        delegating("ErrorD", "ErrorWithoutImpl"),
    ];
    let custom_desc = TypeDesc {
        ident: "CustomError".to_string(),
        data: DataDesc::Enum(custom.clone()),
    };
    let generated = impl_error_level_macro(&custom_desc).unwrap();
    assert!(generated.is_success());
    let (_, w_inner, _) = extract_variants(&custom).unwrap();
    assert_eq!(w_inner.len(), 1);
    assert_eq!(w_inner[0].variant_id, "ErrorD");
    assert_eq!(w_inner[0].inner_id, "ErrorWithoutImpl");
}

#[test]
fn should_not_compile() {
    // ErrorC has no tag and nothing to delegate to; ErrorD wraps a tuple type,
    // which is not delegatable: generation reports both and fails
    let custom = vec![
        leveled("ErrorA", "Warn"),
        leveled("ErrorB", "Info"),
        VariantDesc {
            ident: "ErrorC".to_string(),
            attrs: vec![],
            fields: FieldsDesc::Unit,
        },
        VariantDesc {
            ident: "ErrorD".to_string(),
            attrs: vec![],
            fields: FieldsDesc::Unnamed(vec![FieldType::Opaque]),
        },
    ];
    let custom_desc = TypeDesc {
        ident: "CustomError".to_string(),
        data: DataDesc::Enum(custom),
    };
    let generated = impl_error_level_macro(&custom_desc).unwrap();
    assert!(!generated.is_success());
    assert_eq!(generated.diagnostics.len(), 2);
    assert_eq!(generated.diagnostics[0].variant_id, "ErrorC");
    assert_eq!(generated.diagnostics[0].kind, DiagKind::MissingTag);
    assert_eq!(generated.diagnostics[1].variant_id, "ErrorD");
    assert_eq!(generated.diagnostics[1].kind, DiagKind::NotDelegatable);
    assert_eq!(generated.diagnostics[0].kind.message(), "needs a Severity tag");
    assert_eq!(
        generated.diagnostics[1].kind.message(),
        "variant content type is not eligible for delegation; add a Severity tag instead"
    );
}
