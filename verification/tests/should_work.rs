use error_level_derive::classify::extract_variants;
use error_level_derive::dispatch::error_level_of;
use error_level_derive::emit::impl_error_level_macro;
use error_level_derive::level::Level;
use error_level_derive::model::{
    ArgToken, Attr, DataDesc, FieldType, FieldsDesc, TypeDesc, VariantDesc,
};

fn level_attr(sev: &str) -> Attr {
    Attr {
        name: "level".to_string(),
        args: Some(vec![ArgToken::Ident(sev.to_string())]),
    }
}

fn leveled(name: &str, sev: &str) -> VariantDesc {
    VariantDesc {
        ident: name.to_string(),
        attrs: vec![level_attr(sev)],
        fields: FieldsDesc::Unit,
    }
}

fn delegating(name: &str, inner: &str) -> VariantDesc {
    VariantDesc {
        ident: name.to_string(),
        attrs: vec![],
        fields: FieldsDesc::Unnamed(vec![FieldType::Named(inner.to_string())]),
    }
}

/// The level a value of the described enum is reported at: `variant` names
/// the value's variant, `inner` is what the wrapped value reports when the
/// variant delegates.
fn reported_level(vs: &Vec<VariantDesc>, variant: &str, inner: Option<Level>) -> Option<Level> {
    let (marked, w_inner, diags) = extract_variants(vs).unwrap();
    assert!(diags.is_empty());
    error_level_of(&marked, &w_inner, &variant.to_string(), inner)
        .expect("no dispatch arm covers the variant")
}

#[test]
fn simple() {
    let outer = vec![leveled("Error0", "Info")];
    let outer_desc = TypeDesc {
        ident: "OuterError".to_string(),
        data: DataDesc::Enum(outer.clone()),
    };
    assert!(impl_error_level_macro(&outer_desc).unwrap().is_success());

    let custom = vec![
        leveled("ErrorA", "Warn"),
        leveled("ErrorB", "Info"),
        leveled("ErrorC", "No"),
        delegating("ErrorD", "OuterError"),
    ];
    let custom_desc = TypeDesc {
        ident: "CustomError".to_string(),
        data: DataDesc::Enum(custom.clone()),
    };
    assert!(impl_error_level_macro(&custom_desc).unwrap().is_success());

    let d_inner = reported_level(&outer, "Error0", None);
    assert_eq!(reported_level(&custom, "ErrorA", None), Some(Level::Warn));
    assert_eq!(reported_level(&custom, "ErrorB", None), Some(Level::Info));
    assert_eq!(reported_level(&custom, "ErrorC", None), None);
    assert_eq!(reported_level(&custom, "ErrorD", d_inner), Some(Level::Info));
}

#[test]
fn with_path_seperator() {
    let inner_enum = vec![leveled("Error00", "Info")];
    let custom = vec![
        leveled("ErrorA", "Warn"),
        leveled("ErrorB", "Info"),
        leveled("ErrorC", "No"),
        delegating("ErrorD", "example_mod::Error"),
    ];
    let custom_desc = TypeDesc {
        ident: "CustomError".to_string(),
        data: DataDesc::Enum(custom.clone()),
    };
    assert!(impl_error_level_macro(&custom_desc).unwrap().is_success());

    let d_inner = reported_level(&inner_enum, "Error00", None);
    assert_eq!(reported_level(&custom, "ErrorA", None), Some(Level::Warn));
    assert_eq!(reported_level(&custom, "ErrorB", None), Some(Level::Info));
    assert_eq!(reported_level(&custom, "ErrorC", None), None);
    assert_eq!(reported_level(&custom, "ErrorD", d_inner), Some(Level::Info));
}

#[test]
fn with_inner_attribute() {
    // every variant also carries an unrelated `error("test")` attribute, which
    // must not interfere with the level tags
    let unrelated = Attr {
        name: "error".to_string(),
        args: Some(vec![ArgToken::Lit]),
    };
    let with_extra = |name: &str, sev: &str| VariantDesc {
        ident: name.to_string(),
        attrs: vec![level_attr(sev), unrelated.clone()],
        fields: FieldsDesc::Unit,
    };
    let inner_enum = vec![leveled("Error", "Info")];
    let custom = vec![
        with_extra("ErrorA", "Warn"),
        with_extra("ErrorB", "Info"),
        with_extra("ErrorC", "No"),
        VariantDesc {
            ident: "ErrorD".to_string(),
            attrs: vec![unrelated.clone()],
            fields: FieldsDesc::Unnamed(vec![FieldType::Named("InnerE".to_string())]),
        },
    ];
    let custom_desc = TypeDesc {
        ident: "CustomError".to_string(),
        data: DataDesc::Enum(custom.clone()),
    };
    assert!(impl_error_level_macro(&custom_desc).unwrap().is_success());

    let d_inner = reported_level(&inner_enum, "Error", None);
    assert_eq!(reported_level(&custom, "ErrorA", None), Some(Level::Warn));
    assert_eq!(reported_level(&custom, "ErrorB", None), Some(Level::Info));
    assert_eq!(reported_level(&custom, "ErrorC", None), None);
    assert_eq!(reported_level(&custom, "ErrorD", d_inner), Some(Level::Info));
}
