use error_level_derive::classify::{
    extract_variants, marked_variants, with_log_level, DiagKind, TagError,
};
use error_level_derive::dispatch::error_level_of;
use error_level_derive::emit::{impl_error_level_macro, GenError};
use error_level_derive::level::Level;
use error_level_derive::model::{
    ArgToken, Attr, DataDesc, FieldType, FieldsDesc, TypeDesc, VariantDesc,
};

fn level_attr(sev: &str) -> Attr {
    Attr {
        name: "level".to_string(),
        args: Some(vec![ArgToken::Ident(sev.to_string())]),
    }
}

fn leveled(name: &str, sev: &str) -> VariantDesc {
    VariantDesc {
        ident: name.to_string(),
        attrs: vec![level_attr(sev)],
        fields: FieldsDesc::Unit,
    }
}

fn enum_desc(name: &str, vs: Vec<VariantDesc>) -> TypeDesc {
    TypeDesc {
        ident: name.to_string(),
        data: DataDesc::Enum(vs),
    }
}

#[test]
fn exact_code_for_one_leveled_variant() {
    let desc = enum_desc("E", vec![leveled("A", "Warn")]);
    let generated = impl_error_level_macro(&desc).unwrap();
    assert!(generated.is_success());
    assert_eq!(
        generated.code,
        "impl ErrorLevel for E {\n\
         \x20   fn error_level(&self) -> Option<log::Level> {\n\
         \x20       match self {\n\
         \x20           E::A => Some(log::Level::Warn),\n\
         \x20       }\n\
         \x20   }\n\
         }\n"
    );
}

#[test]
fn exact_code_with_delegation_and_suppression() {
    let desc = enum_desc(
        "E",
        vec![
            leveled("A", "No"),
            VariantDesc {
                ident: "B".to_string(),
                attrs: vec![],
                fields: FieldsDesc::Unnamed(vec![FieldType::Named("Inner".to_string())]),
            },
        ],
    );
    let generated = impl_error_level_macro(&desc).unwrap();
    assert!(generated.is_success());
    assert_eq!(
        generated.code,
        "impl ErrorLevel for E {\n\
         \x20   fn error_level(&self) -> Option<log::Level> {\n\
         \x20       match self {\n\
         \x20           E::A => None,\n\
         \x20           E::B(inn_err) => inn_err.error_level(),\n\
         \x20       }\n\
         \x20   }\n\
         }\n"
    );
}

#[test]
fn generation_is_idempotent() {
    let make = || {
        enum_desc(
            "E",
            vec![
                leveled("A", "Error"),
                leveled("B", "No"),
                VariantDesc {
                    ident: "C".to_string(),
                    attrs: vec![],
                    fields: FieldsDesc::Unnamed(vec![FieldType::Named("Inner".to_string())]),
                },
            ],
        )
    };
    let first = impl_error_level_macro(&make()).unwrap();
    let second = impl_error_level_macro(&make()).unwrap();
    assert_eq!(first.code, second.code);
    assert_eq!(first.diagnostics.len(), second.diagnostics.len());
}

#[test]
fn struct_shape_is_rejected() {
    let desc = TypeDesc {
        ident: "S".to_string(),
        data: DataDesc::NotEnum,
    };
    let err = impl_error_level_macro(&desc).unwrap_err();
    assert!(matches!(err, GenError::NotAnEnum));
    assert_eq!(err.message(), "only enumerations are supported");
}

#[test]
fn unknown_severity_name_fails_generation() {
    // lowercase spelling is not in the vocabulary: no default is substituted
    let desc = enum_desc("E", vec![leveled("A", "warn")]);
    match impl_error_level_macro(&desc) {
        Err(GenError::Tag(f)) => {
            assert_eq!(f.variant_id, "A");
            assert_eq!(f.error, TagError::UnknownSeverity);
        }
        _ => panic!("generation must fail on an unrecognized severity name"),
    }
}

#[test]
fn misspelled_severity_name_fails_generation() {
    let desc = enum_desc("E", vec![leveled("A", "Warning")]);
    let err = impl_error_level_macro(&desc).unwrap_err();
    assert_eq!(
        err.message(),
        "options are only: No, Trace, Debug, Info, Warn or Error"
    );
}

#[test]
fn severity_vocabulary_is_exact() {
    assert_eq!(Level::from_ident(&"No".to_string()), Some(Level::No));
    assert_eq!(Level::from_ident(&"Trace".to_string()), Some(Level::Trace));
    assert_eq!(Level::from_ident(&"Debug".to_string()), Some(Level::Debug));
    assert_eq!(Level::from_ident(&"Info".to_string()), Some(Level::Info));
    assert_eq!(Level::from_ident(&"Warn".to_string()), Some(Level::Warn));
    assert_eq!(Level::from_ident(&"Error".to_string()), Some(Level::Error));
    assert_eq!(Level::from_ident(&"no".to_string()), None);
    assert_eq!(Level::from_ident(&"WARN".to_string()), None);
    assert_eq!(Level::from_ident(&"".to_string()), None);
}

#[test]
fn tag_without_argument_fails() {
    let v = VariantDesc {
        ident: "A".to_string(),
        attrs: vec![Attr {
            name: "level".to_string(),
            args: Some(vec![]),
        }],
        fields: FieldsDesc::Unit,
    };
    assert_eq!(with_log_level(&v), Err(TagError::NoArgument));
    let err = impl_error_level_macro(&enum_desc("E", vec![v])).unwrap_err();
    assert_eq!(err.message(), "the level attribute takes one argument");
}

#[test]
fn tag_with_literal_argument_fails() {
    let v = VariantDesc {
        ident: "A".to_string(),
        attrs: vec![Attr {
            name: "level".to_string(),
            args: Some(vec![ArgToken::Lit]),
        }],
        fields: FieldsDesc::Unit,
    };
    assert_eq!(with_log_level(&v), Err(TagError::NotAnIdent));
}

#[test]
fn tag_with_compound_argument_fails() {
    let v = VariantDesc {
        ident: "A".to_string(),
        attrs: vec![Attr {
            name: "level".to_string(),
            args: Some(vec![ArgToken::Compound]),
        }],
        fields: FieldsDesc::Unit,
    };
    assert_eq!(with_log_level(&v), Err(TagError::NotAnIdent));
    let err = impl_error_level_macro(&enum_desc("E", vec![v])).unwrap_err();
    assert_eq!(
        err.message(),
        "the level argument must be a single simple identifier"
    );
}

#[test]
fn first_level_tag_wins() {
    let v = VariantDesc {
        ident: "A".to_string(),
        attrs: vec![
            Attr {
                name: "doc".to_string(),
                args: None,
            },
            level_attr("Warn"),
            level_attr("Info"),
        ],
        fields: FieldsDesc::Unit,
    };
    assert_eq!(with_log_level(&v), Ok(Some(Level::Warn)));
}

#[test]
fn bare_level_attribute_is_not_a_tag() {
    // only the list form `level(...)` is recognized
    let v = VariantDesc {
        ident: "A".to_string(),
        attrs: vec![Attr {
            name: "level".to_string(),
            args: None,
        }],
        fields: FieldsDesc::Unit,
    };
    assert_eq!(with_log_level(&v), Ok(None));
}

#[test]
fn reference_field_delegates() {
    let vs = vec![VariantDesc {
        ident: "A".to_string(),
        attrs: vec![],
        fields: FieldsDesc::Unnamed(vec![FieldType::NamedRef("Inner".to_string())]),
    }];
    let (marked, w_inner, diags) = extract_variants(&vs).unwrap();
    assert!(marked.is_empty());
    assert!(diags.is_empty());
    assert_eq!(w_inner[0].inner_id, "Inner");
    assert_eq!(
        error_level_of(&marked, &w_inner, &"A".to_string(), Some(Level::Error)),
        Some(Some(Level::Error))
    );
}

#[test]
fn delegation_returns_exactly_the_inner_level() {
    let vs = vec![
        leveled("A", "Warn"),
        VariantDesc {
            ident: "B".to_string(),
            attrs: vec![],
            fields: FieldsDesc::Unnamed(vec![FieldType::Named("Inner".to_string())]),
        },
    ];
    let (marked, w_inner, _) = extract_variants(&vs).unwrap();
    let b = "B".to_string();
    assert_eq!(error_level_of(&marked, &w_inner, &b, None), Some(None));
    assert_eq!(
        error_level_of(&marked, &w_inner, &b, Some(Level::Trace)),
        Some(Some(Level::Trace))
    );
    assert_eq!(
        error_level_of(&marked, &w_inner, &b, Some(Level::No)),
        Some(Some(Level::No))
    );
}

#[test]
fn suppressed_variant_reports_absent() {
    let vs = vec![leveled("Quiet", "No")];
    let (marked, w_inner, _) = extract_variants(&vs).unwrap();
    assert_eq!(
        error_level_of(&marked, &w_inner, &"Quiet".to_string(), None),
        Some(None)
    );
}

#[test]
fn uncovered_variant_has_no_arm() {
    let vs = vec![leveled("A", "Warn")];
    let (marked, w_inner, _) = extract_variants(&vs).unwrap();
    assert_eq!(error_level_of(&marked, &w_inner, &"B".to_string(), None), None);
}

#[test]
fn named_fields_variant_needs_a_tag() {
    let vs = vec![VariantDesc {
        ident: "A".to_string(),
        attrs: vec![],
        fields: FieldsDesc::Named,
    }];
    let (_, _, diags) = extract_variants(&vs).unwrap();
    assert_eq!(diags.len(), 1);
    assert_eq!(diags[0].kind, DiagKind::MissingTag);
}

#[test]
fn two_unnamed_fields_are_not_delegatable() {
    let vs = vec![VariantDesc {
        ident: "A".to_string(),
        attrs: vec![],
        fields: FieldsDesc::Unnamed(vec![
            FieldType::Named("X".to_string()),
            FieldType::Named("Y".to_string()),
        ]),
    }];
    let (_, _, diags) = extract_variants(&vs).unwrap();
    assert_eq!(diags.len(), 1);
    assert_eq!(diags[0].kind, DiagKind::NotDelegatable);
}

#[test]
fn empty_unnamed_variant_needs_a_tag() {
    let vs = vec![VariantDesc {
        ident: "A".to_string(),
        attrs: vec![],
        fields: FieldsDesc::Unnamed(vec![]),
    }];
    let (_, _, diags) = extract_variants(&vs).unwrap();
    assert_eq!(diags.len(), 1);
    assert_eq!(diags[0].kind, DiagKind::MissingTag);
}

#[test]
fn tagged_variant_keeps_its_tag_whatever_its_fields() {
    let vs = vec![VariantDesc {
        ident: "A".to_string(),
        attrs: vec![level_attr("Error")],
        fields: FieldsDesc::Unnamed(vec![FieldType::Opaque]),
    }];
    let (marked, w_inner, diags) = extract_variants(&vs).unwrap();
    assert_eq!(marked.len(), 1);
    assert_eq!(marked[0].level, Level::Error);
    assert!(w_inner.is_empty());
    assert!(diags.is_empty());
}

#[test]
fn every_invalid_variant_is_reported() {
    let vs = vec![
        VariantDesc {
            ident: "A".to_string(),
            attrs: vec![],
            fields: FieldsDesc::Unit,
        },
        leveled("B", "Info"),
        VariantDesc {
            ident: "C".to_string(),
            attrs: vec![],
            fields: FieldsDesc::Unnamed(vec![FieldType::Opaque]),
        },
        VariantDesc {
            ident: "D".to_string(),
            attrs: vec![],
            fields: FieldsDesc::Named,
        },
    ];
    let generated = impl_error_level_macro(&enum_desc("E", vs)).unwrap();
    assert!(!generated.is_success());
    let names: Vec<&str> = generated
        .diagnostics
        .iter()
        .map(|d| d.variant_id.as_str())
        .collect();
    assert_eq!(names, vec!["A", "C", "D"]);
}

#[test]
fn empty_enum_generates_empty_dispatch() {
    let generated = impl_error_level_macro(&enum_desc("E", vec![])).unwrap();
    assert!(generated.is_success());
    assert_eq!(
        generated.code,
        "impl ErrorLevel for E {\n\
         \x20   fn error_level(&self) -> Option<log::Level> {\n\
         \x20       match self {\n\
         \x20       }\n\
         \x20   }\n\
         }\n"
    );
}

#[test]
fn marked_variants_lists_the_leveled_group() {
    let vs = vec![
        leveled("A", "Warn"),
        VariantDesc {
            ident: "B".to_string(),
            attrs: vec![],
            fields: FieldsDesc::Unnamed(vec![FieldType::Named("Inner".to_string())]),
        },
        leveled("C", "No"),
    ];
    let marked = marked_variants(&vs).unwrap();
    assert_eq!(marked.len(), 2);
    assert_eq!(marked[0].variant_id, "A");
    assert_eq!(marked[0].level, Level::Warn);
    assert_eq!(marked[1].variant_id, "C");
    assert_eq!(marked[1].level, Level::No);
}

#[test]
fn reported_levels_match_declarations() {
    assert_eq!(Level::No.reported(), None);
    assert_eq!(Level::Trace.reported(), Some(Level::Trace));
    assert_eq!(Level::Debug.reported(), Some(Level::Debug));
    assert_eq!(Level::Info.reported(), Some(Level::Info));
    assert_eq!(Level::Warn.reported(), Some(Level::Warn));
    assert_eq!(Level::Error.reported(), Some(Level::Error));
}

#[test]
fn arm_expressions_name_the_declared_level() {
    assert_eq!(Level::No.to_expr(), "None");
    assert_eq!(Level::Trace.to_expr(), "Some(log::Level::Trace)");
    assert_eq!(Level::Debug.to_expr(), "Some(log::Level::Debug)");
    assert_eq!(Level::Info.to_expr(), "Some(log::Level::Info)");
    assert_eq!(Level::Warn.to_expr(), "Some(log::Level::Warn)");
    assert_eq!(Level::Error.to_expr(), "Some(log::Level::Error)");
}
