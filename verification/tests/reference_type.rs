use turbopack_core::handles::{ModuleHandle, ModulePartHandle};
use turbopack_core::inner_assets::InnerAssets;
use turbopack_core::reference_type::{
    CommonJsReferenceSubType, CssReferenceSubType, EcmaScriptModulesReferenceSubType,
    EntryReferenceSubType, ImportContext, ReferenceType, TypeScriptReferenceSubType,
    UrlReferenceSubType,
};

fn sample_types() -> Vec<ReferenceType> {
    vec![
        ReferenceType::CommonJs(CommonJsReferenceSubType::Undefined),
        ReferenceType::CommonJs(CommonJsReferenceSubType::Custom(3)),
        ReferenceType::EcmaScriptModules(EcmaScriptModulesReferenceSubType::Import),
        ReferenceType::EcmaScriptModules(EcmaScriptModulesReferenceSubType::DynamicImport),
        ReferenceType::EcmaScriptModules(EcmaScriptModulesReferenceSubType::ImportPart(
            ModulePartHandle { id: 4 },
        )),
        ReferenceType::EcmaScriptModules(EcmaScriptModulesReferenceSubType::Undefined),
        ReferenceType::Css(CssReferenceSubType::AtImport(None)),
        ReferenceType::Css(CssReferenceSubType::Compose),
        ReferenceType::Css(CssReferenceSubType::Internal),
        ReferenceType::Css(CssReferenceSubType::Undefined),
        ReferenceType::Url(UrlReferenceSubType::EcmaScriptNewUrl),
        ReferenceType::Url(UrlReferenceSubType::CssUrl),
        ReferenceType::Url(UrlReferenceSubType::Undefined),
        ReferenceType::TypeScript(TypeScriptReferenceSubType::Undefined),
        ReferenceType::Entry(EntryReferenceSubType::Web),
        ReferenceType::Entry(EntryReferenceSubType::AppRoute),
        ReferenceType::Entry(EntryReferenceSubType::Undefined),
        ReferenceType::Runtime,
        ReferenceType::Internal(InnerAssets::empty()),
        ReferenceType::Undefined,
    ]
}

#[test]
fn includes_is_reflexive() {
    for v in sample_types() {
        assert!(v.includes(&v), "value should include itself");
    }
}

#[test]
fn undefined_includes_everything() {
    for v in sample_types() {
        assert!(ReferenceType::Undefined.includes(&v));
    }
}

#[test]
fn wildcard_subtype_subsumes_every_subtype_of_its_kind() {
    let wildcard = ReferenceType::CommonJs(CommonJsReferenceSubType::Undefined);
    assert!(wildcard.includes(&ReferenceType::CommonJs(CommonJsReferenceSubType::Custom(9))));

    let wildcard = ReferenceType::EcmaScriptModules(EcmaScriptModulesReferenceSubType::Undefined);
    assert!(wildcard.includes(&ReferenceType::EcmaScriptModules(
        EcmaScriptModulesReferenceSubType::Import
    )));
    assert!(wildcard.includes(&ReferenceType::EcmaScriptModules(
        EcmaScriptModulesReferenceSubType::ImportPart(ModulePartHandle { id: 11 })
    )));

    let wildcard = ReferenceType::Css(CssReferenceSubType::Undefined);
    assert!(wildcard.includes(&ReferenceType::Css(CssReferenceSubType::AtImport(None))));
    assert!(wildcard.includes(&ReferenceType::Css(CssReferenceSubType::Compose)));

    let wildcard = ReferenceType::Entry(EntryReferenceSubType::Undefined);
    assert!(wildcard.includes(&ReferenceType::Entry(EntryReferenceSubType::Middleware)));
}

#[test]
fn wildcard_subtype_is_subsumed_only_by_itself() {
    let wildcard = ReferenceType::Css(CssReferenceSubType::Undefined);
    assert!(wildcard.includes(&wildcard));
    assert!(!ReferenceType::Css(CssReferenceSubType::Compose).includes(&wildcard));
    assert!(!ReferenceType::Css(CssReferenceSubType::AtImport(None)).includes(&wildcard));
    assert!(!ReferenceType::Url(UrlReferenceSubType::CssUrl)
        .includes(&ReferenceType::Url(UrlReferenceSubType::Undefined)));
}

#[test]
fn distinct_non_wildcard_subtypes_never_subsume() {
    let import = ReferenceType::EcmaScriptModules(EcmaScriptModulesReferenceSubType::Import);
    let dynamic =
        ReferenceType::EcmaScriptModules(EcmaScriptModulesReferenceSubType::DynamicImport);
    assert!(!import.includes(&dynamic));
    assert!(!dynamic.includes(&import));

    let part_a = ReferenceType::EcmaScriptModules(EcmaScriptModulesReferenceSubType::ImportPart(
        ModulePartHandle { id: 1 },
    ));
    let part_b = ReferenceType::EcmaScriptModules(EcmaScriptModulesReferenceSubType::ImportPart(
        ModulePartHandle { id: 2 },
    ));
    assert!(!part_a.includes(&part_b));
    assert!(part_a.includes(&part_a));

    assert!(!ReferenceType::Url(UrlReferenceSubType::EcmaScriptNewUrl)
        .includes(&ReferenceType::Url(UrlReferenceSubType::CssUrl)));
    assert!(!ReferenceType::Css(CssReferenceSubType::Compose)
        .includes(&ReferenceType::Css(CssReferenceSubType::Internal)));
}

#[test]
fn at_import_matching_ignores_the_carried_context() {
    let populated = ImportContext::new(
        vec!["base".to_string()],
        vec!["screen".to_string()],
        vec!["display: grid".to_string()],
    );
    let with_context =
        ReferenceType::Css(CssReferenceSubType::AtImport(Some(Box::new(populated))));
    let without_context = ReferenceType::Css(CssReferenceSubType::AtImport(None));

    assert!(with_context.includes(&without_context));
    assert!(without_context.includes(&with_context));

    let other = ImportContext::new(vec!["other".to_string()], vec![], vec![]);
    let with_other_context =
        ReferenceType::Css(CssReferenceSubType::AtImport(Some(Box::new(other))));
    assert!(with_context.includes(&with_other_context));
}

#[test]
fn matching_never_crosses_top_level_kinds() {
    let cjs = ReferenceType::CommonJs(CommonJsReferenceSubType::Undefined);
    let esm = ReferenceType::EcmaScriptModules(EcmaScriptModulesReferenceSubType::Undefined);
    let css = ReferenceType::Css(CssReferenceSubType::Undefined);
    assert!(!cjs.includes(&esm));
    assert!(!esm.includes(&css));
    assert!(!css.includes(&cjs));
    assert!(!ReferenceType::Runtime.includes(&cjs));
    assert!(!cjs.includes(&ReferenceType::Undefined));
}

#[test]
fn runtime_matches_only_runtime() {
    assert!(ReferenceType::Runtime.includes(&ReferenceType::Runtime));
    assert!(!ReferenceType::Runtime.includes(&ReferenceType::Internal(InnerAssets::empty())));
}

#[test]
fn internal_matches_any_internal() {
    let mut assets = InnerAssets::empty();
    assets.insert("ASSET".to_string(), ModuleHandle { id: 5 });
    let a = ReferenceType::Internal(InnerAssets::empty());
    let b = ReferenceType::Internal(assets);
    assert!(a.includes(&b));
    assert!(b.includes(&a));
}

#[test]
fn checked_includes_reports_unsupported_custom_comparisons() {
    let c1 = ReferenceType::Custom(1);
    let c2 = ReferenceType::Custom(2);
    assert_eq!(c1.checked_includes(&c2), None);
    assert_eq!(c1.checked_includes(&c1), Some(true));
    assert_eq!(
        c1.checked_includes(&ReferenceType::CommonJs(CommonJsReferenceSubType::Undefined)),
        None
    );
    assert_eq!(
        ReferenceType::Undefined.checked_includes(&c2),
        Some(true)
    );
    assert_eq!(
        ReferenceType::Runtime.checked_includes(&ReferenceType::Runtime),
        Some(true)
    );
}

#[test]
fn is_internal_holds_exactly_for_internal_reference_types() {
    assert!(ReferenceType::Internal(InnerAssets::empty()).is_internal());
    assert!(ReferenceType::Css(CssReferenceSubType::Internal).is_internal());
    assert!(ReferenceType::Runtime.is_internal());
    assert!(!ReferenceType::CommonJs(CommonJsReferenceSubType::Undefined).is_internal());
    assert!(!ReferenceType::Css(CssReferenceSubType::AtImport(None)).is_internal());
    assert!(!ReferenceType::Undefined.is_internal());
}

#[test]
fn display_name_labels_each_kind() {
    assert_eq!(
        ReferenceType::CommonJs(CommonJsReferenceSubType::Undefined).display_name(),
        "commonjs"
    );
    assert_eq!(
        ReferenceType::EcmaScriptModules(EcmaScriptModulesReferenceSubType::Import).display_name(),
        "EcmaScript Modules"
    );
    assert_eq!(
        ReferenceType::EcmaScriptModules(EcmaScriptModulesReferenceSubType::ImportPart(
            ModulePartHandle { id: 1 }
        ))
        .display_name(),
        "EcmaScript Modules (part)"
    );
    assert_eq!(
        ReferenceType::Css(CssReferenceSubType::Compose).display_name(),
        "css"
    );
    assert_eq!(
        ReferenceType::Url(UrlReferenceSubType::CssUrl).display_name(),
        "url"
    );
    assert_eq!(
        ReferenceType::TypeScript(TypeScriptReferenceSubType::Undefined).display_name(),
        "typescript"
    );
    assert_eq!(
        ReferenceType::Entry(EntryReferenceSubType::Page).display_name(),
        "entry"
    );
    assert_eq!(ReferenceType::Runtime.display_name(), "runtime");
    assert_eq!(
        ReferenceType::Internal(InnerAssets::empty()).display_name(),
        "internal"
    );
    assert_eq!(ReferenceType::Undefined.display_name(), "undefined");
}

#[test]
fn default_ecmascript_subtype_is_undefined() {
    assert_eq!(
        EcmaScriptModulesReferenceSubType::default(),
        EcmaScriptModulesReferenceSubType::Undefined
    );
}
