use transform_options::{
    resolve_jsx_runtime, resolve_refresh_setting, resolve_rewrite_import_extensions,
    ArrowFunctionsBindingOptions, ArrowFunctionsConfig, ES2015BindingOptions, ES2015Config, Either,
    IsolatedDeclarationsOptions, JsxConfig, JsxOptions, JsxRuntime, ReactRefreshConfig,
    ReactRefreshOptions, ResolvedConfig, RewriteExtensionsMode, TransformOptions,
    TypeScriptConfig, TypeScriptOptions,
};

fn text(s: &str) -> Option<String> {
    Some(s.to_string())
}

fn default_refresh() -> ReactRefreshConfig {
    ReactRefreshConfig {
        refresh_reg: "$RefreshReg$".to_string(),
        refresh_sig: "$RefreshSig$".to_string(),
        emit_full_signatures: false,
    }
}

fn rewrite_mode(value: Either<bool, String>) -> Option<RewriteExtensionsMode> {
    let options = TypeScriptOptions { rewrite_import_extensions: Some(value), ..Default::default() };
    options.resolve().rewrite_import_extensions
}

fn runtime(value: &str) -> JsxRuntime {
    JsxOptions { runtime: text(value), ..Default::default() }.resolve().runtime
}

#[test]
fn empty_options_resolve_to_engine_defaults() {
    let resolved = TransformOptions::default().resolve("/work".to_string());
    let expected = ResolvedConfig {
        cwd: "/work".to_string(),
        typescript: TypeScriptConfig {
            jsx_pragma: "React.createElement".to_string(),
            jsx_pragma_frag: "React.Fragment".to_string(),
            only_remove_type_imports: false,
            allow_namespaces: true,
            allow_declare_fields: true,
            optimize_const_enums: false,
            declaration: None,
            rewrite_import_extensions: None,
        },
        jsx: JsxConfig {
            runtime: JsxRuntime::Automatic,
            development: false,
            throw_if_namespace: true,
            pure: true,
            import_source: None,
            pragma: None,
            pragma_frag: None,
            use_built_ins: None,
            use_spread: None,
            refresh: None,
        },
        es2015: ES2015Config { arrow_function: None },
        sourcemap: false,
    };
    assert_eq!(resolved, expected);
}

#[test]
fn rewrite_import_extensions_true_is_rewrite() {
    assert_eq!(rewrite_mode(Either::A(true)), Some(RewriteExtensionsMode::Rewrite));
}

#[test]
fn rewrite_import_extensions_rewrite_string_is_rewrite() {
    assert_eq!(rewrite_mode(Either::B("rewrite".to_string())), Some(RewriteExtensionsMode::Rewrite));
}

#[test]
fn rewrite_import_extensions_remove_string_is_remove() {
    assert_eq!(rewrite_mode(Either::B("remove".to_string())), Some(RewriteExtensionsMode::Remove));
}

#[test]
fn rewrite_import_extensions_false_is_absent() {
    assert_eq!(rewrite_mode(Either::A(false)), None);
}

#[test]
fn rewrite_import_extensions_unknown_string_is_absent() {
    assert_eq!(rewrite_mode(Either::B("bogus".to_string())), None);
    assert_eq!(rewrite_mode(Either::B("Rewrite".to_string())), None);
    assert_eq!(resolve_rewrite_import_extensions(None), None);
}

#[test]
fn runtime_classic_is_classic() {
    assert_eq!(runtime("classic"), JsxRuntime::Classic);
    assert_eq!(resolve_jsx_runtime(text("classic")), JsxRuntime::Classic);
}

#[test]
fn runtime_wrong_case_falls_back_to_automatic() {
    assert_eq!(runtime("AUTOMATIC"), JsxRuntime::Automatic);
    assert_eq!(runtime("Classic"), JsxRuntime::Automatic);
    assert_eq!(runtime("automatic"), JsxRuntime::Automatic);
    assert_eq!(resolve_jsx_runtime(None), JsxRuntime::Automatic);
}

#[test]
fn refresh_true_uses_default_settings() {
    let jsx = JsxOptions { refresh: Some(Either::A(true)), ..Default::default() }.resolve();
    assert_eq!(jsx.refresh, Some(default_refresh()));
}

#[test]
fn refresh_object_keeps_given_identifier() {
    let refresh = ReactRefreshOptions {
        refresh_reg: text("$Custom$"),
        refresh_sig: None,
        emit_full_signatures: None,
    };
    let jsx = JsxOptions { refresh: Some(Either::B(refresh)), ..Default::default() }.resolve();
    let expected = ReactRefreshConfig {
        refresh_reg: "$Custom$".to_string(),
        refresh_sig: "$RefreshSig$".to_string(),
        emit_full_signatures: false,
    };
    assert_eq!(jsx.refresh, Some(expected));
}

#[test]
fn refresh_false_or_absent_is_off() {
    assert_eq!(resolve_refresh_setting(Some(Either::A(false))), None);
    assert_eq!(resolve_refresh_setting(None), None);
}

#[test]
fn refresh_object_with_every_field() {
    let refresh = ReactRefreshOptions {
        refresh_reg: text("reg"),
        refresh_sig: text("sig"),
        emit_full_signatures: Some(true),
    };
    let expected = ReactRefreshConfig {
        refresh_reg: "reg".to_string(),
        refresh_sig: "sig".to_string(),
        emit_full_signatures: true,
    };
    assert_eq!(refresh.resolve(), expected);
}

#[test]
fn optimize_const_enums_is_always_off() {
    let options = TypeScriptOptions {
        jsx_pragma: text("h"),
        jsx_pragma_frag: text("Fragment"),
        only_remove_type_imports: Some(true),
        allow_namespaces: Some(false),
        allow_declare_fields: Some(false),
        declaration: None,
        rewrite_import_extensions: Some(Either::A(true)),
    };
    assert!(!options.resolve().optimize_const_enums);
    assert!(!TypeScriptOptions::default().resolve().optimize_const_enums);
}

#[test]
fn typescript_fields_override_defaults() {
    let declaration = IsolatedDeclarationsOptions { strip_internal: Some(true), sourcemap: None };
    let options = TypeScriptOptions {
        jsx_pragma: text("h"),
        jsx_pragma_frag: text("Fragment"),
        only_remove_type_imports: Some(true),
        allow_namespaces: Some(false),
        allow_declare_fields: Some(false),
        declaration: Some(declaration),
        rewrite_import_extensions: Some(Either::B("remove".to_string())),
    };
    let expected = TypeScriptConfig {
        jsx_pragma: "h".to_string(),
        jsx_pragma_frag: "Fragment".to_string(),
        only_remove_type_imports: true,
        allow_namespaces: false,
        allow_declare_fields: false,
        optimize_const_enums: false,
        declaration: Some(declaration),
        rewrite_import_extensions: Some(RewriteExtensionsMode::Remove),
    };
    assert_eq!(options.resolve(), expected);
}

#[test]
fn jsx_classic_fields_pass_through_under_automatic() {
    let options = JsxOptions {
        runtime: text("automatic"),
        development: Some(true),
        throw_if_namespace: Some(false),
        pure: Some(false),
        import_source: text("preact"),
        pragma: text("h"),
        pragma_frag: text("Fragment"),
        use_built_ins: Some(true),
        use_spread: Some(false),
        refresh: None,
    };
    let expected = JsxConfig {
        runtime: JsxRuntime::Automatic,
        development: true,
        throw_if_namespace: false,
        pure: false,
        import_source: text("preact"),
        pragma: text("h"),
        pragma_frag: text("Fragment"),
        use_built_ins: Some(true),
        use_spread: Some(false),
        refresh: None,
    };
    assert_eq!(options.resolve(), expected);
}

#[test]
fn arrow_function_absent_and_empty_differ() {
    let absent = ES2015BindingOptions { arrow_function: None }.resolve();
    let empty = ES2015BindingOptions {
        arrow_function: Some(ArrowFunctionsBindingOptions { spec: None }),
    }
    .resolve();
    assert_eq!(absent, ES2015Config { arrow_function: None });
    assert_eq!(empty, ES2015Config { arrow_function: Some(ArrowFunctionsConfig { spec: false }) });
    assert_ne!(absent, empty);
}

#[test]
fn arrow_function_spec_mode() {
    let arrow = ArrowFunctionsBindingOptions { spec: Some(true) };
    assert_eq!(arrow.resolve(), ArrowFunctionsConfig { spec: true });
}

#[test]
fn given_cwd_and_sourcemap_win() {
    let options = TransformOptions {
        source_type: text("module"),
        cwd: text("/project"),
        sourcemap: Some(true),
        ..Default::default()
    };
    let resolved = options.resolve("/elsewhere".to_string());
    assert_eq!(resolved.cwd, "/project");
    assert!(resolved.sourcemap);
}

#[test]
fn sourcemap_false_stays_false() {
    let options = TransformOptions { sourcemap: Some(false), ..Default::default() };
    assert!(!options.resolve(String::new()).sourcemap);
}

#[test]
fn resolving_a_restated_config_gives_it_back() {
    let resolved = TransformOptions {
        source_type: None,
        cwd: text("/repo"),
        typescript: Some(TypeScriptOptions {
            jsx_pragma: text("h"),
            rewrite_import_extensions: Some(Either::B("remove".to_string())),
            ..Default::default()
        }),
        react: Some(JsxOptions {
            runtime: text("classic"),
            pragma: text("h"),
            refresh: Some(Either::A(true)),
            ..Default::default()
        }),
        es2015: Some(ES2015BindingOptions {
            arrow_function: Some(ArrowFunctionsBindingOptions { spec: None }),
        }),
        sourcemap: Some(true),
    }
    .resolve("/tmp".to_string());

    let ts = &resolved.typescript;
    let jsx = &resolved.jsx;
    let refresh = jsx.refresh.clone().unwrap();
    let restated = TransformOptions {
        source_type: None,
        cwd: Some(resolved.cwd.clone()),
        typescript: Some(TypeScriptOptions {
            jsx_pragma: Some(ts.jsx_pragma.clone()),
            jsx_pragma_frag: Some(ts.jsx_pragma_frag.clone()),
            only_remove_type_imports: Some(ts.only_remove_type_imports),
            allow_namespaces: Some(ts.allow_namespaces),
            allow_declare_fields: Some(ts.allow_declare_fields),
            declaration: ts.declaration,
            rewrite_import_extensions: Some(Either::B("remove".to_string())),
        }),
        react: Some(JsxOptions {
            runtime: text("classic"),
            development: Some(jsx.development),
            throw_if_namespace: Some(jsx.throw_if_namespace),
            pure: Some(jsx.pure),
            import_source: jsx.import_source.clone(),
            pragma: jsx.pragma.clone(),
            pragma_frag: jsx.pragma_frag.clone(),
            use_built_ins: jsx.use_built_ins,
            use_spread: jsx.use_spread,
            refresh: Some(Either::B(ReactRefreshOptions {
                refresh_reg: Some(refresh.refresh_reg),
                refresh_sig: Some(refresh.refresh_sig),
                emit_full_signatures: Some(refresh.emit_full_signatures),
            })),
        }),
        es2015: Some(ES2015BindingOptions {
            arrow_function: Some(ArrowFunctionsBindingOptions { spec: Some(false) }),
        }),
        sourcemap: Some(resolved.sourcemap),
    };
    assert_eq!(restated.resolve("/other".to_string()), resolved);
}
