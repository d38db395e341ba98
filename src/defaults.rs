//! The engine's defaults, read from its own option types.

use vstd::prelude::*;

use crate::resolved::{
    ES2015Config, JsxModel, JsxRuntime, ReactRefreshConfig, ReactRefreshModel, ResolvedModel,
    TypeScriptModel,
};

verus! {

/// The engine's default settings of TypeScript, as far as this layer reads them.
pub(crate) struct TypeScriptDefaults {
    pub jsx_pragma: String,
    pub jsx_pragma_frag: String,
    pub only_remove_type_imports: bool,
    pub allow_namespaces: bool,
    pub allow_declare_fields: bool,
}

/// The engine's default JSX flags.
pub(crate) struct JsxDefaults {
    pub development: bool,
    pub throw_if_namespace: bool,
    pub pure: bool,
}

/// The engine's default TypeScript settings.
pub open spec fn default_typescript() -> TypeScriptModel {
    TypeScriptModel {
        jsx_pragma: "React.createElement"@,
        jsx_pragma_frag: "React.Fragment"@,
        only_remove_type_imports: false,
        allow_namespaces: true,
        allow_declare_fields: true,
        optimize_const_enums: false,
        declaration: None,
        rewrite_import_extensions: None,
    }
}

/// The engine's default JSX settings.
pub open spec fn default_jsx() -> JsxModel {
    JsxModel {
        runtime: JsxRuntime::Automatic,
        development: false,
        throw_if_namespace: true,
        pure: true,
        import_source: None,
        pragma: None,
        pragma_frag: None,
        use_built_ins: None,
        use_spread: None,
        refresh: None,
    }
}

/// The all-defaults configuration, for a working directory `cwd`.
pub open spec fn default_config(cwd: Seq<char>) -> ResolvedModel {
    ResolvedModel {
        cwd,
        typescript: default_typescript(),
        jsx: default_jsx(),
        es2015: ES2015Config { arrow_function: None },
        sourcemap: false,
    }
}

/// Relies on `oxc_transformer::TypeScriptOptions::default`: pragma
/// `React.createElement`, fragment `React.Fragment`, type-only import removal
/// off, namespaces and declare fields allowed.
#[verifier::external_body]
pub(crate) fn engine_typescript_defaults() -> (r: TypeScriptDefaults)
    ensures
        r.jsx_pragma@ == default_typescript().jsx_pragma,
        r.jsx_pragma_frag@ == default_typescript().jsx_pragma_frag,
        r.only_remove_type_imports == default_typescript().only_remove_type_imports,
        r.allow_namespaces == default_typescript().allow_namespaces,
        r.allow_declare_fields == default_typescript().allow_declare_fields,
{
    let d = oxc_transformer::TypeScriptOptions::default();
    TypeScriptDefaults {
        jsx_pragma: d.jsx_pragma.to_string(),
        jsx_pragma_frag: d.jsx_pragma_frag.to_string(),
        only_remove_type_imports: d.only_remove_type_imports,
        allow_namespaces: d.allow_namespaces,
        allow_declare_fields: d.allow_declare_fields,
    }
}

/// Relies on `oxc_transformer::JsxOptions::default`: development off,
/// namespaced tags rejected, pure annotations on.
#[verifier::external_body]
pub(crate) fn engine_jsx_defaults() -> (r: JsxDefaults)
    ensures
        r.development == default_jsx().development,
        r.throw_if_namespace == default_jsx().throw_if_namespace,
        r.pure == default_jsx().pure,
{
    let d = oxc_transformer::JsxOptions::default();
    JsxDefaults { development: d.development, throw_if_namespace: d.throw_if_namespace, pure: d.pure }
}

/// The engine's default React Fast Refresh settings.
pub open spec fn default_refresh() -> ReactRefreshModel {
    ReactRefreshModel {
        refresh_reg: "$RefreshReg$"@,
        refresh_sig: "$RefreshSig$"@,
        emit_full_signatures: false,
    }
}

/// Relies on `oxc_transformer::ReactRefreshOptions::default`, which sets
/// `$RefreshReg$`, `$RefreshSig$` and compact signatures.
#[verifier::external_body]
pub(crate) fn engine_refresh_defaults() -> (r: ReactRefreshConfig)
    ensures
        r@ == default_refresh(),
{
    let d = oxc_transformer::ReactRefreshOptions::default();
    ReactRefreshConfig {
        refresh_reg: d.refresh_reg,
        refresh_sig: d.refresh_sig,
        emit_full_signatures: d.emit_full_signatures,
    }
}

} // verus!
