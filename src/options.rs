//! The external, fully optional configuration shape, and its resolution.

use vstd::prelude::*;

use crate::defaults::{
    default_jsx, default_refresh, default_typescript, engine_jsx_defaults,
    engine_refresh_defaults, engine_typescript_defaults,
};
use crate::resolved::{
    opt_text, ArrowFunctionsConfig, ES2015Config, IsolatedDeclarationsOptions, JsxConfig,
    JsxModel, JsxRuntime, ReactRefreshConfig, ReactRefreshModel, ResolvedConfig, ResolvedModel,
    RewriteExtensionsMode, TypeScriptConfig, TypeScriptModel,
};

verus! {

/// A value of one of two shapes, such as "a boolean or a string".
#[derive(Debug, Clone, PartialEq, Eq)]
pub enum Either<A, B> {
    A(A),
    B(B),
}

/// Options for transforming a JavaScript or TypeScript file.
#[derive(Debug, Clone, PartialEq, Eq)]
pub struct TransformOptions {
    /// `script`, `module` or `unambiguous`; not read by resolution.
    pub source_type: Option<String>,
    /// The directory that relative paths in other options are resolved against.
    pub cwd: Option<String>,
    /// How TypeScript is transformed.
    pub typescript: Option<TypeScriptOptions>,
    /// How TSX and JSX are transformed.
    pub react: Option<JsxOptions>,
    /// ES2015 transformations.
    pub es2015: Option<ES2015BindingOptions>,
    /// Produce a source map. Defaults to `false`.
    pub sourcemap: Option<bool>,
}

/// TypeScript options as a caller writes them.
#[derive(Debug, Clone, PartialEq, Eq)]
pub struct TypeScriptOptions {
    pub jsx_pragma: Option<String>,
    pub jsx_pragma_frag: Option<String>,
    pub only_remove_type_imports: Option<bool>,
    pub allow_namespaces: Option<bool>,
    pub allow_declare_fields: Option<bool>,
    /// Also generate a `.d.ts` declaration file.
    pub declaration: Option<IsolatedDeclarationsOptions>,
    /// `true` or `"rewrite"` rewrites `.ts` extensions to `.js`, `"remove"`
    /// drops them; `false`, absence or any other string leaves them alone.
    pub rewrite_import_extensions: Option<Either<bool, String>>,
}

/// JSX options as a caller writes them.
#[derive(Debug, Clone, PartialEq, Eq)]
pub struct JsxOptions {
    /// `"classic"` or `"automatic"`; anything else means automatic.
    pub runtime: Option<String>,
    pub development: Option<bool>,
    pub throw_if_namespace: Option<bool>,
    pub pure: Option<bool>,
    pub import_source: Option<String>,
    pub pragma: Option<String>,
    pub pragma_frag: Option<String>,
    pub use_built_ins: Option<bool>,
    pub use_spread: Option<bool>,
    /// `true` for Fast Refresh with default settings, or its settings.
    pub refresh: Option<Either<bool, ReactRefreshOptions>>,
}

/// React Fast Refresh options as a caller writes them.
#[derive(Debug, Clone, PartialEq, Eq)]
pub struct ReactRefreshOptions {
    /// Defaults to `$RefreshReg$`.
    pub refresh_reg: Option<String>,
    /// Defaults to `$RefreshSig$`.
    pub refresh_sig: Option<String>,
    pub emit_full_signatures: Option<bool>,
}

/// Arrow-function options as a caller writes them.
#[derive(Debug, Clone, Copy, PartialEq, Eq, Structural)]
pub struct ArrowFunctionsBindingOptions {
    /// Bind `this`, guard against `new` and name the function. Defaults to `false`.
    pub spec: Option<bool>,
}

/// ES2015 options as a caller writes them.
#[derive(Debug, Clone, Copy, PartialEq, Eq, Structural)]
pub struct ES2015BindingOptions {
    /// Transform arrow functions into function expressions.
    pub arrow_function: Option<ArrowFunctionsBindingOptions>,
}

/// The given text, or `d` when absent.
pub open spec fn text_or(o: Option<String>, d: Seq<char>) -> Seq<char> {
    match o {
        Some(s) => s@,
        None => d,
    }
}

/// The rewrite mode that a `rewriteImportExtensions` value selects.
pub open spec fn rewrite_mode_of(v: Option<Either<bool, String>>) -> Option<RewriteExtensionsMode> {
    match v {
        Some(Either::A(enabled)) => if enabled {
            Some(RewriteExtensionsMode::Rewrite)
        } else {
            None
        },
        Some(Either::B(mode)) => if mode@ == "rewrite"@ {
            Some(RewriteExtensionsMode::Rewrite)
        } else if mode@ == "remove"@ {
            Some(RewriteExtensionsMode::Remove)
        } else {
            None
        },
        None => None,
    }
}

/// The runtime that a `runtime` value selects: only `"classic"` picks the
/// classic one.
pub open spec fn runtime_of(v: Option<String>) -> JsxRuntime {
    match v {
        Some(s) => if s@ == "classic"@ {
            JsxRuntime::Classic
        } else {
            JsxRuntime::Automatic
        },
        None => JsxRuntime::Automatic,
    }
}

/// Fast Refresh settings with each absent field taken from the engine.
pub open spec fn resolve_refresh(o: ReactRefreshOptions) -> ReactRefreshModel {
    ReactRefreshModel {
        refresh_reg: text_or(o.refresh_reg, default_refresh().refresh_reg),
        refresh_sig: text_or(o.refresh_sig, default_refresh().refresh_sig),
        emit_full_signatures: o.emit_full_signatures.unwrap_or(
            default_refresh().emit_full_signatures,
        ),
    }
}

/// The Fast Refresh settings that a `refresh` value selects.
pub open spec fn refresh_of(v: Option<Either<bool, ReactRefreshOptions>>) -> Option<
    ReactRefreshModel,
> {
    match v {
        Some(Either::A(enabled)) => if enabled {
            Some(default_refresh())
        } else {
            None
        },
        Some(Either::B(o)) => Some(resolve_refresh(o)),
        None => None,
    }
}

/// TypeScript settings with each absent field taken from the engine;
/// constant-enum optimisation off.
pub open spec fn resolve_typescript(o: TypeScriptOptions) -> TypeScriptModel {
    TypeScriptModel {
        jsx_pragma: text_or(o.jsx_pragma, default_typescript().jsx_pragma),
        jsx_pragma_frag: text_or(o.jsx_pragma_frag, default_typescript().jsx_pragma_frag),
        only_remove_type_imports: o.only_remove_type_imports.unwrap_or(
            default_typescript().only_remove_type_imports,
        ),
        allow_namespaces: o.allow_namespaces.unwrap_or(default_typescript().allow_namespaces),
        allow_declare_fields: o.allow_declare_fields.unwrap_or(
            default_typescript().allow_declare_fields,
        ),
        optimize_const_enums: false,
        declaration: o.declaration,
        rewrite_import_extensions: rewrite_mode_of(o.rewrite_import_extensions),
    }
}

/// JSX settings: parsed runtime, flags defaulted from the engine,
/// classic-runtime fields as given.
pub open spec fn resolve_jsx(o: JsxOptions) -> JsxModel {
    JsxModel {
        runtime: runtime_of(o.runtime),
        development: o.development.unwrap_or(default_jsx().development),
        throw_if_namespace: o.throw_if_namespace.unwrap_or(default_jsx().throw_if_namespace),
        pure: o.pure.unwrap_or(default_jsx().pure),
        import_source: opt_text(o.import_source),
        pragma: opt_text(o.pragma),
        pragma_frag: opt_text(o.pragma_frag),
        use_built_ins: o.use_built_ins,
        use_spread: o.use_spread,
        refresh: refresh_of(o.refresh),
    }
}

/// Arrow-function settings; `spec` defaults to `false`.
pub open spec fn resolve_arrow_functions(o: ArrowFunctionsBindingOptions) -> ArrowFunctionsConfig {
    ArrowFunctionsConfig { spec: o.spec.unwrap_or(false) }
}

/// ES2015 settings; arrow functions are downleveled only when their options
/// are present.
pub open spec fn resolve_es2015(o: ES2015BindingOptions) -> ES2015Config {
    ES2015Config {
        arrow_function: match o.arrow_function {
            Some(a) => Some(resolve_arrow_functions(a)),
            None => None,
        },
    }
}

/// The resolved configuration; `current_dir` stands in for an absent `cwd`.
pub open spec fn resolve_transform(o: TransformOptions, current_dir: Seq<char>) -> ResolvedModel {
    ResolvedModel {
        cwd: text_or(o.cwd, current_dir),
        typescript: match o.typescript {
            Some(t) => resolve_typescript(t),
            None => default_typescript(),
        },
        jsx: match o.react {
            Some(j) => resolve_jsx(j),
            None => default_jsx(),
        },
        es2015: match o.es2015 {
            Some(e) => resolve_es2015(e),
            None => ES2015Config { arrow_function: None },
        },
        sourcemap: o.sourcemap.unwrap_or(false),
    }
}

/// Resolves a `rewriteImportExtensions` value; unrecognised strings mean no
/// rewriting.
pub fn resolve_rewrite_import_extensions(value: Option<Either<bool, String>>) -> (r: Option<
    RewriteExtensionsMode,
>)
    ensures
        r == rewrite_mode_of(value),
{
    match value {
        Some(Either::A(enabled)) => if enabled {
            Some(RewriteExtensionsMode::Rewrite)
        } else {
            None
        },
        Some(Either::B(mode)) => if mode == "rewrite".to_owned() {
            Some(RewriteExtensionsMode::Rewrite)
        } else if mode == "remove".to_owned() {
            Some(RewriteExtensionsMode::Remove)
        } else {
            None
        },
        None => None,
    }
}

/// Resolves a `runtime` value; anything but `"classic"` means automatic.
pub fn resolve_jsx_runtime(value: Option<String>) -> (r: JsxRuntime)
    ensures
        r == runtime_of(value),
{
    match value {
        Some(s) => if s == "classic".to_owned() {
            JsxRuntime::Classic
        } else {
            JsxRuntime::Automatic
        },
        None => JsxRuntime::Automatic,
    }
}

impl ReactRefreshOptions {
    /// Fills each absent field from the engine's defaults.
    pub fn resolve(self) -> (r: ReactRefreshConfig)
        ensures
            r@ == resolve_refresh(self),
    {
        let ops = engine_refresh_defaults();
        ReactRefreshConfig {
            refresh_reg: match self.refresh_reg {
                Some(reg) => reg,
                None => ops.refresh_reg,
            },
            refresh_sig: match self.refresh_sig {
                Some(sig) => sig,
                None => ops.refresh_sig,
            },
            emit_full_signatures: self.emit_full_signatures.unwrap_or(ops.emit_full_signatures),
        }
    }
}

/// Resolves a `refresh` value: `true` gives the default settings, an object
/// is resolved field by field, `false` and absence turn Fast Refresh off.
pub fn resolve_refresh_setting(value: Option<Either<bool, ReactRefreshOptions>>) -> (r: Option<
    ReactRefreshConfig,
>)
    ensures
        r.is_some() == refresh_of(value).is_some(),
        r.is_some() ==> r.unwrap()@ == refresh_of(value).unwrap(),
{
    match value {
        Some(Either::A(enabled)) => if enabled {
            Some(engine_refresh_defaults())
        } else {
            None
        },
        Some(Either::B(options)) => Some(options.resolve()),
        None => None,
    }
}

impl Default for TypeScriptOptions {
    /// Every field absent.
    fn default() -> (r: TypeScriptOptions)
        ensures
            r == (TypeScriptOptions {
                jsx_pragma: None,
                jsx_pragma_frag: None,
                only_remove_type_imports: None,
                allow_namespaces: None,
                allow_declare_fields: None,
                declaration: None,
                rewrite_import_extensions: None,
            }),
    {
        TypeScriptOptions {
            jsx_pragma: None,
            jsx_pragma_frag: None,
            only_remove_type_imports: None,
            allow_namespaces: None,
            allow_declare_fields: None,
            declaration: None,
            rewrite_import_extensions: None,
        }
    }
}

impl TypeScriptOptions {
    /// Fills each absent field from the engine's defaults; constant-enum
    /// optimisation is always off.
    pub fn resolve(self) -> (r: TypeScriptConfig)
        ensures
            r@ == resolve_typescript(self),
            !r.optimize_const_enums,
    {
        let ops = engine_typescript_defaults();
        TypeScriptConfig {
            jsx_pragma: match self.jsx_pragma {
                Some(pragma) => pragma,
                None => ops.jsx_pragma,
            },
            jsx_pragma_frag: match self.jsx_pragma_frag {
                Some(frag) => frag,
                None => ops.jsx_pragma_frag,
            },
            only_remove_type_imports: self.only_remove_type_imports.unwrap_or(
                ops.only_remove_type_imports,
            ),
            allow_namespaces: self.allow_namespaces.unwrap_or(ops.allow_namespaces),
            allow_declare_fields: self.allow_declare_fields.unwrap_or(ops.allow_declare_fields),
            optimize_const_enums: false,
            declaration: self.declaration,
            rewrite_import_extensions: resolve_rewrite_import_extensions(
                self.rewrite_import_extensions,
            ),
        }
    }
}

impl Default for JsxOptions {
    /// Every field absent.
    fn default() -> (r: JsxOptions)
        ensures
            r == (JsxOptions {
                runtime: None,
                development: None,
                throw_if_namespace: None,
                pure: None,
                import_source: None,
                pragma: None,
                pragma_frag: None,
                use_built_ins: None,
                use_spread: None,
                refresh: None,
            }),
    {
        JsxOptions {
            runtime: None,
            development: None,
            throw_if_namespace: None,
            pure: None,
            import_source: None,
            pragma: None,
            pragma_frag: None,
            use_built_ins: None,
            use_spread: None,
            refresh: None,
        }
    }
}

impl JsxOptions {
    /// Parses the runtime, fills the flags from the engine's defaults, passes
    /// the classic-runtime fields through and resolves Fast Refresh.
    pub fn resolve(self) -> (r: JsxConfig)
        ensures
            r@ == resolve_jsx(self),
    {
        let ops = engine_jsx_defaults();
        JsxConfig {
            runtime: resolve_jsx_runtime(self.runtime),
            development: self.development.unwrap_or(ops.development),
            throw_if_namespace: self.throw_if_namespace.unwrap_or(ops.throw_if_namespace),
            pure: self.pure.unwrap_or(ops.pure),
            import_source: self.import_source,
            pragma: self.pragma,
            pragma_frag: self.pragma_frag,
            use_built_ins: self.use_built_ins,
            use_spread: self.use_spread,
            refresh: resolve_refresh_setting(self.refresh),
        }
    }
}

impl ArrowFunctionsBindingOptions {
    /// `spec` defaults to `false`.
    pub fn resolve(self) -> (r: ArrowFunctionsConfig)
        ensures
            r == resolve_arrow_functions(self),
    {
        ArrowFunctionsConfig { spec: self.spec.unwrap_or(false) }
    }
}

impl ES2015BindingOptions {
    /// Arrow-function downleveling is requested exactly when its options are
    /// present, even if they are empty.
    pub fn resolve(self) -> (r: ES2015Config)
        ensures
            r == resolve_es2015(self),
            r.arrow_function.is_some() == self.arrow_function.is_some(),
    {
        ES2015Config {
            arrow_function: match self.arrow_function {
                Some(arrow) => Some(arrow.resolve()),
                None => None,
            },
        }
    }
}

impl Default for TransformOptions {
    /// Every field absent.
    fn default() -> (r: TransformOptions)
        ensures
            r == (TransformOptions {
                source_type: None,
                cwd: None,
                typescript: None,
                react: None,
                es2015: None,
                sourcemap: None,
            }),
    {
        TransformOptions {
            source_type: None,
            cwd: None,
            typescript: None,
            react: None,
            es2015: None,
            sourcemap: None,
        }
    }
}

impl TransformOptions {
    /// Resolves every section; an absent section takes the engine's
    /// defaults and an absent `cwd` is `current_dir`.
    pub fn resolve(self, current_dir: String) -> (r: ResolvedConfig)
        ensures
            r@ == resolve_transform(self, current_dir@),
    {
        ResolvedConfig {
            cwd: match self.cwd {
                Some(cwd) => cwd,
                None => current_dir,
            },
            typescript: match self.typescript {
                Some(typescript) => typescript,
                None => TypeScriptOptions::default(),
            }.resolve(),
            jsx: match self.react {
                Some(react) => react,
                None => JsxOptions::default(),
            }.resolve(),
            es2015: match self.es2015 {
                Some(es2015) => es2015.resolve(),
                None => ES2015Config { arrow_function: None },
            },
            sourcemap: self.sourcemap.unwrap_or(false),
        }
    }
}

} // verus!
