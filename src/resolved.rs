//! The resolved configuration: every field present, enums closed.

use vstd::prelude::*;

verus! {

/// How import and export specifiers with TypeScript extensions are changed.
#[derive(Debug, Clone, Copy, PartialEq, Eq, Structural)]
pub enum RewriteExtensionsMode {
    /// `.ts`, `.mts`, `.cts` become `.js`, `.mjs`, `.cjs`.
    Rewrite,
    /// The TypeScript extension is dropped.
    Remove,
}

/// Which JSX runtime the transform targets.
#[derive(Debug, Clone, Copy, PartialEq, Eq, Structural)]
pub enum JsxRuntime {
    /// No automatic import; `pragma` and `pragmaFrag` name the factories.
    Classic,
    /// The JSX factories are imported automatically.
    Automatic,
}

/// Declaration-file emission settings, carried through unchanged.
#[derive(Debug, Clone, Copy, PartialEq, Eq, Structural)]
pub struct IsolatedDeclarationsOptions {
    /// Leave out declarations marked `@internal`.
    pub strip_internal: Option<bool>,
    /// Also produce a source map for the declaration file.
    pub sourcemap: Option<bool>,
}

/// Resolved React Fast Refresh settings.
#[derive(Debug, Clone, PartialEq, Eq)]
pub struct ReactRefreshConfig {
    pub refresh_reg: String,
    pub refresh_sig: String,
    pub emit_full_signatures: bool,
}

/// Mathematical value of a [`ReactRefreshConfig`].
pub struct ReactRefreshModel {
    pub refresh_reg: Seq<char>,
    pub refresh_sig: Seq<char>,
    pub emit_full_signatures: bool,
}

impl View for ReactRefreshConfig {
    type V = ReactRefreshModel;

    open spec fn view(&self) -> ReactRefreshModel {
        ReactRefreshModel {
            refresh_reg: self.refresh_reg@,
            refresh_sig: self.refresh_sig@,
            emit_full_signatures: self.emit_full_signatures,
        }
    }
}

/// Resolved TypeScript settings.
#[derive(Debug, Clone, PartialEq, Eq)]
pub struct TypeScriptConfig {
    pub jsx_pragma: String,
    pub jsx_pragma_frag: String,
    pub only_remove_type_imports: bool,
    pub allow_namespaces: bool,
    pub allow_declare_fields: bool,
    /// Not settable from outside: resolution always leaves it off.
    pub optimize_const_enums: bool,
    pub declaration: Option<IsolatedDeclarationsOptions>,
    pub rewrite_import_extensions: Option<RewriteExtensionsMode>,
}

/// Mathematical value of a [`TypeScriptConfig`].
pub struct TypeScriptModel {
    pub jsx_pragma: Seq<char>,
    pub jsx_pragma_frag: Seq<char>,
    pub only_remove_type_imports: bool,
    pub allow_namespaces: bool,
    pub allow_declare_fields: bool,
    pub optimize_const_enums: bool,
    pub declaration: Option<IsolatedDeclarationsOptions>,
    pub rewrite_import_extensions: Option<RewriteExtensionsMode>,
}

impl View for TypeScriptConfig {
    type V = TypeScriptModel;

    open spec fn view(&self) -> TypeScriptModel {
        TypeScriptModel {
            jsx_pragma: self.jsx_pragma@,
            jsx_pragma_frag: self.jsx_pragma_frag@,
            only_remove_type_imports: self.only_remove_type_imports,
            allow_namespaces: self.allow_namespaces,
            allow_declare_fields: self.allow_declare_fields,
            optimize_const_enums: self.optimize_const_enums,
            declaration: self.declaration,
            rewrite_import_extensions: self.rewrite_import_extensions,
        }
    }
}

/// Resolved JSX settings.
#[derive(Debug, Clone, PartialEq, Eq)]
pub struct JsxConfig {
    pub runtime: JsxRuntime,
    pub development: bool,
    pub throw_if_namespace: bool,
    pub pure: bool,
    pub import_source: Option<String>,
    pub pragma: Option<String>,
    pub pragma_frag: Option<String>,
    pub use_built_ins: Option<bool>,
    pub use_spread: Option<bool>,
    pub refresh: Option<ReactRefreshConfig>,
}

/// Mathematical value of a [`JsxConfig`].
pub struct JsxModel {
    pub runtime: JsxRuntime,
    pub development: bool,
    pub throw_if_namespace: bool,
    pub pure: bool,
    pub import_source: Option<Seq<char>>,
    pub pragma: Option<Seq<char>>,
    pub pragma_frag: Option<Seq<char>>,
    pub use_built_ins: Option<bool>,
    pub use_spread: Option<bool>,
    pub refresh: Option<ReactRefreshModel>,
}

impl View for JsxConfig {
    type V = JsxModel;

    open spec fn view(&self) -> JsxModel {
        JsxModel {
            runtime: self.runtime,
            development: self.development,
            throw_if_namespace: self.throw_if_namespace,
            pure: self.pure,
            import_source: opt_text(self.import_source),
            pragma: opt_text(self.pragma),
            pragma_frag: opt_text(self.pragma_frag),
            use_built_ins: self.use_built_ins,
            use_spread: self.use_spread,
            refresh: match self.refresh {
                Some(c) => Some(c@),
                None => None,
            },
        }
    }
}

/// Resolved arrow-function downleveling settings.
#[derive(Debug, Clone, Copy, PartialEq, Eq, Structural)]
pub struct ArrowFunctionsConfig {
    /// Bind `this`, guard against `new` and name the function.
    pub spec: bool,
}

/// Resolved ES2015 settings.
#[derive(Debug, Clone, Copy, PartialEq, Eq, Structural)]
pub struct ES2015Config {
    /// `None`: arrow functions are left alone.
    pub arrow_function: Option<ArrowFunctionsConfig>,
}

/// The fully resolved configuration handed to the engine.
#[derive(Debug, Clone, PartialEq, Eq)]
pub struct ResolvedConfig {
    pub cwd: String,
    pub typescript: TypeScriptConfig,
    pub jsx: JsxConfig,
    pub es2015: ES2015Config,
    pub sourcemap: bool,
}

/// Mathematical value of a [`ResolvedConfig`].
pub struct ResolvedModel {
    pub cwd: Seq<char>,
    pub typescript: TypeScriptModel,
    pub jsx: JsxModel,
    pub es2015: ES2015Config,
    pub sourcemap: bool,
}

impl View for ResolvedConfig {
    type V = ResolvedModel;

    open spec fn view(&self) -> ResolvedModel {
        ResolvedModel {
            cwd: self.cwd@,
            typescript: self.typescript@,
            jsx: self.jsx@,
            es2015: self.es2015,
            sourcemap: self.sourcemap,
        }
    }
}

/// The text of an optional string, as an optional sequence of characters.
pub open spec fn opt_text(o: Option<String>) -> Option<Seq<char>> {
    match o {
        Some(s) => Some(s@),
        None => None,
    }
}

} // verus!
