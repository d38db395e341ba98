//! Resolution of a loosely typed, fully optional transform configuration into
//! the fully populated configuration that the transformation engine consumes.
//!
//! Every field of the external shape is optional; absent fields take the
//! engine's defaults, and unrecognised enum strings fall back to a default
//! variant instead of failing.

pub mod defaults;
pub mod options;
pub mod resolved;
pub mod laws;

pub use options::{
    resolve_jsx_runtime, resolve_refresh_setting, resolve_rewrite_import_extensions,
    ArrowFunctionsBindingOptions, ES2015BindingOptions, Either, JsxOptions, ReactRefreshOptions,
    TransformOptions, TypeScriptOptions,
};
pub use resolved::{
    ArrowFunctionsConfig, ES2015Config, IsolatedDeclarationsOptions, JsxConfig, JsxRuntime,
    ReactRefreshConfig, ResolvedConfig, RewriteExtensionsMode, TypeScriptConfig,
};
