//! Properties that relate several resolvers or several calls.

use vstd::prelude::*;

use crate::defaults::default_config;
use crate::options::{
    resolve_transform, ArrowFunctionsBindingOptions, ES2015BindingOptions, Either, JsxOptions,
    ReactRefreshOptions, TransformOptions, TypeScriptOptions,
};
use crate::resolved::{
    opt_text, JsxModel, JsxRuntime, ReactRefreshModel, ResolvedModel, RewriteExtensionsMode,
    TypeScriptModel,
};

verus! {

/// `o` states every field of the refresh settings `c`.
pub open spec fn restates_refresh(o: ReactRefreshOptions, c: ReactRefreshModel) -> bool {
    &&& opt_text(o.refresh_reg) == Some(c.refresh_reg)
    &&& opt_text(o.refresh_sig) == Some(c.refresh_sig)
    &&& o.emit_full_signatures == Some(c.emit_full_signatures)
}

/// `v` spells the rewrite mode `m`: `"rewrite"`, `"remove"`, or `false` for none.
pub open spec fn restates_rewrite(v: Option<Either<bool, String>>, m: Option<RewriteExtensionsMode>) -> bool {
    match (v, m) {
        (Some(Either::B(s)), Some(RewriteExtensionsMode::Rewrite)) => s@ == "rewrite"@,
        (Some(Either::B(s)), Some(RewriteExtensionsMode::Remove)) => s@ == "remove"@,
        (Some(Either::A(enabled)), None) => !enabled,
        _ => false,
    }
}

/// `o` states every field of the TypeScript settings `c`.
pub open spec fn restates_typescript(o: TypeScriptOptions, c: TypeScriptModel) -> bool {
    &&& opt_text(o.jsx_pragma) == Some(c.jsx_pragma)
    &&& opt_text(o.jsx_pragma_frag) == Some(c.jsx_pragma_frag)
    &&& o.only_remove_type_imports == Some(c.only_remove_type_imports)
    &&& o.allow_namespaces == Some(c.allow_namespaces)
    &&& o.allow_declare_fields == Some(c.allow_declare_fields)
    &&& o.declaration == c.declaration
    &&& restates_rewrite(o.rewrite_import_extensions, c.rewrite_import_extensions)
}

/// `v` spells the runtime `r` as `"classic"` or `"automatic"`.
pub open spec fn restates_runtime(v: Option<String>, r: JsxRuntime) -> bool {
    match v {
        Some(s) => s@ == match r {
            JsxRuntime::Classic => "classic"@,
            JsxRuntime::Automatic => "automatic"@,
        },
        None => false,
    }
}

/// `o` states every field of the JSX settings `c`; Fast Refresh is given as
/// an object when on and as `false` when off.
pub open spec fn restates_jsx(o: JsxOptions, c: JsxModel) -> bool {
    &&& restates_runtime(o.runtime, c.runtime)
    &&& o.development == Some(c.development)
    &&& o.throw_if_namespace == Some(c.throw_if_namespace)
    &&& o.pure == Some(c.pure)
    &&& opt_text(o.import_source) == c.import_source
    &&& opt_text(o.pragma) == c.pragma
    &&& opt_text(o.pragma_frag) == c.pragma_frag
    &&& o.use_built_ins == c.use_built_ins
    &&& o.use_spread == c.use_spread
    &&& match (o.refresh, c.refresh) {
        (Some(Either::B(r)), Some(m)) => restates_refresh(r, m),
        (Some(Either::A(enabled)), None) => !enabled,
        _ => false,
    }
}

/// `o` is the configuration `c` written back in the external shape, with
/// every field stated.
pub open spec fn restates(o: TransformOptions, c: ResolvedModel) -> bool {
    &&& opt_text(o.cwd) == Some(c.cwd)
    &&& match o.typescript {
        Some(t) => restates_typescript(t, c.typescript),
        None => false,
    }
    &&& match o.react {
        Some(j) => restates_jsx(j, c.jsx),
        None => false,
    }
    &&& o.es2015 == Some(
        ES2015BindingOptions {
            arrow_function: match c.es2015.arrow_function {
                Some(a) => Some(ArrowFunctionsBindingOptions { spec: Some(a.spec) }),
                None => None,
            },
        },
    )
    &&& o.sourcemap == Some(c.sourcemap)
}

/// Options with no field set resolve to the engine's all-defaults
/// configuration: the current directory, the automatic JSX runtime, no source
/// map, no extension rewriting and no Fast Refresh.
pub proof fn lemma_empty_options_resolve_to_defaults(o: TransformOptions, current_dir: Seq<char>)
    requires
        o.source_type is None,
        o.cwd is None,
        o.typescript is None,
        o.react is None,
        o.es2015 is None,
        o.sourcemap is None,
    ensures
        resolve_transform(o, current_dir) == default_config(current_dir),
{
}

/// Resolution is a fixed point: a resolved configuration written back in the
/// external shape, every field stated, resolves to itself.
pub proof fn lemma_resolve_restated_is_identity(
    o: TransformOptions,
    current_dir: Seq<char>,
    c: ResolvedModel,
)
    requires
        !c.typescript.optimize_const_enums,
        restates(o, c),
    ensures
        resolve_transform(o, current_dir) == c,
{
    reveal_strlit("rewrite");
    reveal_strlit("remove");
    reveal_strlit("classic");
    reveal_strlit("automatic");
    assert("rewrite"@.len() != "remove"@.len());
    assert("classic"@.len() != "automatic"@.len());
}

} // verus!
