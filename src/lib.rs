//! Structural and complexity metrics of source code: a language-independent tree of
//! spaces (the file, its classes, its functions), each with its Halstead counts and its
//! number of functions, built from a concrete syntax tree through a per-language adapter.

use vstd::prelude::*;

pub mod cpp;
pub mod cpp_names;
pub mod csharp;
pub mod getter;
pub mod html;
pub mod java;
pub mod javascript;
pub mod metrics;
pub mod node;
pub mod php;
pub mod python;
pub mod rust;
pub mod spaces;
pub mod tsx;
pub mod typescript;
pub mod vue_extract;

pub use crate::cpp::{Cpp, CppCode};
pub use crate::csharp::{Csharp, CsharpCode};
pub use crate::getter::{
    CcommentCode, Getter, HtmlCode, JavascriptCode, KotlinCode, PreprocCode, PythonCode,
};
pub use crate::java::{Java, JavaCode};
pub use crate::php::{Php, PhpCode};
pub use crate::rust::{Rust, RustCode};
pub use crate::tsx::{Tsx, TsxCode};
pub use crate::typescript::{Typescript, TypescriptCode};
pub use crate::html::Html;
pub use crate::javascript::Javascript;
pub use crate::python::Python;
pub use crate::metrics::{CodeMetrics, Halstead};
pub use crate::node::{Field, Node, Tree};
pub use crate::spaces::{get_function_spaces, FuncSpace, HalsteadType, SpaceKind};
pub use crate::vue_extract::{extract_vue_sections, VueSection, VueSections};

use crate::metrics::MetricsView;
use crate::getter::name_view;
use crate::spaces::{space_ok, spaces_of, view_matches, SpaceView};
use crate::vue_extract::{count_newlines, newlines};

verus! {

/// The languages that have an adapter; one is chosen for a whole file. The SpiderMonkey
/// dialect of JavaScript has no grammar among this crate's dependencies, so it has no
/// adapter of its own: its sources are read as JavaScript.
#[derive(Clone, Copy, Debug, PartialEq, Eq, Structural)]
pub enum Lang {
    Html,
    Javascript,
    Typescript,
    Tsx,
    Python,
    Rust,
    Cpp,
    Java,
    Php,
    Csharp,
    Preproc,
    Ccomment,
    Kotlin,
}

/// The space tree that language `lang`'s adapter gives for a file.
pub open spec fn lang_spaces(lang: Lang, tree: Tree, code: Seq<u8>, name: Option<Seq<char>>) -> SpaceView {
    match lang {
        Lang::Html => spaces_of::<HtmlCode>(tree, code, name),
        Lang::Javascript => spaces_of::<JavascriptCode>(tree, code, name),
        Lang::Typescript => spaces_of::<TypescriptCode>(tree, code, name),
        Lang::Tsx => spaces_of::<TsxCode>(tree, code, name),
        Lang::Python => spaces_of::<PythonCode>(tree, code, name),
        Lang::Rust => spaces_of::<RustCode>(tree, code, name),
        Lang::Cpp => spaces_of::<CppCode>(tree, code, name),
        Lang::Java => spaces_of::<JavaCode>(tree, code, name),
        Lang::Php => spaces_of::<PhpCode>(tree, code, name),
        Lang::Csharp => spaces_of::<CsharpCode>(tree, code, name),
        Lang::Preproc => spaces_of::<PreprocCode>(tree, code, name),
        Lang::Ccomment => spaces_of::<CcommentCode>(tree, code, name),
        Lang::Kotlin => spaces_of::<KotlinCode>(tree, code, name),
    }
}

/// The space tree of a file in language `lang`, built with that language's adapter.
pub fn get_spaces(lang: Lang, tree: &Tree, code: &[u8], name: Option<String>) -> (r: FuncSpace)
    requires
        tree.wf(),
        tree.fits(code@.len()),
        code@.len() < usize::MAX,
    ensures
        r.kind == SpaceKind::Unit,
        r.name == name,
        r.start_line == 1,
        r.end_line == newlines(code@) + 1,
        space_ok(r),
        view_matches(r, lang_spaces(lang, *tree, code@, name_view(name))),
{
    match lang {
        Lang::Html => get_function_spaces::<HtmlCode>(tree, code, name),
        Lang::Javascript => get_function_spaces::<JavascriptCode>(tree, code, name),
        Lang::Typescript => get_function_spaces::<TypescriptCode>(tree, code, name),
        Lang::Tsx => get_function_spaces::<TsxCode>(tree, code, name),
        Lang::Python => get_function_spaces::<PythonCode>(tree, code, name),
        Lang::Rust => get_function_spaces::<RustCode>(tree, code, name),
        Lang::Cpp => get_function_spaces::<CppCode>(tree, code, name),
        Lang::Java => get_function_spaces::<JavaCode>(tree, code, name),
        Lang::Php => get_function_spaces::<PhpCode>(tree, code, name),
        Lang::Csharp => get_function_spaces::<CsharpCode>(tree, code, name),
        Lang::Preproc => get_function_spaces::<PreprocCode>(tree, code, name),
        Lang::Ccomment => get_function_spaces::<CcommentCode>(tree, code, name),
        Lang::Kotlin => get_function_spaces::<KotlinCode>(tree, code, name),
    }
}

/// The grammar that the script section of a single-file component is read with: TypeScript,
/// or else the SpiderMonkey dialect of JavaScript, which is read with the JavaScript
/// adapter (see `Lang`).
#[derive(Clone, Copy, Debug, PartialEq, Eq, Structural)]
pub enum ScriptLanguage {
    Mozjs,
    Typescript,
}

/// A script whose `lang` is `ts` or `typescript` is TypeScript; any other is JavaScript.
pub fn script_language(lang: &Option<String>) -> (r: ScriptLanguage)
    ensures
        r == (if lang matches Some(l) && (l@ == "ts"@ || l@ == "typescript"@) {
            ScriptLanguage::Typescript
        } else {
            ScriptLanguage::Mozjs
        }),
{
    match lang {
        Some(l) => {
            if *l == "ts".to_owned() || *l == "typescript".to_owned() {
                ScriptLanguage::Typescript
            } else {
                ScriptLanguage::Mozjs
            }
        },
        None => ScriptLanguage::Mozjs,
    }
}

/// The space tree of a single-file component: a unit space named `name` that spans every
/// line of `source`, holding the metrics and the spaces of its script section's tree.
pub fn get_vue_metrics(source: &[u8], name: Option<String>, script: Option<FuncSpace>) -> (r: Option<
    FuncSpace,
>)
    requires
        source@.len() < usize::MAX,
        script matches Some(s) ==> space_ok(s),
    ensures
        r matches Some(u) && u.kind == SpaceKind::Unit && u.name == name && u.start_line == 1
            && u.end_line == newlines(source@) + 1 && space_ok(u),
        r matches Some(u) && (match script {
            Some(s) => u.spaces == s.spaces && u.own.view() == s.own.view() && u.metrics.view()
                == s.metrics.view(),
            None => u.spaces@.len() == 0 && u.metrics.view() == MetricsView::empty(),
        }),
{
    let lines = count_newlines(source, source.len());
    assert(source@.subrange(0, source@.len() as int) =~= source@);
    match script {
        Some(s) => Some(
            FuncSpace {
                name,
                start_line: 1,
                end_line: lines + 1,
                kind: SpaceKind::Unit,
                spaces: s.spaces,
                own: s.own,
                metrics: s.metrics,
            },
        ),
        None => {
            let u = FuncSpace::new(name, 1, lines + 1, SpaceKind::Unit);
            proof {
                crate::metrics::lemma_merge_identity(MetricsView::empty());
            }
            Some(u)
        },
    }
}

} // verus!
