//! Both passes in one explicit step: the module pass merges qualifiers into
//! the markers of a module's functions, then the function pass consumes
//! each function's marker and renames it, as the compiler does when it
//! expands the rewritten markers.

use vstd::prelude::*;

use crate::attr::{arg_value, get_value, JniError};
use crate::function::{metas_view, proc_fun, rewritten, FnDecl, FnDeclView, Meta, MetaView};
use crate::module::{
    carries_qualifier, child_marked, children_marked, is_first_marker, is_jni_path, is_marker,
    is_marker_path, lemma_unmarked_untouched, mark_children, merged_qualifier, replaced_at, Child,
    ChildView, ModDecl,
};
use crate::text::underscored;
use crate::prefix::{resolve_prefix, resolved};

verus! {

/// Whether an attribute invokes the engine: a marker path, bare or with
/// any argument list.
pub open spec fn invokes_engine(m: MetaView) -> bool {
    match m {
        MetaView::Path(p) => is_marker_path(p),
        MetaView::List(p, _) => is_marker_path(p),
        MetaView::Other(_) => false,
    }
}

/// The argument tokens such an attribute hands to the engine.
pub open spec fn marker_args(m: MetaView) -> Seq<Seq<char>> {
    match m {
        MetaView::List(_, args) => args,
        _ => seq![],
    }
}

/// Whether `i` is the position of the first attribute that invokes the engine.
pub open spec fn is_first_invocation(attrs: Seq<MetaView>, i: int) -> bool {
    &&& 0 <= i < attrs.len()
    &&& invokes_engine(attrs[i])
    &&& forall|j: int| 0 <= j < i ==> !invokes_engine(#[trigger] attrs[j])
}

/// The function pass: the first attribute that invokes the engine is taken
/// off and the function rewritten under the qualifier its arguments give;
/// an error carries the malformed token; without such an attribute the
/// function is left as it is.
pub open spec fn fn_pass(f: FnDeclView, fallback: Option<Seq<char>>) -> Result<FnDeclView, Seq<char>> {
    if exists|i: int| is_first_invocation(f.attrs, i) {
        let i = choose|i: int| is_first_invocation(f.attrs, i);
        match arg_value(marker_args(f.attrs[i])) {
            Err(t) => Err(t),
            Ok(v) => Ok(rewritten(FnDeclView { attrs: f.attrs.remove(i), ..f }, resolved(v, fallback))),
        }
    } else {
        Ok(f)
    }
}

/// The function pass on one item of a module; other items pass unchanged.
pub open spec fn child_pass(c: ChildView, fallback: Option<Seq<char>>) -> Result<ChildView, Seq<char>> {
    match c {
        ChildView::Fn(f) => match fn_pass(f, fallback) {
            Ok(g) => Ok(ChildView::Fn(g)),
            Err(t) => Err(t),
        },
        ChildView::Other => Ok(ChildView::Other),
    }
}

/// `r` is the function pass over `items`: every item passed, or the error
/// of the first item that fails.
pub open spec fn children_passed(
    items: Seq<ChildView>,
    fallback: Option<Seq<char>>,
    r: Result<Seq<ChildView>, Seq<char>>,
) -> bool {
    match r {
        Ok(out) => out.len() == items.len() && forall|i: int|
            0 <= i < items.len() ==> #[trigger] child_pass(items[i], fallback) == Ok::<
                ChildView,
                Seq<char>,
            >(out[i]),
        Err(t) => exists|i: int|
            0 <= i < items.len() && #[trigger] child_pass(items[i], fallback) == Err::<
                ChildView,
                Seq<char>,
            >(t) && forall|j: int| 0 <= j < i ==> (#[trigger] child_pass(items[j], fallback)) is Ok,
    }
}

/// The module pass under a resolved qualifier; without one it changes nothing.
pub open spec fn module_stage(items: Seq<ChildView>, prefix: Option<Seq<char>>, mid: Seq<ChildView>) -> bool {
    match prefix {
        Some(p) => children_marked(items, p, mid),
        None => mid == items,
    }
}

/// `r` is the function pass over the items `mid`, as a module or an error.
pub open spec fn module_passed(mid: Seq<ChildView>, fallback: Option<Seq<char>>, r: Result<ModDecl, JniError>) -> bool {
    match r {
        Ok(m) => m@ matches Some(out) && children_passed(mid, fallback, Ok(out)),
        Err(JniError::MalformedArgument(e)) => children_passed(mid, fallback, Err(e@)),
        Err(JniError::UnsupportedTarget) => false,
    }
}

proof fn lemma_first_invocation_unique(attrs: Seq<MetaView>, i: int, k: int)
    requires
        is_first_invocation(attrs, i),
        is_first_invocation(attrs, k),
    ensures
        i == k,
{
    if i < k {
        assert(!invokes_engine(attrs[i]));
    } else if k < i {
        assert(!invokes_engine(attrs[k]));
    }
}

/// The position of the first attribute that invokes the engine.
fn first_invocation(attrs: &Vec<Meta>) -> (r: Option<usize>)
    ensures
        r matches Some(i) ==> is_first_invocation(metas_view(attrs@), i as int),
        r is None ==> forall|i: int|
            0 <= i < attrs@.len() ==> !invokes_engine(#[trigger] metas_view(attrs@)[i]),
{
    let n = attrs.len();
    let mut k: usize = 0;
    while k < n
        invariant
            n == attrs@.len(),
            k <= n,
            forall|j: int| 0 <= j < k ==> !invokes_engine(#[trigger] metas_view(attrs@)[j]),
        decreases n - k,
    {
        let hit = match &attrs[k] {
            Meta::Path(p) => is_jni_path(p),
            Meta::List(p, _) => is_jni_path(p),
            Meta::Other(_) => false,
        };
        if hit {
            return Some(k);
        }
        k += 1;
    }
    None
}

fn clone_qualifier(q: &Option<String>) -> (r: Option<String>)
    ensures
        r.deep_view() == q.deep_view(),
{
    match q {
        Some(s) => Some(s.clone()),
        None => None,
    }
}

/// Runs the function pass on one function: consumes its first marker and
/// rewrites it for export, or leaves it alone when it has none.
pub fn expand_fn(f: FnDecl, fallback: Option<String>) -> (r: Result<FnDecl, JniError>)
    ensures
        match fn_pass(f@, fallback.deep_view()) {
            Ok(g) => r matches Ok(h) && h@ == g,
            Err(t) => r matches Err(JniError::MalformedArgument(e)) && e@ == t,
        },
{
    match first_invocation(&f.attrs) {
        None => {
            assert(!exists|i: int| is_first_invocation(f@.attrs, i));
            Ok(f)
        },
        Some(i) => {
            let ghost fv = f@;
            proof {
                let k = choose|k: int| is_first_invocation(fv.attrs, k);
                lemma_first_invocation_unique(fv.attrs, i as int, k);
            }
            let mut f = f;
            let m = f.attrs.remove(i);
            assert(metas_view(f.attrs@) =~= fv.attrs.remove(i as int));
            let args = match m {
                Meta::List(_, a) => a,
                _ => {
                    let a: Vec<String> = Vec::new();
                    assert(a.deep_view() =~= seq![]);
                    a
                },
            };
            proc_fun(&args, f, fallback)
        },
    }
}

/// Expands a marked module completely: merges its qualifier (falling back
/// to `fallback`) into the markers of the functions directly inside, then
/// runs the function pass on each of them. A module without a body is
/// given back as it is; the first malformed argument is the error.
pub fn expand_module(attr: &Vec<String>, mm: ModDecl, fallback: Option<String>) -> (r: Result<
    ModDecl,
    JniError,
>)
    ensures
        match arg_value(attr.deep_view()) {
            Err(t) => r matches Err(JniError::MalformedArgument(e)) && e@ == t,
            Ok(v) => match mm@ {
                None => r matches Ok(m2) && m2@ is None,
                Some(items) => exists|mid: Seq<ChildView>|
                    module_stage(items, resolved(v, fallback.deep_view()), mid) && module_passed(
                        mid,
                        fallback.deep_view(),
                        r,
                    ),
            },
        },
{
    let explicit = match get_value(attr) {
        Ok(v) => v,
        Err(e) => return Err(e),
    };
    let items = match mm.content {
        Some(items) => items,
        None => return Ok(ModDecl { content: None }),
    };
    let ghost iv = items@.map_values(|c: Child| c@);
    let ghost fb = fallback.deep_view();
    let ghost ev = explicit.deep_view();
    let ghost pq = resolved(ev, fb);
    let mid = match resolve_prefix(explicit, clone_qualifier(&fallback)) {
        Some(p) => mark_children(items, &p),
        None => items,
    };
    let ghost midv = mid@.map_values(|c: Child| c@);
    assert(module_stage(iv, pq, midv));
    let n = mid.len();
    let mut rest = mid;
    let mut out: Vec<Child> = Vec::new();
    while rest.len() > 0
        invariant
            out@.len() + rest@.len() == n,
            n == midv.len(),
            forall|k: int| 0 <= k < rest@.len() ==> #[trigger] rest@[k]@ == midv[out@.len() + k],
            forall|j: int|
                0 <= j < out@.len() ==> #[trigger] child_pass(midv[j], fb) == Ok::<
                    ChildView,
                    Seq<char>,
                >(out@[j]@),
            fallback.deep_view() == fb,
            module_stage(iv, pq, midv),
            pq == resolved(ev, fb),
            arg_value(attr.deep_view()) == Ok::<Option<Seq<char>>, Seq<char>>(ev),
            mm@ == Some(iv),
        decreases rest@.len(),
    {
        let ghost i = out@.len() as int;
        let ghost before = rest@;
        assert(before[0]@ == midv[i]);
        let c = rest.remove(0);
        assert(forall|k: int| 0 <= k < rest@.len() ==> rest@[k] == before[k + 1]);
        let c2 = match c {
            Child::Fn(f) => match expand_fn(f, clone_qualifier(&fallback)) {
                Ok(g) => Child::Fn(g),
                Err(e) => {
                    proof {
                        assert(midv[i] == ChildView::Fn(f@));
                        let t = e->MalformedArgument_0;
                        assert(child_pass(midv[i], fb) == Err::<ChildView, Seq<char>>(t@));
                        assert(forall|j: int| 0 <= j < i ==> (#[trigger] child_pass(midv[j], fb)) is Ok);
                        assert(children_passed(midv, fb, Err(t@)));
                        assert(module_passed(midv, fb, Err::<ModDecl, JniError>(e)));
                        assert(module_stage(iv, pq, midv));
                    }
                    return Err(e);
                },
            },
            Child::Other => Child::Other,
        };
        out.push(c2);
        assert(child_pass(midv[i], fb) == Ok::<ChildView, Seq<char>>(out@[i]@));
    }
    let m2 = ModDecl { content: Some(out) };
    assert(children_passed(midv, fb, Ok(out@.map_values(|c: Child| c@))));
    assert(module_passed(midv, fb, Ok::<ModDecl, JniError>(m2)));
    Ok(m2)
}

/// A function that carries no marker at all comes out of the module pass
/// (whether or not a qualifier resolved for the module) and of the function
/// pass exactly as it went in: it is never renamed.
pub proof fn lemma_unmarked_never_renamed(
    f: FnDeclView,
    prefix: Option<Seq<char>>,
    mid: ChildView,
    fallback: Option<Seq<char>>,
)
    requires
        forall|i: int| 0 <= i < f.attrs.len() ==> !invokes_engine(#[trigger] f.attrs[i]),
        prefix matches Some(p) ==> child_marked(ChildView::Fn(f), p, mid),
        prefix is None ==> mid == ChildView::Fn(f),
    ensures
        mid == ChildView::Fn(f),
        child_pass(mid, fallback) == Ok::<ChildView, Seq<char>>(ChildView::Fn(f)),
{
    assert forall|i: int| 0 <= i < f.attrs.len() implies !is_marker(#[trigger] f.attrs[i]) by {
        assert(!invokes_engine(f.attrs[i]));
    }
    if let Some(p) = prefix {
        lemma_unmarked_untouched(f, p, mid);
    }
    assert(!exists|i: int| is_first_invocation(f.attrs, i));
}

proof fn lemma_first_marker_unique(attrs: Seq<MetaView>, i: int, k: int)
    requires
        is_first_marker(attrs, i),
        is_first_marker(attrs, k),
    ensures
        i == k,
{
    if i < k {
        assert(!is_marker(attrs[i]));
    } else if k < i {
        assert(!is_marker(attrs[k]));
    }
}

/// A function directly inside a module whose qualifier resolved to the
/// non-empty `p`, and whose first attribute that invokes the engine is a
/// marker (bare, or with one string literal `s`), comes out of the module
/// pass and the function pass named `Java_`, then `p` (followed by `_` and
/// `s` when `s` is non-empty) with every dot made an underscore, then `_`
/// and its own name, whatever the fallback.
pub proof fn lemma_module_child_export_name(
    f: FnDeclView,
    i: int,
    p: Seq<char>,
    mid: ChildView,
    fallback: Option<Seq<char>>,
)
    requires
        p.len() > 0,
        is_first_invocation(f.attrs, i),
        is_marker(f.attrs[i]),
        child_marked(ChildView::Fn(f), p, mid),
    ensures
        child_pass(mid, fallback) matches Ok(ChildView::Fn(g)) && g.ident == "Java_"@ + underscored(
            merged_qualifier(f.attrs[i], p),
        ) + "_"@ + f.ident,
{
    reveal_strlit("jni");
    let q = merged_qualifier(f.attrs[i], p);
    assert(is_first_marker(f.attrs, i)) by {
        assert forall|j: int| 0 <= j < i implies !is_marker(#[trigger] f.attrs[j]) by {
            assert(!invokes_engine(f.attrs[j]));
        }
    }
    let g = mid->Fn_0;
    let ga = g.attrs;
    let k = choose|k: int|
        is_first_marker(f.attrs, k) && replaced_at(f.attrs, k, ga) && carries_qualifier(
            ga[k],
            merged_qualifier(f.attrs[k], p),
        );
    lemma_first_marker_unique(f.attrs, i, k);
    let args = ga[i]->List_1;
    assert(seq!["jni"@].last() == "jni"@);
    assert(invokes_engine(ga[i]));
    assert(is_first_invocation(ga, i)) by {
        assert forall|j: int| 0 <= j < i implies !invokes_engine(#[trigger] ga[j]) by {
            assert(ga[j] == f.attrs[j]);
            assert(!invokes_engine(f.attrs[j]));
        }
    }
    let c = choose|c: int| is_first_invocation(ga, c);
    lemma_first_invocation_unique(ga, i, c);
    assert(('"' as u32) < 128);
    assert(arg_value(marker_args(ga[i])) == Ok::<Option<Seq<char>>, Seq<char>>(Some(q)));
    assert(q.len() > 0);
}

} // verus!
