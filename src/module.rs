use vstd::prelude::*;
use vstd::string::*;

use crate::attr::{arg_value, get_value, str_lit_value, string_literal, JniError};
use crate::function::{metas_view, FnDecl, FnDeclView, Meta, MetaView};
use crate::prefix::{resolve_prefix, resolved};
use crate::text::str_eq;

verus! {

/// An item directly inside a module.
#[derive(Debug, PartialEq, Eq)]
pub enum Child {
    Fn(FnDecl),
    /// Any other item, nested modules included; never inspected.
    Other,
}

/// The mathematical content of a `Child`.
pub enum ChildView {
    Fn(FnDeclView),
    Other,
}

impl View for Child {
    type V = ChildView;

    open spec fn view(&self) -> ChildView {
        match self {
            Child::Fn(f) => ChildView::Fn(f@),
            Child::Other => ChildView::Other,
        }
    }
}

/// A module declaration: `None` for `mod m;`, else its items in order.
#[derive(Debug, PartialEq, Eq)]
pub struct ModDecl {
    pub content: Option<Vec<Child>>,
}

/// Whether an attribute path names the marker: its last segment is `jni`,
/// or a `jni` segment follows a `jni_macro` segment.
pub open spec fn is_marker_path(p: Seq<Seq<char>>) -> bool {
    ||| p.len() > 0 && p.last() == "jni"@
    ||| exists|i: int, j: int| 0 <= j < i < p.len() && p[j] == "jni_macro"@ && p[i] == "jni"@
}

/// Checks whether an attribute path names the marker.
pub fn is_jni_path(p: &Vec<String>) -> (r: bool)
    ensures
        r == is_marker_path(p.deep_view()),
{
    let ghost d = p.deep_view();
    let n = p.len();
    let mut is_jni = false;
    let mut is_self = false;
    let mut k: usize = 0;
    while k < n
        invariant
            d == p.deep_view(),
            n == d.len(),
            k <= n,
            is_self == exists|j: int| 0 <= j < k && d[j] == "jni_macro"@,
            is_jni == (k > 0 && d[k - 1] == "jni"@),
            forall|i: int, j: int| 0 <= j < i < k ==> !(d[j] == "jni_macro"@ && d[i] == "jni"@),
        decreases n - k,
    {
        let id = p[k].as_str();
        let m = str_eq(id, "jni_macro");
        is_self = is_self || m;
        is_jni = str_eq(id, "jni");
        assert(d[k as int] == p[k as int]@);
        if is_jni && is_self {
            assert("jni"@ != "jni_macro"@) by {
                reveal_strlit("jni");
                reveal_strlit("jni_macro");
                assert("jni"@.len() != "jni_macro"@.len());
            }
            return true;
        }
        k += 1;
    }
    if n > 0 {
        assert(d.last() == d[n - 1]);
    }
    is_jni
}

/// Whether an attribute is the marker: bare, or with a single
/// string-literal argument.
pub open spec fn is_marker(m: MetaView) -> bool {
    match m {
        MetaView::Path(p) => is_marker_path(p),
        MetaView::List(p, args) => is_marker_path(p) && args.len() == 1 && arg_value(args)
            matches Ok(Some(_)),
        MetaView::Other(_) => false,
    }
}

/// The qualifier a marker carries after the module pass: the module's own
/// for a bare marker or an empty local one, else the module's, `_`, then
/// the marker's.
pub open spec fn merged_qualifier(m: MetaView, prefix: Seq<char>) -> Seq<char> {
    match m {
        MetaView::List(_, args) => {
            let v = str_lit_value(args[0])->Some_0;
            if v.len() == 0 {
                prefix
            } else {
                prefix + "_"@ + v
            }
        },
        _ => prefix,
    }
}

/// Whether `m` is the marker `#[jni(<literal>)]` whose single token is a
/// double-quoted string literal decoding to `q`.
pub open spec fn carries_qualifier(m: MetaView, q: Seq<char>) -> bool {
    m matches MetaView::List(p, args) && p == seq!["jni"@] && args.len() == 1 && args[0].len() > 0
        && args[0].last() == '"' && str_lit_value(args[0]) == Some(q)
}

/// Whether `i` is the position of the first marker among `attrs`.
pub open spec fn is_first_marker(attrs: Seq<MetaView>, i: int) -> bool {
    &&& 0 <= i < attrs.len()
    &&& is_marker(attrs[i])
    &&& forall|j: int| 0 <= j < i ==> !is_marker(#[trigger] attrs[j])
}

/// `after` has the attributes of `attrs`, but for the one at `i`.
pub open spec fn replaced_at(attrs: Seq<MetaView>, i: int, after: Seq<MetaView>) -> bool {
    &&& after.len() == attrs.len()
    &&& forall|j: int| 0 <= j < attrs.len() && j != i ==> #[trigger] after[j] == attrs[j]
}

/// `after` is `attrs` with its first marker, if any, replaced by the marker
/// carrying the merged qualifier; without a marker nothing changes.
pub open spec fn attrs_marked(attrs: Seq<MetaView>, prefix: Seq<char>, after: Seq<MetaView>) -> bool {
    ||| (forall|i: int| 0 <= i < attrs.len() ==> !is_marker(#[trigger] attrs[i])) && after == attrs
    ||| exists|i: int|
        is_first_marker(attrs, i) && replaced_at(attrs, i, after) && carries_qualifier(
            after[i],
            merged_qualifier(attrs[i], prefix),
        )
}

/// The module pass on one item: a function gets its marker merged, any
/// other item stays as it is.
pub open spec fn child_marked(c: ChildView, prefix: Seq<char>, after: ChildView) -> bool {
    match c {
        ChildView::Fn(f) => after matches ChildView::Fn(g) && attrs_marked(f.attrs, prefix, g.attrs)
            && g == (FnDeclView { attrs: g.attrs, ..f }),
        ChildView::Other => after is Other,
    }
}

/// The merged qualifier of `m` when it is a marker.
fn marker_qualifier(m: &Meta, prefix: &String) -> (r: Option<String>)
    ensures
        r is Some <==> is_marker(m@),
        r matches Some(q) ==> q@ == merged_qualifier(m@, prefix@),
{
    match m {
        Meta::Path(p) => {
            if is_jni_path(p) {
                Some(prefix.clone())
            } else {
                None
            }
        },
        Meta::List(p, args) => {
            if !is_jni_path(p) || args.len() != 1 {
                return None;
            }
            match get_value(args) {
                Ok(Some(v)) => {
                    if v.as_str().unicode_len() == 0 {
                        return Some(prefix.clone());
                    }
                    let mut q = prefix.clone();
                    q.append("_");
                    q.append(v.as_str());
                    Some(q)
                },
                _ => None,
            }
        },
        Meta::Other(_) => None,
    }
}

/// Replaces the first marker among `attrs` by the marker carrying the
/// merged qualifier.
fn mark_first(attrs: &mut Vec<Meta>, prefix: &String)
    ensures
        attrs_marked(metas_view(old(attrs)@), prefix@, metas_view(final(attrs)@)),
{
    let n = attrs.len();
    let mut k: usize = 0;
    while k < n
        invariant
            attrs@ == old(attrs)@,
            n == attrs@.len(),
            k <= n,
            forall|j: int| 0 <= j < k ==> !is_marker(#[trigger] metas_view(attrs@)[j]),
        decreases n - k,
    {
        match marker_qualifier(&attrs[k], prefix) {
            Some(q) => {
                let ghost before = attrs@;
                let lit = string_literal(q.as_str());
                let mut path: Vec<String> = Vec::new();
                path.push(String::from_str("jni"));
                let mut args: Vec<String> = Vec::new();
                args.push(lit);
                let marker = Meta::List(path, args);
                assert(carries_qualifier(marker@, q@)) by {
                    assert(path.deep_view() =~= seq!["jni"@]);
                    assert(args.deep_view() =~= seq![lit@]);
                }
                attrs.set(k, marker);
                assert(is_first_marker(metas_view(before), k as int));
                assert(metas_view(attrs@) =~= metas_view(before).update(k as int, marker@));
                return;
            },
            None => {},
        }
        k += 1;
    }
}

/// The module pass over a module's items, in order: `out` holds as many
/// items, each the corresponding one of `items` with its marker merged.
pub open spec fn children_marked(items: Seq<ChildView>, prefix: Seq<char>, out: Seq<ChildView>) -> bool {
    &&& out.len() == items.len()
    &&& forall|i: int| 0 <= i < items.len() ==> child_marked(#[trigger] items[i], prefix, out[i])
}

impl View for ModDecl {
    type V = Option<Seq<ChildView>>;

    open spec fn view(&self) -> Option<Seq<ChildView>> {
        match self.content {
            Some(v) => Some(v@.map_values(|c: Child| c@)),
            None => None,
        }
    }
}

/// Merges `prefix` into the marker of every function among `items`.
pub fn mark_children(items: Vec<Child>, prefix: &String) -> (r: Vec<Child>)
    ensures
        children_marked(items@.map_values(|c: Child| c@), prefix@, r@.map_values(|c: Child| c@)),
{
    let ghost orig = items@;
    let n = items.len();
    let mut rest = items;
    let mut out: Vec<Child> = Vec::new();
    while rest.len() > 0
        invariant
            out@.len() + rest@.len() == n,
            n == orig.len(),
            rest@ == orig.subrange(out@.len() as int, n as int),
            forall|i: int|
                0 <= i < out@.len() ==> child_marked(#[trigger] orig[i]@, prefix@, out@[i]@),
        decreases rest@.len(),
    {
        let ghost i = out@.len() as int;
        let c = rest.remove(0);
        assert(c == orig[i]);
        let c2 = match c {
            Child::Fn(f) => {
                let FnDecl { attrs, vis, abi, ident } = f;
                let mut attrs = attrs;
                mark_first(&mut attrs, prefix);
                Child::Fn(FnDecl { attrs, vis, abi, ident })
            },
            Child::Other => Child::Other,
        };
        out.push(c2);
        assert(rest@ =~= orig.subrange(out@.len() as int, n as int));
    }
    out
}

/// Expands the marker on a module: resolves the module's qualifier from the
/// marker's argument tokens (falling back to `fallback`) and merges it into
/// the marker of every function directly inside. Gives `None` when no
/// qualifier resolves or the module has no body, leaving the module as it
/// was. Nested modules are not visited.
pub fn proc_mod(attr: &Vec<String>, mm: ModDecl, fallback: Option<String>) -> (r: Result<
    Option<ModDecl>,
    JniError,
>)
    ensures
        match arg_value(attr.deep_view()) {
            Err(t) => r matches Err(JniError::MalformedArgument(e)) && e@ == t,
            Ok(v) => r matches Ok(o) && match (resolved(v, fallback.deep_view()), mm@) {
                (Some(p), Some(items)) => o matches Some(m2) && m2@ matches Some(out)
                    && children_marked(items, p, out),
                _ => o is None,
            },
        },
{
    let explicit = match get_value(attr) {
        Ok(v) => v,
        Err(e) => return Err(e),
    };
    match (resolve_prefix(explicit, fallback), mm.content) {
        (Some(p), Some(items)) => Ok(Some(ModDecl { content: Some(mark_children(items, &p)) })),
        _ => Ok(None),
    }
}

/// The module pass leaves a function without any marker exactly as it was,
/// so no function pass is ever triggered for it and it keeps its name.
pub proof fn lemma_unmarked_untouched(f: FnDeclView, prefix: Seq<char>, after: ChildView)
    requires
        forall|i: int| 0 <= i < f.attrs.len() ==> !is_marker(#[trigger] f.attrs[i]),
        child_marked(ChildView::Fn(f), prefix, after),
    ensures
        after == ChildView::Fn(f),
        forall|i: int|
            0 <= i < f.attrs.len() ==> !is_marker(#[trigger] after->Fn_0.attrs[i]),
{
    let g = after->Fn_0;
    if exists|i: int| is_first_marker(f.attrs, i) {
        let i = choose|i: int| is_first_marker(f.attrs, i);
        assert(!is_marker(f.attrs[i]));
    }
}

} // verus!
