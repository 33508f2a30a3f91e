use vstd::prelude::*;
use vstd::string::*;

use crate::attr::{arg_value, get_value, JniError};
use crate::prefix::{resolve_prefix, resolved};
use crate::text::{dots_to_underscores, str_eq, underscored};

verus! {

/// Visibility of a declaration.
#[derive(Debug, Clone, Copy, PartialEq, Eq, Structural)]
pub enum Visibility {
    /// No visibility keyword.
    Inherited,
    /// `pub(crate)`, `pub(super)`, `pub(in path)`.
    Restricted,
    /// `pub`.
    Public,
}

/// An attribute of a declaration, by the shape of its content.
#[derive(Debug, PartialEq, Eq)]
pub enum Meta {
    /// `#[a::b]`: the path's segments.
    Path(Vec<String>),
    /// `#[a::b(...)]`: the path's segments and the source text of each
    /// token of the argument list.
    List(Vec<String>, Vec<String>),
    /// Any other attribute (`#[a = ...]`), by its source text.
    Other(String),
}

/// The mathematical content of a `Meta`.
pub enum MetaView {
    Path(Seq<Seq<char>>),
    List(Seq<Seq<char>>, Seq<Seq<char>>),
    Other(Seq<char>),
}

impl View for Meta {
    type V = MetaView;

    open spec fn view(&self) -> MetaView {
        match self {
            Meta::Path(p) => MetaView::Path(p.deep_view()),
            Meta::List(p, args) => MetaView::List(p.deep_view(), args.deep_view()),
            Meta::Other(t) => MetaView::Other(t@),
        }
    }
}

/// The parts of a function declaration that the engine reads or rewrites;
/// parameters, return type and body are never touched.
#[derive(Debug, PartialEq, Eq)]
pub struct FnDecl {
    /// Outer attributes, in source order.
    pub attrs: Vec<Meta>,
    pub vis: Visibility,
    /// Calling convention: `None` for none, `Some(name)` for `extern "name"`.
    pub abi: Option<String>,
    pub ident: String,
}

/// The mathematical content of a `FnDecl`.
pub struct FnDeclView {
    pub attrs: Seq<MetaView>,
    pub vis: Visibility,
    pub abi: Option<Seq<char>>,
    pub ident: Seq<char>,
}

/// The views of a sequence of attributes.
pub open spec fn metas_view(v: Seq<Meta>) -> Seq<MetaView> {
    v.map_values(|m: Meta| m@)
}

impl View for FnDecl {
    type V = FnDeclView;

    open spec fn view(&self) -> FnDeclView {
        FnDeclView {
            attrs: metas_view(self.attrs@),
            vis: self.vis,
            abi: self.abi.deep_view(),
            ident: self.ident@,
        }
    }
}

/// `#[no_mangle]`, the export-linkage marker.
pub open spec fn no_mangle_attr() -> MetaView {
    MetaView::Path(seq!["no_mangle"@])
}

/// The attributes with the export-linkage marker present exactly as before
/// when it already was, else appended.
pub open spec fn with_no_mangle(attrs: Seq<MetaView>) -> Seq<MetaView> {
    if attrs.contains(no_mangle_attr()) {
        attrs
    } else {
        attrs.push(no_mangle_attr())
    }
}

/// The exported symbol of function `ident` under qualifier `q`:
/// `Java_`, then the qualifier with dots made underscores and `_` when it
/// is present and non-empty, then `ident`.
pub open spec fn export_name(q: Option<Seq<char>>, ident: Seq<char>) -> Seq<char> {
    if q is Some && q->Some_0.len() > 0 {
        "Java_"@ + underscored(q->Some_0) + "_"@ + ident
    } else {
        "Java_"@ + ident
    }
}

/// A function rewritten for export under qualifier `q`.
pub open spec fn rewritten(f: FnDeclView, q: Option<Seq<char>>) -> FnDeclView {
    FnDeclView {
        attrs: with_no_mangle(f.attrs),
        vis: Visibility::Public,
        abi: Some("system"@),
        ident: export_name(q, f.ident),
    }
}

/// Whether `m` is the export-linkage marker.
fn is_no_mangle(m: &Meta) -> (r: bool)
    ensures
        r == (m@ == no_mangle_attr()),
{
    match m {
        Meta::Path(p) => {
            if p.len() != 1 {
                assert(p.deep_view().len() != seq!["no_mangle"@].len());
                return false;
            }
            let r = str_eq(p[0].as_str(), "no_mangle");
            if r {
                assert(p.deep_view() =~= seq!["no_mangle"@]);
            } else {
                assert(p.deep_view()[0] != "no_mangle"@);
            }
            r
        },
        _ => false,
    }
}

/// Rewrites one function declaration for export, under the qualifier
/// resolved for it.
pub struct FnProcessor {
    /// The resolved qualifier.
    pub attr: Option<String>,
    pub body: FnDecl,
}

impl FnProcessor {
    pub fn new(attr: Option<String>, body: FnDecl) -> (r: Self)
        ensures
            r.attr == attr,
            r.body == body,
    {
        FnProcessor { attr, body }
    }

    /// The declaration in its current state.
    pub fn collect(self) -> (r: FnDecl)
        ensures
            r == self.body,
    {
        self.body
    }

    /// Attaches the export-linkage marker, unless the function has it already.
    pub fn add_attributes(self) -> (r: Self)
        ensures
            r.attr == self.attr,
            r.body@ == (FnDeclView { attrs: with_no_mangle(self.body@.attrs), ..self.body@ }),
    {
        let mut body = self.body;
        let n = body.attrs.len();
        let mut i: usize = 0;
        while i < n
            invariant
                body == self.body,
                n == body.attrs@.len(),
                i <= n,
                forall|j: int| 0 <= j < i ==> body.attrs@[j]@ != no_mangle_attr(),
            decreases n - i,
        {
            if is_no_mangle(&body.attrs[i]) {
                assert(metas_view(body.attrs@)[i as int] == no_mangle_attr());
                assert(metas_view(body.attrs@).contains(no_mangle_attr()));
                return FnProcessor { attr: self.attr, body };
            }
            i += 1;
        }
        assert(!metas_view(body.attrs@).contains(no_mangle_attr())) by {
            if metas_view(body.attrs@).contains(no_mangle_attr()) {
                let k = choose|k: int|
                    0 <= k < metas_view(body.attrs@).len() && metas_view(body.attrs@)[k]
                        == no_mangle_attr();
                assert(body.attrs@[k]@ == no_mangle_attr());
            }
        }
        let ghost before = body.attrs@;
        let mut seg: Vec<String> = Vec::new();
        seg.push(String::from_str("no_mangle"));
        let marker = Meta::Path(seg);
        assert(marker@ == no_mangle_attr()) by {
            assert(seg.deep_view() =~= seq!["no_mangle"@]);
        }
        body.attrs.push(marker);
        assert(metas_view(body.attrs@) =~= metas_view(before).push(no_mangle_attr()));
        FnProcessor { attr: self.attr, body }
    }

    /// Forces public visibility and the `system` calling convention.
    pub fn set_visibility(self) -> (r: Self)
        ensures
            r.attr == self.attr,
            r.body@ == (FnDeclView {
                vis: Visibility::Public,
                abi: Some("system"@),
                ..self.body@
            }),
    {
        let mut body = self.body;
        body.vis = Visibility::Public;
        body.abi = Some(String::from_str("system"));
        FnProcessor { attr: self.attr, body }
    }

    /// Renames the function to its exported symbol under the qualifier.
    pub fn update_name(self) -> (r: Self)
        ensures
            r.attr == self.attr,
            r.body@ == (FnDeclView {
                ident: export_name(self.attr.deep_view(), self.body@.ident),
                ..self.body@
            }),
    {
        let mut name = String::from_str("Java_");
        match &self.attr {
            Some(q) => {
                if q.as_str().unicode_len() > 0 {
                    let u = dots_to_underscores(q.as_str());
                    name.append(u.as_str());
                    name.append("_");
                }
            },
            None => {},
        }
        name.append(self.body.ident.as_str());
        let mut body = self.body;
        body.ident = name;
        FnProcessor { attr: self.attr, body }
    }
}

/// Expands the marker on a function: reads the qualifier from the marker's
/// argument tokens (falling back to `fallback`), then forces export
/// linkage, public visibility and the `system` convention, and renames the
/// function to its exported symbol.
pub fn proc_fun(attr: &Vec<String>, body: FnDecl, fallback: Option<String>) -> (r: Result<
    FnDecl,
    JniError,
>)
    ensures
        match arg_value(attr.deep_view()) {
            Err(t) => r matches Err(JniError::MalformedArgument(e)) && e@ == t,
            Ok(v) => r matches Ok(f) && f@ == rewritten(body@, resolved(v, fallback.deep_view())),
        },
{
    let explicit = match get_value(attr) {
        Ok(v) => v,
        Err(e) => return Err(e),
    };
    let q = resolve_prefix(explicit, fallback);
    Ok(FnProcessor::new(q, body).add_attributes().set_visibility().update_name().collect())
}

/// Under a non-empty explicit qualifier `q` that holds a dot, a function
/// named `ident` is exported as `Java_`, then `q` with every dot made an
/// underscore, then `_` and `ident`, whatever the fallback; no dot is left in
/// the qualifier part.
pub proof fn lemma_qualified_export_name(f: FnDeclView, q: Seq<char>, fallback: Option<Seq<char>>)
    requires
        q.len() > 0,
        q.contains('.'),
    ensures
        rewritten(f, resolved(Some(q), fallback)).ident == "Java_"@ + underscored(q) + "_"@
            + f.ident,
        !underscored(q).contains('.'),
{
    if underscored(q).contains('.') {
        let k = choose|k: int| 0 <= k < underscored(q).len() && underscored(q)[k] == '.';
        assert(underscored(q)[k] == (if q[k] == '.' { '_' } else { q[k] }));
    }
}

/// Rewriting a function that is already public, already uses the `system`
/// convention and already carries the export-linkage marker changes its
/// name and nothing else: no marker, keyword or convention is added twice.
pub proof fn lemma_forcing_idempotent(f: FnDeclView, q: Option<Seq<char>>)
    requires
        f.vis == Visibility::Public,
        f.abi == Some("system"@),
        f.attrs.contains(no_mangle_attr()),
    ensures
        rewritten(f, q) == (FnDeclView { ident: export_name(q, f.ident), ..f }),
{
}

/// A second rewrite leaves attributes, visibility and convention exactly as
/// the first one left them.
pub proof fn lemma_rewrite_twice(f: FnDeclView, q1: Option<Seq<char>>, q2: Option<Seq<char>>)
    ensures
        rewritten(rewritten(f, q1), q2).attrs == rewritten(f, q1).attrs,
        rewritten(rewritten(f, q1), q2).vis == rewritten(f, q1).vis,
        rewritten(rewritten(f, q1), q2).abi == rewritten(f, q1).abi,
{
    let a = f.attrs;
    if !a.contains(no_mangle_attr()) {
        assert(a.push(no_mangle_attr())[a.len() as int] == no_mangle_attr());
    }
}

} // verus!
