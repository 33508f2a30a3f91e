use vstd::prelude::*;

use crate::attr::{arg_value, get_value, JniError};
use crate::function::{proc_fun, rewritten, FnDecl, FnDeclView};
use crate::module::{children_marked, mark_children, ChildView, ModDecl};
use crate::prefix::{resolve_prefix, resolved};

verus! {

/// A declaration that carries the marker.
#[derive(Debug, PartialEq, Eq)]
pub enum Item {
    Fn(FnDecl),
    Mod(ModDecl),
    /// Any other kind of declaration.
    Other,
}

/// The mathematical content of an `Item`.
pub enum ItemView {
    Fn(FnDeclView),
    Mod(Option<Seq<ChildView>>),
    Other,
}

impl View for Item {
    type V = ItemView;

    open spec fn view(&self) -> ItemView {
        match self {
            Item::Fn(f) => ItemView::Fn(f@),
            Item::Mod(m) => ItemView::Mod(m@),
            Item::Other => ItemView::Other,
        }
    }
}

/// Expands the marker on a declaration, given the source text of the
/// marker's argument tokens and the process fallback qualifier: a function
/// is rewritten for export, a module has its qualifier merged into the
/// markers of the functions directly inside (and stays as it was when no
/// qualifier resolves or it has no body), any other declaration is refused.
pub fn jni(attr: &Vec<String>, item: Item, fallback: Option<String>) -> (r: Result<Item, JniError>)
    ensures
        match item@ {
            ItemView::Other => r matches Err(JniError::UnsupportedTarget),
            ItemView::Fn(f) => match arg_value(attr.deep_view()) {
                Err(t) => r matches Err(JniError::MalformedArgument(e)) && e@ == t,
                Ok(v) => r matches Ok(Item::Fn(g)) && g@ == rewritten(
                    f,
                    resolved(v, fallback.deep_view()),
                ),
            },
            ItemView::Mod(c) => match arg_value(attr.deep_view()) {
                Err(t) => r matches Err(JniError::MalformedArgument(e)) && e@ == t,
                Ok(v) => r matches Ok(Item::Mod(m2)) && match (resolved(v, fallback.deep_view()), c) {
                    (Some(p), Some(items)) => m2@ matches Some(out) && children_marked(
                        items,
                        p,
                        out,
                    ),
                    _ => m2@ == c,
                },
            },
        },
{
    match item {
        Item::Fn(f) => match proc_fun(attr, f, fallback) {
            Ok(g) => Ok(Item::Fn(g)),
            Err(e) => Err(e),
        },
        Item::Mod(mm) => {
            let explicit = match get_value(attr) {
                Ok(v) => v,
                Err(e) => return Err(e),
            };
            match resolve_prefix(explicit, fallback) {
                Some(p) => match mm.content {
                    Some(items) => Ok(
                        Item::Mod(ModDecl { content: Some(mark_children(items, &p)) }),
                    ),
                    None => Ok(Item::Mod(ModDecl { content: None })),
                },
                None => Ok(Item::Mod(mm)),
            }
        },
        Item::Other => Err(JniError::UnsupportedTarget),
    }
}

} // verus!
