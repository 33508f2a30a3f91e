use jni_macro::game::{
    countFlagged, countFlaggedAround, fetch, isAllReveal, newGame, revealAround, revealCell,
    switchFlag, Cell, JNI_FALSE, JNI_TRUE,
};
use jni_macro::{
    dots_to_underscores, get_value, is_jni_path, needs_fallback, jni, proc_fun, proc_mod, resolve_prefix, str_eq,
    Child, EnvironmentCache, FnDecl, FnProcessor, Item, JniError, Meta, ModDecl, Visibility,
};

fn s(t: &str) -> String {
    t.to_string()
}

fn toks(t: &[&str]) -> Vec<String> {
    t.iter().map(|x| s(x)).collect()
}

fn plain(name: &str) -> FnDecl {
    FnDecl { attrs: Vec::new(), vis: Visibility::Inherited, abi: None, ident: s(name) }
}

fn with_attrs(attrs: Vec<Meta>, name: &str) -> FnDecl {
    FnDecl { attrs, vis: Visibility::Inherited, abi: None, ident: s(name) }
}

fn bare_marker() -> Meta {
    Meta::Path(toks(&["jni"]))
}

fn no_mangle() -> Meta {
    Meta::Path(toks(&["no_mangle"]))
}

fn module_of(fns: Vec<FnDecl>) -> ModDecl {
    ModDecl { content: Some(fns.into_iter().map(Child::Fn).collect()) }
}

fn marked_children(attr: &[&str], m: ModDecl, fallback: Option<&str>) -> Vec<FnDecl> {
    let out = proc_mod(&toks(attr), m, fallback.map(s)).unwrap().expect("a rewritten module");
    out.content
        .unwrap()
        .into_iter()
        .map(|c| match c {
            Child::Fn(f) => f,
            Child::Other => panic!("a function"),
        })
        .collect()
}

/// The function pass the compiler runs on a child after the module pass.
fn rename_child(f: FnDecl) -> String {
    let mut f = f;
    let pos = f
        .attrs
        .iter()
        .position(|m| match m {
            Meta::Path(p) | Meta::List(p, _) => is_jni_path(p),
            Meta::Other(_) => false,
        })
        .expect("a marker");
    let args = match f.attrs.remove(pos) {
        Meta::List(_, a) => a,
        _ => Vec::new(),
    };
    proc_fun(&args, f, None).unwrap().ident
}

#[test]
fn value_of_empty_argument_list() {
    assert_eq!(get_value(&Vec::new()), Ok(None));
}

#[test]
fn value_of_string_literal() {
    assert_eq!(get_value(&toks(&["\"a.b.C\""])), Ok(Some(s("a.b.C"))));
}

#[test]
fn value_decodes_escapes_and_raw_strings() {
    assert_eq!(get_value(&toks(&["\"a\\\"b\""])), Ok(Some(s("a\"b"))));
    assert_eq!(get_value(&toks(&["r#\"x.y\"#"])), Ok(Some(s("x.y"))));
}

#[test]
fn value_refuses_token_ending_in_non_ascii() {
    assert_eq!(get_value(&toks(&["\"\\é"])), Err(JniError::MalformedArgument(s("\"\\é"))));
    assert_eq!(get_value(&toks(&["\"\\n\"é"])), Err(JniError::MalformedArgument(s("\"\\n\"é"))));
    assert_eq!(get_value(&toks(&["\"é\""])), Ok(Some(s("é"))));
}

#[test]
fn value_ignores_later_tokens() {
    assert_eq!(get_value(&toks(&["\"p\"", ",", "\"q\""])), Ok(Some(s("p"))));
}

#[test]
fn value_refuses_non_string_first_token() {
    assert_eq!(get_value(&toks(&["foo"])), Err(JniError::MalformedArgument(s("foo"))));
    assert_eq!(get_value(&toks(&["42", "\"x\""])), Err(JniError::MalformedArgument(s("42"))));
}

#[test]
fn fallback_needed_only_without_explicit_value() {
    assert!(needs_fallback(&Vec::new()));
    assert!(needs_fallback(&toks(&["\"\""])));
    assert!(!needs_fallback(&toks(&["\"a.b\""])));
    assert!(!needs_fallback(&toks(&["oops"])));
}

#[test]
fn resolve_prefers_non_empty_explicit() {
    assert_eq!(resolve_prefix(Some(s("a.B")), Some(s("env.X"))), Some(s("a.B")));
}

#[test]
fn resolve_falls_back_on_empty_or_absent() {
    assert_eq!(resolve_prefix(Some(s("")), Some(s("env.X"))), Some(s("env.X")));
    assert_eq!(resolve_prefix(None, Some(s("env.X"))), Some(s("env.X")));
    assert_eq!(resolve_prefix(None, None), None);
    assert_eq!(resolve_prefix(Some(s("")), None), None);
}

#[test]
fn cache_reads_once_and_keeps_first_value() {
    let mut c = EnvironmentCache::new();
    assert!(c.needs_read());
    assert_eq!(c.cached(), None);
    assert_eq!(c.populate(Some(s("me.dong"))), Some(s("me.dong")));
    assert!(!c.needs_read());
    for later in [Some(s("other")), None, Some(s(""))] {
        assert_eq!(c.populate(later), Some(s("me.dong")));
        assert_eq!(c.cached(), Some(Some(s("me.dong"))));
    }
}

#[test]
fn cache_reads_environment_once() {
    let mut c = EnvironmentCache::new();
    let mut reads = 0;
    for offer in ["first.value", "second.value", ""] {
        let got = c.get_or_init(|| {
            reads += 1;
            Some(s(offer))
        });
        assert_eq!(got, Some(s("first.value")));
    }
    assert_eq!(reads, 1);
}

#[test]
fn cache_reads_unset_environment_once() {
    let mut c = EnvironmentCache::new();
    let mut reads = 0;
    for offer in [None, Some(s("late.value"))] {
        let got = c.get_or_init(|| {
            reads += 1;
            offer
        });
        assert_eq!(got, None);
    }
    assert_eq!(reads, 1);
}

#[test]
fn cache_keeps_absence() {
    let mut c = EnvironmentCache::new();
    assert_eq!(c.populate(None), None);
    assert!(!c.needs_read());
    assert_eq!(c.populate(Some(s("late.value"))), None);
    assert_eq!(c.cached(), Some(None));
}

#[test]
fn cache_treats_empty_variable_as_unset() {
    let mut c = EnvironmentCache::new();
    assert_eq!(c.populate(Some(s(""))), None);
    assert_eq!(c.cached(), Some(None));
}

#[test]
fn dots_become_underscores() {
    assert_eq!(dots_to_underscores("a.b.C"), "a_b_C");
    assert_eq!(dots_to_underscores(""), "");
    assert_eq!(dots_to_underscores("..é"), "__é");
    assert!(str_eq("ab", "ab"));
    assert!(!str_eq("ab", "abc"));
}

#[test]
fn explicit_dotted_qualifier_names_function() {
    for (q, expected) in [("a.b.C", "Java_a_b_C_f"), ("x.", "Java_x__f"), (".", "Java___f")] {
        let lit = format!("\"{}\"", q);
        let out = proc_fun(&toks(&[&lit]), plain("f"), Some(s("env.E"))).unwrap();
        assert_eq!(out.ident, expected);
    }
}

#[test]
fn function_is_forced_public_system_and_exported() {
    let out = proc_fun(&toks(&["\"p.C\""]), plain("g"), None).unwrap();
    assert_eq!(out.vis, Visibility::Public);
    assert_eq!(out.abi, Some(s("system")));
    assert_eq!(out.attrs, vec![no_mangle()]);
    assert_eq!(out.ident, "Java_p_C_g");
}

#[test]
fn function_without_qualifier_gets_bare_prefix() {
    let out = proc_fun(&Vec::new(), plain("reveal"), None).unwrap();
    assert_eq!(out.ident, "Java_reveal");
    let out = proc_fun(&toks(&["\"\""]), plain("reveal"), None).unwrap();
    assert_eq!(out.ident, "Java_reveal");
}

#[test]
fn function_uses_fallback_without_argument() {
    let out = proc_fun(&Vec::new(), plain("reveal"), Some(s("me.dong.mines"))).unwrap();
    assert_eq!(out.ident, "Java_me_dong_mines_reveal");
}

#[test]
fn function_refuses_malformed_argument() {
    assert_eq!(
        proc_fun(&toks(&["p"]), plain("g"), None),
        Err(JniError::MalformedArgument(s("p")))
    );
}

#[test]
fn forcing_is_idempotent() {
    let f = FnDecl {
        attrs: vec![Meta::Other(s("#[doc = \"x\"]")), no_mangle()],
        vis: Visibility::Public,
        abi: Some(s("system")),
        ident: s("h"),
    };
    let out = proc_fun(&toks(&["\"a.B\""]), f, None).unwrap();
    assert_eq!(out.attrs, vec![Meta::Other(s("#[doc = \"x\"]")), no_mangle()]);
    assert_eq!(out.vis, Visibility::Public);
    assert_eq!(out.abi, Some(s("system")));
    assert_eq!(out.ident, "Java_a_B_h");
    let again = proc_fun(&Vec::new(), out, None).unwrap();
    assert_eq!(again.attrs.len(), 2);
    assert_eq!(again.abi, Some(s("system")));
}

#[test]
fn convention_is_overwritten() {
    let f = FnDecl {
        attrs: Vec::new(),
        vis: Visibility::Restricted,
        abi: Some(s("C")),
        ident: s("k"),
    };
    let out = proc_fun(&Vec::new(), f, None).unwrap();
    assert_eq!(out.abi, Some(s("system")));
    assert_eq!(out.vis, Visibility::Public);
}

#[test]
fn processor_steps() {
    let p = FnProcessor::new(Some(s("q.R")), plain("m")).add_attributes().add_attributes();
    assert_eq!(p.body.attrs.len(), 1);
    let p = p.set_visibility().update_name();
    let f = p.collect();
    assert_eq!(f.ident, "Java_q_R_m");
    assert_eq!(f.vis, Visibility::Public);
}

#[test]
fn module_bare_marker_child() {
    let kids = marked_children(&["\"p.C\""], module_of(vec![with_attrs(vec![bare_marker()], "g")]), None);
    assert_eq!(kids[0].attrs, vec![Meta::List(toks(&["jni"]), toks(&["\"p.C\""]))]);
    assert_eq!(kids[0].ident, "g");
    assert_eq!(rename_child(kids.into_iter().next().unwrap()), "Java_p_C_g");
}

#[test]
fn module_child_with_local_suffix() {
    let init = with_attrs(vec![Meta::List(toks(&["jni"]), toks(&["\"Rsjni\""]))], "init");
    let kids = marked_children(&["\"p.C\""], module_of(vec![init]), None);
    assert_eq!(kids[0].attrs, vec![Meta::List(toks(&["jni"]), toks(&["\"p.C_Rsjni\""]))]);
    assert_eq!(rename_child(kids.into_iter().next().unwrap()), "Java_p_C_Rsjni_init");
}

#[test]
fn module_empty_local_suffix_counts_as_absent() {
    let f = with_attrs(vec![Meta::List(toks(&["jni"]), toks(&["\"\""]))], "f");
    let kids = marked_children(&["\"p.C\""], module_of(vec![f]), None);
    assert_eq!(kids[0].attrs, vec![Meta::List(toks(&["jni"]), toks(&["\"p.C\""]))]);
    assert_eq!(rename_child(kids.into_iter().next().unwrap()), "Java_p_C_f");
}

#[test]
fn module_suffixes_do_not_accumulate() {
    let a = with_attrs(vec![Meta::List(toks(&["jni"]), toks(&["\"A\""]))], "a");
    let b = with_attrs(vec![Meta::List(toks(&["jni"]), toks(&["\"B\""]))], "b");
    let kids = marked_children(&["\"p\""], module_of(vec![a, b]), None);
    let names: Vec<String> = kids.into_iter().map(rename_child).collect();
    assert_eq!(names, vec!["Java_p_A_a", "Java_p_B_b"]);
}

#[test]
fn module_scenario_mines_init() {
    let kids = marked_children(
        &["\"me.dong.mines\""],
        module_of(vec![with_attrs(vec![bare_marker()], "init")]),
        None,
    );
    assert_eq!(rename_child(kids.into_iter().next().unwrap()), "Java_me_dong_mines_init");
}

#[test]
fn module_without_qualifier_is_left_alone() {
    let m = module_of(vec![with_attrs(vec![bare_marker()], "reveal")]);
    assert_eq!(proc_mod(&Vec::new(), m, None), Ok(None));
    let m = module_of(vec![with_attrs(vec![bare_marker()], "reveal")]);
    let expected = module_of(vec![with_attrs(vec![bare_marker()], "reveal")]);
    assert_eq!(jni(&Vec::new(), Item::Mod(m), None), Ok(Item::Mod(expected)));
    let out = proc_fun(&Vec::new(), plain("reveal"), None).unwrap();
    assert_eq!(out.ident, "Java_reveal");
}

#[test]
fn module_uses_fallback_qualifier() {
    let kids = marked_children(&[], module_of(vec![with_attrs(vec![bare_marker()], "go")]), Some("env.Q"));
    assert_eq!(rename_child(kids.into_iter().next().unwrap()), "Java_env_Q_go");
}

#[test]
fn module_leaves_unmarked_and_other_items() {
    let unmarked = with_attrs(vec![Meta::Path(toks(&["inline"])), Meta::Other(s("#[doc = \"d\"]"))], "helper");
    let m = ModDecl {
        content: Some(vec![
            Child::Fn(unmarked),
            Child::Other,
            Child::Fn(with_attrs(vec![Meta::Path(toks(&["jni_macro", "jni"]))], "go")),
        ]),
    };
    let out = proc_mod(&toks(&["\"x.Y\""]), m, None).unwrap().unwrap();
    let items = out.content.unwrap();
    assert_eq!(
        items[0],
        Child::Fn(with_attrs(vec![Meta::Path(toks(&["inline"])), Meta::Other(s("#[doc = \"d\"]"))], "helper"))
    );
    assert_eq!(items[1], Child::Other);
    assert_eq!(
        items[2],
        Child::Fn(with_attrs(vec![Meta::List(toks(&["jni"]), toks(&["\"x.Y\""]))], "go"))
    );
}

#[test]
fn module_rewrites_first_marker_only() {
    let f = with_attrs(vec![Meta::Path(toks(&["cold"])), bare_marker(), bare_marker()], "t");
    let kids = marked_children(&["\"z\""], module_of(vec![f]), None);
    assert_eq!(
        kids[0].attrs,
        vec![Meta::Path(toks(&["cold"])), Meta::List(toks(&["jni"]), toks(&["\"z\""])), bare_marker()]
    );
}

#[test]
fn module_skips_marker_without_single_string() {
    let two = || Meta::List(toks(&["jni"]), toks(&["\"a\"", ",", "\"b\""]));
    let num = || Meta::List(toks(&["jni"]), toks(&["7"]));
    let f = with_attrs(vec![two(), num(), bare_marker()], "u");
    let kids = marked_children(&["\"m\""], module_of(vec![f]), None);
    assert_eq!(kids[0].attrs, vec![two(), num(), Meta::List(toks(&["jni"]), toks(&["\"m\""]))]);
}

#[test]
fn module_quotes_merged_qualifier() {
    let kids = marked_children(&["\"a\\\"b\""], module_of(vec![with_attrs(vec![bare_marker()], "v")]), None);
    assert_eq!(kids[0].attrs, vec![Meta::List(toks(&["jni"]), toks(&["\"a\\\"b\""]))]);
}

#[test]
fn module_without_body_or_with_bad_argument() {
    assert_eq!(proc_mod(&toks(&["\"a\""]), ModDecl { content: None }, None), Ok(None));
    assert_eq!(
        proc_mod(&toks(&["a"]), module_of(Vec::new()), None),
        Err(JniError::MalformedArgument(s("a")))
    );
}

#[test]
fn marker_paths() {
    assert!(is_jni_path(&toks(&["jni"])));
    assert!(is_jni_path(&toks(&["jni_macro", "jni"])));
    assert!(is_jni_path(&toks(&["jni_macro", "jni", "x"])));
    assert!(!is_jni_path(&toks(&["jni", "x"])));
    assert!(!is_jni_path(&toks(&["jni_macro"])));
    assert!(!is_jni_path(&Vec::new()));
}

#[test]
fn dispatch_refuses_other_items() {
    assert_eq!(jni(&Vec::new(), Item::Other, None), Err(JniError::UnsupportedTarget));
}

#[test]
fn dispatch_routes_functions() {
    match jni(&toks(&["\"a.b\""]), Item::Fn(plain("c")), None) {
        Ok(Item::Fn(f)) => assert_eq!(f.ident, "Java_a_b_c"),
        other => panic!("unexpected {:?}", other),
    }
}

#[test]
fn game_cells() {
    assert_eq!(switchFlag(-1, 2), None);
    assert_eq!(switchFlag(3, 4), Some(Cell { x: 3, y: 4 }));
    assert_eq!(revealCell(0, -5), None);
    assert_eq!(revealCell(0, 0), Some(Cell { x: 0, y: 0 }));
    assert_eq!(revealAround(7, 1), Some(Cell { x: 7, y: 1 }));
    assert_eq!(countFlaggedAround(-2, -2), None);
}

#[test]
fn game_new_game_start() {
    assert_eq!(newGame(-1, 0), None);
    assert_eq!(newGame(3, 9), Some((3, 9)));
    assert_eq!(newGame(300, 256), Some((44, 0)));
}

#[test]
fn game_booleans_and_counts() {
    assert_eq!(isAllReveal(true), JNI_TRUE);
    assert_eq!(isAllReveal(false), JNI_FALSE);
    assert!(fetch(1));
    assert!(!fetch(0));
    assert!(!fetch(2));
    assert_eq!(countFlagged(12), 12);
    assert_eq!(countFlagged((1usize << 32) + 7), 7);
}
