use rustdoc_index::location::{location_from_line, DocRoot, LocationError};
use rustdoc_index::Error;

fn seg(parts: &[&str]) -> Vec<String> {
    parts.iter().map(|s| s.to_string()).collect()
}

fn sample_root() -> DocRoot {
    DocRoot {
        path: "/docs".to_string(),
        dirs: vec![seg(&["c"]), seg(&["c", "m"])],
        files: vec![
            seg(&["c", "m", "struct.Foo.html"]),
            seg(&["c", "m", "fn.run.html"]),
            seg(&["c", "m", "index.html"]),
        ],
    }
}

fn resolve(line: &str, roots: &Vec<DocRoot>) -> Result<String, Error> {
    location_from_line(line, roots)
}

fn file_part(url: &str) -> &str {
    match url.find('#') {
        Some(i) => &url[..i],
        None => url,
    }
}

#[test]
fn tuple_field_resolves_to_parent_struct_file_without_anchor() {
    let roots = vec![sample_root()];
    let field = resolve("c::m::Foo::0 structfield", &roots).unwrap();
    assert_eq!(field, "file:///docs/c/m/struct.Foo.html");
    let owner = resolve("c::m::Foo struct", &roots).unwrap();
    assert_eq!(file_part(&owner), file_part(&field));
}

#[test]
fn named_field_anchors_through_its_variant_path() {
    let roots = vec![sample_root()];
    let url = resolve("c::m::Foo::bar structfield", &roots).unwrap();
    assert_eq!(url, "file:///docs/c/m/struct.Foo.html#variant.Foo.field.bar");
}

#[test]
fn file_probe_follows_priority_order() {
    let mut root = sample_root();
    root.files.push(seg(&["c", "m", "struct.run.html"]));
    let roots = vec![root];
    // a struct and a function share the name: the struct file wins the probe
    let url = resolve("c::m::run fn", &roots).unwrap();
    assert_eq!(url, "file:///docs/c/m/struct.run.html#struct.run");
}

#[test]
fn module_resolves_to_its_index() {
    let roots = vec![sample_root()];
    let url = resolve("c::m mod", &roots).unwrap();
    assert_eq!(url, "file:///docs/c/m/index.html");
}

#[test]
fn method_anchor_on_its_own_page() {
    let roots = vec![sample_root()];
    let url = resolve("c::m::Foo::insert method", &roots).unwrap();
    assert_eq!(url, "file:///docs/c/m/struct.Foo.html#method.insert");
}

#[test]
fn std_crate_uses_std_probing_rule_even_in_a_plain_root() {
    // the root is not a toolchain root, yet holds a crate directory named
    // like a standard-library crate, with a module directory shadowing the
    // primitive's page
    let root = DocRoot {
        path: "/plain".to_string(),
        dirs: vec![seg(&["std"]), seg(&["std", "i32"])],
        files: vec![
            seg(&["std", "primitive.i32.html"]),
            seg(&["std", "i32", "index.html"]),
        ],
    };
    let roots = vec![root];
    let url = resolve("std::i32::max_value method", &roots).unwrap();
    assert_eq!(url, "file:///plain/std/primitive.i32.html#method.max_value");
}

#[test]
fn second_root_wins_when_first_lacks_the_crate() {
    let empty = DocRoot { path: "/empty".to_string(), dirs: vec![], files: vec![] };
    let roots = vec![empty, sample_root()];
    let url = resolve("c::m::Foo struct", &roots).unwrap();
    assert_eq!(url, "file:///docs/c/m/struct.Foo.html#struct.Foo");
}

#[test]
fn import_anchors_as_reexport_in_the_module_index() {
    let mut root = sample_root();
    root.dirs.push(seg(&["c", "m", "sub"]));
    root.files.push(seg(&["c", "m", "sub", "index.html"]));
    let roots = vec![root];
    let url = resolve("c::m::sub import", &roots).unwrap();
    assert_eq!(url, "file:///docs/c/m/sub/index.html#reexport.sub");
}

#[test]
fn resolver_error_kinds() {
    let roots = vec![sample_root()];
    assert!(matches!(
        resolve("   ", &roots),
        Err(Error::Location(LocationError::InvalidFormat))
    ));
    assert!(matches!(
        resolve("c::m::Foo nonsense", &roots),
        Err(Error::Location(LocationError::ParseItemTypeError(_)))
    ));
    assert!(matches!(
        resolve("c::m::Missing struct", &roots),
        Err(Error::Location(LocationError::FileNotFound))
    ));
    assert!(matches!(
        resolve("other::m::Foo struct", &roots),
        Err(Error::Location(LocationError::DocNotFound))
    ));
    assert!(matches!(
        resolve("c::a::b::x::y structfield", &roots),
        Err(Error::Location(LocationError::ItemNotFound))
    ));
    let no_roots: Vec<DocRoot> = vec![];
    assert!(matches!(
        resolve("c::m::Foo struct", &no_roots),
        Err(Error::Location(LocationError::DocNotFound))
    ));
}

#[test]
fn trailing_text_after_the_two_tokens_is_ignored() {
    let roots = vec![sample_root()];
    let bare = resolve("c::m::Foo struct", &roots).unwrap();
    let noisy = resolve("c::m::Foo struct   some trailing summary text", &roots).unwrap();
    assert_eq!(bare, noisy);
}

#[test]
fn standard_library_crate_set() {
    for name in ["alloc", "core", "proc_macro", "std", "test"] {
        assert!(rustdoc_index::location::is_std_krate(name));
    }
    assert!(!rustdoc_index::location::is_std_krate("serde"));
    assert!(!rustdoc_index::location::is_std_krate("stdx"));
}

#[test]
fn recognized_primitive_name_set() {
    for name in ["bool", "i32", "str", "usize", "never", "tuple"] {
        assert!(rustdoc_index::doc::is_std_primitive(name));
    }
    assert!(!rustdoc_index::doc::is_std_primitive("String"));
    assert!(!rustdoc_index::doc::is_std_primitive("i33"));
}

#[test]
fn search_index_names_are_recognized() {
    assert!(rustdoc_index::dir::is_search_index_name("search-index1.53.0.js"));
    assert!(rustdoc_index::dir::is_search_index_name("search-index.js"));
    assert!(!rustdoc_index::dir::is_search_index_name("settings.js"));
    assert!(!rustdoc_index::dir::is_search_index_name("search"));
}
