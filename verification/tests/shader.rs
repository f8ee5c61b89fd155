use paya::preamble::SHADER_PREAMBLE_GLSL;
use paya::shader::{
    find_include_target, find_include_targets, find_targets_of, join_include_target, replace_includes,
    shader_source, shader_type_from_path, splice_includes, IncludeResolver, ResolveStep, ShaderLoadOptions,
    ShaderOptimization, ShaderType, SourceFile, INCLUDE_PATTERN, QUOTED_PATTERN,
};

fn file(path: &str, directory: &str, contents: &str) -> SourceFile {
    SourceFile { path: path.to_owned(), directory: directory.to_owned(), contents: contents.to_owned() }
}

fn resolve(root: &str, files: &[(&str, &str, &str)]) -> ResolveStep {
    let mut resolver = IncludeResolver::new(root.to_owned());
    for _ in 0..1000 {
        match resolver.advance() {
            ResolveStep::NeedFile(path) => {
                let found = files.iter().find(|(name, _, _)| *name == path).expect("a file that the test has");
                resolver.provide(file(found.0, found.1, found.2));
            }
            last => return last,
        }
    }
    panic!("the resolution does not end");
}

#[test]
fn patterns_are_the_documented_ones() {
    assert_eq!(INCLUDE_PATTERN, r##"#include "([^\"]*\/)*[^"]+""##);
    assert_eq!(QUOTED_PATTERN, r#""[^"]+""#);
    assert!(regex::Regex::new(INCLUDE_PATTERN).is_ok());
    assert!(regex::Regex::new(QUOTED_PATTERN).is_ok());
}

#[test]
fn include_targets_are_found_in_order() {
    let source = "#version 450\n#include \"a.glsl\"\nvoid f();\n#include \"lib/b.glsl\"\n// #include <c>\n";
    assert_eq!(
        find_include_targets("shaders", source),
        Some(vec!["shaders/a.glsl".to_owned(), "shaders/lib/b.glsl".to_owned()])
    );
    assert_eq!(find_include_targets("shaders", "void main() {}"), Some(vec![]));
    assert_eq!(find_include_targets("", "#include \"x\""), Some(vec!["/x".to_owned()]));
    assert_eq!(find_include_target("d", "#include \"x/y.glsl\""), Some("d/x/y.glsl".to_owned()));
    assert_eq!(find_include_target("d", "no quotes here"), None);
}

#[test]
fn includes_are_replaced_in_order() {
    let source = "A\n#include \"x\"\nB\n#include \"y\"\nC";
    assert_eq!(
        replace_includes(source, &vec!["<x>".to_owned(), "<y>".to_owned()]),
        Some("A\n<x>\nB\n<y>\nC".to_owned())
    );
    assert_eq!(replace_includes(source, &vec!["<x>".to_owned()]), None);
    assert_eq!(replace_includes("plain", &vec![]), Some("plain".to_owned()));
    assert_eq!(replace_includes("#include \"x\"", &vec!["body".to_owned()]), Some("body".to_owned()));
    assert_eq!(replace_includes("plain", &vec!["extra".to_owned()]), None);
}

#[test]
fn includes_resolve_depth_first() {
    let files = [
        ("s/main.comp.glsl", "s", "top\n#include \"a.glsl\"\nmid\n#include \"inc/b.glsl\"\nend"),
        ("s/a.glsl", "s", "[a #include \"inc/c.glsl\" a]"),
        ("s/inc/b.glsl", "s/inc", "[b]"),
        ("s/inc/c.glsl", "s/inc", "[c]"),
    ];
    match resolve("s/main.comp.glsl", &files) {
        ResolveStep::Done(text) => assert_eq!(text, "top\n[a [c] a]\nmid\n[b]\nend"),
        _ => panic!("the resolution should be done"),
    }
    match resolve("s/inc/b.glsl", &files) {
        ResolveStep::Done(text) => assert_eq!(text, "[b]"),
        _ => panic!("the resolution should be done"),
    }
}

#[test]
fn first_step_asks_for_the_root() {
    let mut resolver = IncludeResolver::new("root.vert".to_owned());
    assert!(matches!(resolver.advance(), ResolveStep::NeedFile(path) if path == "root.vert"));
    assert!(matches!(resolver.advance(), ResolveStep::NeedFile(path) if path == "root.vert"));
    resolver.provide(file("root.vert", ".", "void main() {}"));
    assert!(matches!(resolver.advance(), ResolveStep::Done(text) if text == "void main() {}"));
    assert!(matches!(resolver.advance(), ResolveStep::Done(text) if text == "void main() {}"));
}

#[test]
fn files_are_asked_for_in_the_order_of_the_includes() {
    let mut resolver = IncludeResolver::new("d/a.glsl".to_owned());
    resolver.provide(file("d/a.glsl", "d", "#include \"b.glsl\"|#include \"c.glsl\""));
    assert!(matches!(resolver.advance(), ResolveStep::NeedFile(path) if path == "d/b.glsl"));
    resolver.provide(file("d/b.glsl", "d", "[#include \"e.glsl\"]"));
    assert!(matches!(resolver.advance(), ResolveStep::NeedFile(path) if path == "d/e.glsl"));
    resolver.provide(file("d/e.glsl", "d", "e"));
    assert!(matches!(resolver.advance(), ResolveStep::NeedFile(path) if path == "d/c.glsl"));
    resolver.provide(file("d/c.glsl", "d", "c"));
    assert!(matches!(resolver.advance(), ResolveStep::Done(text) if text == "[e]|c"));
}

#[test]
fn cycles_are_reported() {
    let files =
        [("d/a.glsl", "d", "#include \"b.glsl\""), ("d/b.glsl", "d", "x #include \"a.glsl\" y")];
    assert!(matches!(resolve("d/a.glsl", &files), ResolveStep::Cyclic(path) if path == "d/a.glsl"));
    assert!(matches!(resolve("d/b.glsl", &files), ResolveStep::Cyclic(path) if path == "d/b.glsl"));
    let own = [("d/a.glsl", "d", "#include \"a.glsl\"")];
    assert!(matches!(resolve("d/a.glsl", &own), ResolveStep::Cyclic(path) if path == "d/a.glsl"));
    let deep = [
        ("d/r.glsl", "d", "#include \"ok.glsl\"\n#include \"a.glsl\""),
        ("d/ok.glsl", "d", "ok"),
        ("d/a.glsl", "d", "#include \"b.glsl\""),
        ("d/b.glsl", "d", "#include \"c.glsl\""),
        ("d/c.glsl", "d", "#include \"a.glsl\""),
    ];
    assert!(matches!(resolve("d/r.glsl", &deep), ResolveStep::Cyclic(path) if path == "d/a.glsl"));
}

#[test]
fn an_include_named_twice_is_filled_in_twice() {
    let twice = [("d/a.glsl", "d", "#include \"b.glsl\"\n#include \"b.glsl\""), ("d/b.glsl", "d", "b")];
    match resolve("d/a.glsl", &twice) {
        ResolveStep::Done(text) => assert_eq!(text, "b\nb"),
        _ => panic!("the resolution should be done"),
    }
}

#[test]
fn shared_includes_resolve_once_they_are_done() {
    let files = [
        ("d/a.glsl", "d", "#include \"b.glsl\"|#include \"c.glsl\""),
        ("d/b.glsl", "d", "b"),
        ("d/c.glsl", "d", "c"),
        ("d/top.glsl", "d", "#include \"b.glsl\"+#include \"a.glsl\""),
    ];
    match resolve("d/a.glsl", &files) {
        ResolveStep::Done(text) => assert_eq!(text, "b|c"),
        _ => panic!("the resolution should be done"),
    }
    match resolve("d/top.glsl", &files) {
        ResolveStep::Done(text) => assert_eq!(text, "b+b|c"),
        _ => panic!("the resolution should be done"),
    }
}

#[test]
fn a_file_included_from_two_places_is_no_cycle() {
    let files = [
        ("s/root.glsl", "s", "<#include \"a.glsl\"><#include \"b.glsl\">"),
        ("s/b.glsl", "s", "b(#include \"a.glsl\")"),
        ("s/a.glsl", "s", "a"),
    ];
    match resolve("s/root.glsl", &files) {
        ResolveStep::Done(text) => assert_eq!(text, "<a><b(a)>"),
        _ => panic!("the resolution should be done"),
    }
}

#[test]
fn malformed_directives_are_reported() {
    let mut resolver = IncludeResolver::new("a".to_owned());
    resolver.provide(file("a", "d", "x"));
    assert!(matches!(resolver.advance(), ResolveStep::Done(text) if text == "x"));
    assert_eq!(find_targets_of("d", &vec!["#include \"x\"".to_owned(), "#include".to_owned()]), None);
    assert_eq!(
        find_targets_of("d", &vec!["#include \"x\"".to_owned(), "#include \"y/z\"".to_owned()]),
        Some(vec!["d/x".to_owned(), "d/y/z".to_owned()])
    );
    assert_eq!(find_targets_of("d", &vec![]), Some(vec![]));
}

#[test]
fn targets_are_joined_from_the_quoted_parts() {
    assert_eq!(join_include_target("dir", &vec!["\"a/b.glsl\"".to_owned()]), Some("dir/a/b.glsl".to_owned()));
    assert_eq!(
        join_include_target("dir", &vec!["\"first\"".to_owned(), "\"second\"".to_owned()]),
        Some("dir/first".to_owned())
    );
    assert_eq!(join_include_target("", &vec!["\"x\"".to_owned()]), Some("/x".to_owned()));
    assert_eq!(join_include_target("dir", &vec!["\"\"".to_owned()]), Some("dir/".to_owned()));
    assert_eq!(join_include_target("dir", &vec!["[x]".to_owned()]), Some("dir/x".to_owned()));
    assert_eq!(join_include_target("dir", &vec!["x".to_owned()]), None);
    assert_eq!(join_include_target("dir", &vec!["".to_owned(), "\"x\"".to_owned()]), None);
    assert_eq!(join_include_target("dir", &vec![]), None);
}

#[test]
fn fills_are_spliced_between_the_gaps() {
    let gaps = vec!["A".to_owned(), "B".to_owned(), "C".to_owned()];
    assert_eq!(splice_includes(&gaps, &vec!["1".to_owned(), "2".to_owned()]), Some("A1B2C".to_owned()));
    assert_eq!(splice_includes(&gaps, &vec!["1".to_owned()]), None);
    assert_eq!(splice_includes(&gaps, &vec!["1".to_owned(), "2".to_owned(), "3".to_owned()]), None);
    assert_eq!(splice_includes(&vec!["only".to_owned()], &vec![]), Some("only".to_owned()));
    assert_eq!(splice_includes(&vec!["".to_owned(), "".to_owned()], &vec!["fill".to_owned()]), Some("fill".to_owned()));
    assert_eq!(splice_includes(&vec![], &vec![]), None);
}

#[test]
fn shader_types_come_from_the_extension() {
    assert_eq!(shader_type_from_path("a.vert"), Some(ShaderType::Vertex));
    assert_eq!(shader_type_from_path("dir.x/a.geom"), Some(ShaderType::Geometry));
    assert_eq!(shader_type_from_path("a.frag"), Some(ShaderType::Fragment));
    assert_eq!(shader_type_from_path("a.comp"), Some(ShaderType::Compute));
    assert_eq!(shader_type_from_path("mandelbrot.comp.glsl"), Some(ShaderType::Compute));
    assert_eq!(shader_type_from_path("a.b.vert.glsl"), Some(ShaderType::Vertex));
    assert_eq!(shader_type_from_path("vert.glsl"), Some(ShaderType::Vertex));
    assert_eq!(shader_type_from_path("frag"), Some(ShaderType::Fragment));
    assert_eq!(shader_type_from_path("a.glsl"), None);
    assert_eq!(shader_type_from_path("glsl"), None);
    assert_eq!(shader_type_from_path("a.vert.txt"), None);
    assert_eq!(shader_type_from_path("a.verts"), None);
    assert_eq!(shader_type_from_path("a."), None);
    assert_eq!(shader_type_from_path(""), None);
}

#[test]
fn load_options() {
    let options = ShaderLoadOptions::for_file("shaders/tri.frag.glsl", "tri.frag.glsl".to_owned()).unwrap();
    assert_eq!(options.shader_type(), ShaderType::Fragment);
    assert_eq!(options.optimization(), ShaderOptimization::Zero);
    assert_eq!(options.entry_point(), "main");
    assert_eq!(options.name(), "tri.frag.glsl");
    assert!(ShaderLoadOptions::for_file("readme.md", "readme.md".to_owned()).is_none());
    let own = ShaderLoadOptions::new(ShaderType::Compute, ShaderOptimization::Size, "cs".to_owned(), "n".to_owned());
    assert_eq!((own.shader_type(), own.optimization()), (ShaderType::Compute, ShaderOptimization::Size));
    assert_eq!((own.entry_point().as_str(), own.name().as_str()), ("cs", "n"));
}

#[test]
fn sources_start_with_the_preamble() {
    let source = shader_source("void main() {}\n");
    assert!(source.starts_with("#version 450\n"));
    assert_eq!(source, format!("{}{}", SHADER_PREAMBLE_GLSL, "void main() {}\n"));
    assert!(SHADER_PREAMBLE_GLSL.contains("layout (set = 0, binding = 0) readonly buffer BufferAddresses"));
    assert!(SHADER_PREAMBLE_GLSL.contains("layout (set = 0, binding = 1, rgba8) uniform image2D u_images[100];"));
    assert!(SHADER_PREAMBLE_GLSL.contains("#define get_buffer(id, type) type(u_addresses.addresses[id.index]);"));
    assert!(SHADER_PREAMBLE_GLSL.contains("#define get_storage_image(id) u_images[id.index]"));
    assert_eq!(shader_source(""), SHADER_PREAMBLE_GLSL);
}
