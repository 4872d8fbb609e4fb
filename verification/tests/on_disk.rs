use std::io::Write;
use std::path::Path;

use esm_dev_server::compiler::{parse, LanguageLevel};
use esm_dev_server::resolve::{BareSpecifier, EntryPreference, ModuleResolver};
use esm_dev_server::rewrite::{RewriteError, TransformImport};
use esm_dev_server::transpile::{ErrorKind, Transpiler};
use tempfile::{Builder, NamedTempFile, TempDir};

/// A directory named `name` in `parent`.
fn dir(parent: &Path, name: &str) -> TempDir {
    Builder::new().prefix(name).rand_bytes(0).tempdir_in(parent).unwrap()
}

/// A file named `name` in `parent` that holds `text`.
fn file(parent: &Path, name: &str, text: &str) -> NamedTempFile {
    let mut f = Builder::new().prefix(name).rand_bytes(0).tempfile_in(parent).unwrap();
    f.write_all(text.as_bytes()).unwrap();
    f.flush().unwrap();
    f
}

/// A project with the package `left-pad` installed, whose entry file is
/// `index.js`.
struct Project {
    root: String,
    _keep: (TempDir, TempDir, TempDir, NamedTempFile),
}

fn project() -> Project {
    let top = tempfile::tempdir().unwrap();
    let root = top.path().canonicalize().unwrap();
    let node_modules = dir(&root, "node_modules");
    let package = dir(node_modules.path(), "left-pad");
    let index = file(package.path(), "index.js", "export default function leftPad() {}\n");
    Project {
        root: root.to_str().unwrap().to_string(),
        _keep: (top, node_modules, package, index),
    }
}

#[test]
fn installed_package_resolves_to_its_entry_file() {
    let p = project();
    let resolver = ModuleResolver::new(EntryPreference::Browser);
    let importer = format!("{}/src/a.js", p.root);
    let resolved = resolver.resolve(&importer, &BareSpecifier::parse("left-pad").unwrap()).unwrap();
    assert_eq!(resolved, format!("{}/node_modules/left-pad/index.js", p.root));
}

#[test]
fn installed_package_is_rewritten_to_its_url_path() {
    let p = project();
    let resolver = ModuleResolver::new(EntryPreference::Browser);
    let importer = format!("{}/src/a.js", p.root);
    let pass = TransformImport { root: &p.root, path: &importer, resolver: &resolver };
    let rewritten = pass.rewrite_specifier("left-pad").unwrap();
    assert_eq!(rewritten, "/node_modules/left-pad/index.js");
    assert_eq!(format!("{}{}", p.root, rewritten), format!("{}/node_modules/left-pad/index.js", p.root));
}

#[test]
fn subpath_of_an_installed_package_is_rewritten() {
    let p = project();
    let resolver = ModuleResolver::new(EntryPreference::Browser);
    let importer = format!("{}/src/deep/a.js", p.root);
    let pass = TransformImport { root: &p.root, path: &importer, resolver: &resolver };
    assert_eq!(pass.rewrite_specifier("left-pad/index.js").unwrap(), "/node_modules/left-pad/index.js");
    assert_eq!(pass.rewrite_specifier("left-pad/index").unwrap(), "/node_modules/left-pad/index.js");
}

#[test]
fn package_installed_outside_the_root_is_out_of_root() {
    let p = project();
    let resolver = ModuleResolver::new(EntryPreference::Browser);
    let served = format!("{}/src", p.root);
    let importer = format!("{}/src/a.js", p.root);
    let pass = TransformImport { root: &served, path: &importer, resolver: &resolver };
    match pass.rewrite_specifier("left-pad").unwrap_err() {
        RewriteError::OutOfRoot { specifier, importer: from, resolved, root } => {
            assert_eq!(specifier, "left-pad");
            assert_eq!(from, importer);
            assert_eq!(resolved, format!("{}/node_modules/left-pad/index.js", p.root));
            assert_eq!(root, served);
        }
        other => panic!("{:?}", other),
    }
}

#[test]
fn pass_rewrites_bare_sources_and_keeps_the_rest() {
    let p = project();
    let resolver = ModuleResolver::new(EntryPreference::Browser);
    let importer = format!("{}/src/a.js", p.root);
    let pass = TransformImport { root: &p.root, path: &importer, resolver: &resolver };
    let module = parse(
        &importer,
        "import x from \"left-pad\";\nimport y from \"./b.js\";\nexport const z = 1;\nexport * from \"left-pad\";\nexport { w } from \"left-pad/index.js\";\n",
    )
    .ok()
    .unwrap();
    let folded = pass.fold_module(module).ok().unwrap();
    assert_eq!(
        folded.source_list(),
        vec![
            Some("/node_modules/left-pad/index.js".to_string()),
            Some("./b.js".to_string()),
            None,
            Some("/node_modules/left-pad/index.js".to_string()),
            Some("/node_modules/left-pad/index.js".to_string()),
        ]
    );
}

#[test]
fn import_of_an_installed_package_is_emitted_with_its_url_path() {
    let p = project();
    let t = Transpiler::new(&p.root, LanguageLevel::Es2022, EntryPreference::Browser);
    let output = t
        .transpile(
            &format!("{}/src/a.js", p.root),
            "import x from \"left-pad\";\nimport y from \"./b.js\";\nconsole.log(x, y);\n",
        )
        .unwrap();
    assert!(
        output.text.contains("import x from \"/node_modules/left-pad/index.js\""),
        "{}",
        output.text
    );
    assert!(output.text.contains("import y from \"./b.js\""), "{}", output.text);
}

#[test]
fn package_outside_the_root_is_an_out_of_root_error() {
    let p = project();
    let served = format!("{}/src", p.root);
    let t = Transpiler::new(&served, LanguageLevel::Es2022, EntryPreference::Browser);
    let file = format!("{}/src/a.js", p.root);
    let e = t.transpile(&file, "export * from \"left-pad\";\n").unwrap_err();
    assert_eq!(e.kind, ErrorKind::OutOfRoot);
    assert_eq!(e.file, file);
    assert_eq!(
        e.message,
        format!(
            "cannot import \"left-pad\" into {}: {}/node_modules/left-pad/index.js lies outside the project root {}",
            file, p.root, served
        )
    );
}

#[test]
fn package_whose_name_begins_with_a_dot_is_resolved_and_rewritten() {
    let top = tempfile::tempdir().unwrap();
    let root = top.path().canonicalize().unwrap();
    let node_modules = dir(&root, "node_modules");
    let package = dir(node_modules.path(), ".x");
    let _index = file(package.path(), "index.js", "export const x = 1;\n");
    let root = root.to_str().unwrap().to_string();
    let importer = format!("{}/src/a.js", root);

    let resolver = ModuleResolver::new(EntryPreference::Browser);
    let pass = TransformImport { root: &root, path: &importer, resolver: &resolver };
    assert_eq!(pass.rewrite_specifier(".x").unwrap(), "/node_modules/.x/index.js");

    let t = Transpiler::new(&root, LanguageLevel::Es2022, EntryPreference::Browser);
    let output = t.transpile(&importer, "export * from \".x\";\n").unwrap();
    assert!(output.text.contains("export * from \"/node_modules/.x/index.js\""), "{}", output.text);
}

#[test]
fn rewritten_source_is_emitted_in_place_of_the_old_one() {
    let p = project();
    let t = Transpiler::new(&p.root, LanguageLevel::Es2022, EntryPreference::Browser);
    let output = t
        .transpile(
            &format!("{}/src/a.js", p.root),
            "// pads\nimport x from 'left-pad';\nexport * from 'left-pad';\n",
        )
        .unwrap();
    assert!(!output.text.contains("'left-pad'"), "{}", output.text);
    assert!(output.text.contains("import x from \"/node_modules/left-pad/index.js\""), "{}", output.text);
    assert!(output.text.contains("export * from \"/node_modules/left-pad/index.js\""), "{}", output.text);
    assert!(output.text.contains("// pads"), "{}", output.text);
}

#[test]
fn entry_for_the_browser_is_taken_only_where_it_is_preferred() {
    let top = tempfile::tempdir().unwrap();
    let root = top.path().canonicalize().unwrap();
    let node_modules = dir(&root, "node_modules");
    let package = dir(node_modules.path(), "dual");
    let _manifest = file(
        package.path(),
        "package.json",
        "{ \"main\": \"general.js\", \"browser\": \"browser.js\" }",
    );
    let _general = file(package.path(), "general.js", "export default 1;\n");
    let _browser = file(package.path(), "browser.js", "export default 2;\n");
    let root = root.to_str().unwrap().to_string();
    let importer = format!("{}/a.js", root);

    let browser = ModuleResolver::new(EntryPreference::Browser);
    let pass = TransformImport { root: &root, path: &importer, resolver: &browser };
    assert_eq!(pass.rewrite_specifier("dual").unwrap(), "/node_modules/dual/browser.js");

    let generic = ModuleResolver::new(EntryPreference::Generic);
    let pass = TransformImport { root: &root, path: &importer, resolver: &generic };
    assert_eq!(pass.rewrite_specifier("dual").unwrap(), "/node_modules/dual/general.js");
}
