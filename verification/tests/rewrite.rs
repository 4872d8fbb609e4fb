use esm_dev_server::compiler::parse;
use esm_dev_server::resolve::{
    malformed, EntryPreference, ModuleResolver, ResolutionError, ResolutionFailure,
};
use esm_dev_server::rewrite::{rewrite_resolved, RewriteError, TransformImport};

const IMPORTER: &str = "/srv/project/src/a.js";
const ROOT: &str = "/srv/project";

#[test]
fn resolved_file_below_the_root_becomes_its_url_path() {
    let r = rewrite_resolved(
        Ok("/srv/project/node_modules/left-pad/index.js".to_string()),
        IMPORTER,
        "left-pad",
        ROOT,
    );
    assert_eq!(r.unwrap(), "/node_modules/left-pad/index.js");
}

#[test]
fn rewritten_specifier_behind_the_root_is_the_resolved_file() {
    let resolved = "/srv/project/node_modules/@scope/pkg/dist/index.mjs";
    let url = rewrite_resolved(Ok(resolved.to_string()), IMPORTER, "@scope/pkg", ROOT).unwrap();
    assert_eq!(format!("{}{}", ROOT, url), resolved);
}

#[test]
fn resolved_file_outside_the_root_is_out_of_root() {
    let r = rewrite_resolved(
        Ok("/usr/lib/node_modules/left-pad/index.js".to_string()),
        IMPORTER,
        "left-pad",
        ROOT,
    );
    match r.unwrap_err() {
        RewriteError::OutOfRoot { specifier, importer, resolved, root } => {
            assert_eq!(specifier, "left-pad");
            assert_eq!(importer, IMPORTER);
            assert_eq!(resolved, "/usr/lib/node_modules/left-pad/index.js");
            assert_eq!(root, ROOT);
        }
        other => panic!("{:?}", other),
    }
}

#[test]
fn failed_resolution_is_handed_on() {
    let failure = ResolutionError {
        reason: ResolutionFailure::NotFound,
        specifier: "left-pad".to_string(),
        importer: IMPORTER.to_string(),
        detail: "index not found".to_string(),
    };
    match rewrite_resolved(Err(failure), IMPORTER, "left-pad", ROOT).unwrap_err() {
        RewriteError::Unresolved(e) => {
            assert_eq!(e.reason, ResolutionFailure::NotFound);
            assert_eq!(e.detail, "index not found");
        }
        other => panic!("{:?}", other),
    }
}

#[test]
fn error_names_specifier_and_importer() {
    let unresolved = RewriteError::Unresolved(malformed(IMPORTER, "@scope"));
    assert_eq!(unresolved.specifier(), "@scope");
    assert_eq!(unresolved.importer(), IMPORTER);
    let out_of_root = RewriteError::OutOfRoot {
        specifier: "left-pad".to_string(),
        importer: IMPORTER.to_string(),
        resolved: "/usr/lib/x.js".to_string(),
        root: ROOT.to_string(),
    };
    assert_eq!(out_of_root.specifier(), "left-pad");
    assert_eq!(out_of_root.importer(), IMPORTER);
}

#[test]
fn relative_and_absolute_specifiers_are_rewritten_to_themselves() {
    let resolver = ModuleResolver::new(EntryPreference::Browser);
    let pass = TransformImport { root: ROOT, path: IMPORTER, resolver: &resolver };
    for s in ["./b.js", "../lib/c.js", "/node_modules/left-pad/index.js", "./", "/"] {
        assert_eq!(pass.rewrite_specifier(s).unwrap(), s);
    }
}

#[test]
fn malformed_bare_specifier_fails_without_a_lookup() {
    let resolver = ModuleResolver::new(EntryPreference::Browser);
    let pass = TransformImport { root: ROOT, path: IMPORTER, resolver: &resolver };
    for s in ["", ".", "..", ".\\x", "..\\x"] {
        match pass.rewrite_specifier(s).unwrap_err() {
            RewriteError::Unresolved(e) => {
                assert_eq!(e.reason, ResolutionFailure::Malformed, "{}", s);
                assert_eq!(e.specifier, s);
                assert_eq!(e.importer, IMPORTER);
            }
            other => panic!("{:?}", other),
        }
    }
}

#[test]
fn every_other_bare_specifier_is_looked_up() {
    let resolver = ModuleResolver::new(EntryPreference::Browser);
    let pass = TransformImport {
        root: "/no-such-project",
        path: "/no-such-project/src/a.js",
        resolver: &resolver,
    };
    for s in [".x", "..x", "@scope", "left\\pad", "left%2Fpad", "surely-no-such-package/x"] {
        match pass.rewrite_specifier(s).unwrap_err() {
            RewriteError::Unresolved(e) => {
                assert_eq!(e.reason, ResolutionFailure::NotFound, "{}", s);
                assert_eq!(e.specifier, s);
            }
            other => panic!("{:?}", other),
        }
    }
}

#[test]
fn absent_package_fails_with_a_resolution_error() {
    let resolver = ModuleResolver::new(EntryPreference::Browser);
    let pass = TransformImport {
        root: "/no-such-project",
        path: "/no-such-project/src/a.js",
        resolver: &resolver,
    };
    match pass.rewrite_specifier("surely-no-such-package-is-installed").unwrap_err() {
        RewriteError::Unresolved(e) => {
            assert_eq!(e.reason, ResolutionFailure::NotFound);
            assert_eq!(e.specifier, "surely-no-such-package-is-installed");
            assert_eq!(e.importer, "/no-such-project/src/a.js");
        }
        other => panic!("{:?}", other),
    }
}

#[test]
fn pass_keeps_statements_without_a_bare_source() {
    let resolver = ModuleResolver::new(EntryPreference::Browser);
    let pass = TransformImport { root: ROOT, path: IMPORTER, resolver: &resolver };
    let module = parse(
        IMPORTER,
        "import y from \"./b.js\";\nconst z = 1;\nexport { z };\nexport { q } from \"../q.js\";\nexport * from \"/abs.js\";\n",
    )
    .ok()
    .unwrap();
    let before = module.source_list();
    let folded = pass.fold_module(module).ok().unwrap();
    assert_eq!(folded.source_list(), before);
    assert_eq!(
        before,
        vec![
            Some("./b.js".to_string()),
            None,
            None,
            Some("../q.js".to_string()),
            Some("/abs.js".to_string()),
        ]
    );
}

#[test]
fn pass_stops_at_the_first_source_that_fails() {
    let resolver = ModuleResolver::new(EntryPreference::Browser);
    let pass = TransformImport {
        root: "/no-such-project",
        path: "/no-such-project/src/a.js",
        resolver: &resolver,
    };
    let module = parse(
        "/no-such-project/src/a.js",
        "import y from \"./b.js\";\nimport a from \"\";\nimport b from \"surely-no-such-package-is-installed\";\n",
    )
    .ok()
    .unwrap();
    match pass.fold_module(module) {
        Err(RewriteError::Unresolved(e)) => {
            assert_eq!(e.reason, ResolutionFailure::Malformed);
            assert_eq!(e.specifier, "");
        }
        Err(other) => panic!("{:?}", other),
        Ok(folded) => panic!("{:?}", folded.source_list()),
    }
}

#[test]
fn pass_over_an_empty_module_changes_nothing() {
    let resolver = ModuleResolver::new(EntryPreference::Browser);
    let pass = TransformImport { root: ROOT, path: IMPORTER, resolver: &resolver };
    let folded = pass.fold_module(parse(IMPORTER, "").ok().unwrap()).ok().unwrap();
    assert_eq!(folded.len(), 0);
    assert_eq!(folded.source_list(), vec![]);
}
