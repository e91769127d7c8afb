use module_resolver::error::ResolveError;
use module_resolver::manifest::{scan, ExportTarget, ManifestFile, PackageManifest};

fn target(path: &str) -> ExportTarget {
    ExportTarget { import: Some(path.to_string()), default: None }
}

fn decoded(exports: Vec<(&str, ExportTarget)>) -> ManifestFile {
    ManifestFile::Decoded {
        name: Some("pkg".to_string()),
        main: Some("main.js".to_string()),
        browser: None,
        module: None,
        exports: exports.into_iter().map(|(key, value)| (key.to_string(), value)).collect(),
    }
}

#[test]
fn unreadable_file_is_a_read_error() {
    assert_eq!(scan(ManifestFile::Unreadable).err(), Some(ResolveError::ManifestReadError));
}

#[test]
fn undecodable_text_is_a_parse_error() {
    assert_eq!(scan(ManifestFile::Undecodable).err(), Some(ResolveError::ManifestParseError));
}

#[test]
fn decoded_fields_become_the_manifest() {
    let manifest = scan(decoded(vec![(".", target("./idx.js")), ("./sub", target("./sub.js"))]))
        .unwrap();
    assert_eq!(manifest.name(), Some("pkg"));
    assert_eq!(manifest.main(), Some("main.js"));
    assert_eq!(manifest.browser(), None);
    assert_eq!(manifest.module(), None);
    assert_eq!(manifest.legacy_entry(), Some("main.js"));
    let keys: Vec<&str> = manifest.exports().iter().map(|(key, _)| key.as_str()).collect();
    assert_eq!(keys, vec![".", "./sub"]);
    assert_eq!(manifest.exports()[1].1.select(), Some("./sub.js"));
}

#[test]
fn scan_does_not_ask_for_a_name_or_an_entry_point() {
    let file = ManifestFile::Decoded {
        name: None,
        main: None,
        browser: None,
        module: None,
        exports: Vec::new(),
    };
    let manifest = scan(file).unwrap();
    assert_eq!(manifest.name(), None);
    assert_eq!(manifest.legacy_entry(), None);
}

#[test]
fn subpath_without_leading_dot_is_a_parse_error() {
    assert_eq!(
        scan(decoded(vec![("sub", target("./sub.js"))])).err(),
        Some(ResolveError::ManifestParseError)
    );
}

#[test]
fn empty_subpath_is_a_parse_error() {
    assert_eq!(
        scan(decoded(vec![(".", target("./idx.js")), ("", target("./sub.js"))])).err(),
        Some(ResolveError::ManifestParseError)
    );
}

#[test]
fn repeated_subpath_is_a_parse_error() {
    assert_eq!(
        scan(decoded(vec![
            ("./a", target("./a.js")),
            ("./b", target("./b.js")),
            ("./a", target("./c.js")),
        ]))
        .err(),
        Some(ResolveError::ManifestParseError)
    );
}

#[test]
fn constructor_applies_the_same_schema() {
    let bad = PackageManifest::new(
        Some("pkg".to_string()),
        None,
        None,
        None,
        vec![("x".to_string(), target("./x.js"))],
    );
    assert_eq!(bad.err(), Some(ResolveError::ManifestParseError));
    let good = PackageManifest::new(
        Some("pkg".to_string()),
        None,
        None,
        None,
        vec![(".".to_string(), target("./x.js"))],
    );
    assert!(good.is_ok());
}
