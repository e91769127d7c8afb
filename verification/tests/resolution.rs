use module_resolver::bundle::{single_output, Loader};
use module_resolver::error::ResolveError;
use module_resolver::identity::FileIdentity;
use module_resolver::registry::PackageRegistry;
use module_resolver::resolver::{Resolution, Resolver};

fn file(path: &str) -> FileIdentity {
    FileIdentity::Concrete(path.to_string())
}

fn resolver_with(names: Vec<(&str, FileIdentity)>) -> Resolver {
    let mut packages = PackageRegistry::new();
    for (name, identity) in names {
        packages.insert(name.to_string(), identity);
    }
    Resolver { packages }
}

#[test]
fn relative_specifier_is_joined_to_the_importers_directory() {
    let resolver = resolver_with(Vec::new());
    assert_eq!(
        resolver.resolve(&file("/proj/src/main.js"), "./util.js"),
        Ok(Resolution::Pending("/proj/src/./util.js".to_string()))
    );
    assert_eq!(
        resolver.resolve(&file("/proj/src/main.js"), "../lib/x.js"),
        Ok(Resolution::Pending("/proj/src/../lib/x.js".to_string()))
    );
    assert_eq!(
        resolver.resolve(&file("/proj/src/main.js"), "sibling.js"),
        Ok(Resolution::Pending("/proj/src/sibling.js".to_string()))
    );
}

#[test]
fn relative_specifier_that_exists_resolves_to_its_canonical_path() {
    let resolver = resolver_with(Vec::new());
    let pending = resolver.resolve(&file("/proj/src/main.js"), "./x").unwrap();
    assert_eq!(Resolver::finish(pending, Some("/real/proj/src/x".to_string())), Ok(file("/real/proj/src/x")));
}

#[test]
fn relative_specifier_that_does_not_exist_fails() {
    let resolver = resolver_with(Vec::new());
    let pending = resolver.resolve(&file("/proj/src/main.js"), "./x").unwrap();
    assert_eq!(Resolver::finish(pending, None), Err(ResolveError::UnresolvedRelativePath));
}

#[test]
fn absolute_specifier_is_taken_as_it_stands() {
    let resolver = resolver_with(Vec::new());
    assert_eq!(
        resolver.resolve(&file("/proj/src/main.js"), "/abs/../other/./x.js"),
        Ok(Resolution::Found(file("/abs/../other/./x.js")))
    );
}

#[test]
fn found_file_is_not_touched_by_finish() {
    assert_eq!(Resolver::finish(Resolution::Found(file("/abs/x.js")), None), Ok(file("/abs/x.js")));
    assert_eq!(
        Resolver::finish(Resolution::Found(file("/abs/x.js")), Some("/other".to_string())),
        Ok(file("/abs/x.js"))
    );
}

#[test]
fn registered_name_wins_over_sibling_file() {
    let resolver = resolver_with(vec![("leftpad", file("/pkgs/leftpad/index.js"))]);
    let resolution = resolver.resolve(&file("/proj/src/main.js"), "leftpad").unwrap();
    assert_eq!(resolution, Resolution::Found(file("/pkgs/leftpad/index.js")));
    assert_eq!(
        Resolver::finish(resolution, Some("/proj/src/leftpad".to_string())),
        Ok(file("/pkgs/leftpad/index.js"))
    );
}

#[test]
fn registered_name_wins_over_path_syntax() {
    let resolver = resolver_with(vec![
        ("./util.js", file("/registered/relative.js")),
        ("/abs.js", file("/registered/absolute.js")),
    ]);
    assert_eq!(
        resolver.resolve(&file("/proj/src/main.js"), "./util.js"),
        Ok(Resolution::Found(file("/registered/relative.js")))
    );
    assert_eq!(
        resolver.resolve(&file("/proj/src/main.js"), "/abs.js"),
        Ok(Resolution::Found(file("/registered/absolute.js")))
    );
}

#[test]
fn registered_name_resolves_for_a_virtual_importer() {
    let resolver = resolver_with(vec![("leftpad", file("/pkgs/leftpad/index.js"))]);
    assert_eq!(
        resolver.resolve(&FileIdentity::Virtual("<anon>".to_string()), "leftpad"),
        Ok(Resolution::Found(file("/pkgs/leftpad/index.js")))
    );
}

#[test]
fn virtual_importer_cannot_anchor_a_path() {
    let resolver = resolver_with(vec![("leftpad", file("/pkgs/leftpad/index.js"))]);
    let base = FileIdentity::Virtual("<anon>".to_string());
    assert_eq!(resolver.resolve(&base, "./util.js"), Err(ResolveError::BaseNotResolvable));
    assert_eq!(resolver.resolve(&base, "/abs/x.js"), Err(ResolveError::BaseNotResolvable));
    assert_eq!(resolver.resolve(&base, "left"), Err(ResolveError::BaseNotResolvable));
}

#[test]
fn importer_without_a_directory_cannot_anchor_a_relative_path() {
    let resolver = resolver_with(Vec::new());
    assert_eq!(resolver.resolve(&file("/"), "./util.js"), Err(ResolveError::BaseNotResolvable));
    assert_eq!(
        resolver.resolve(&file("/"), "/abs/x.js"),
        Ok(Resolution::Found(file("/abs/x.js")))
    );
}

#[test]
fn plan_follows_the_given_path_facts() {
    let resolver = resolver_with(vec![("leftpad", file("/pkgs/leftpad/index.js"))]);
    let base = file("/proj/src/main.js");
    assert_eq!(
        resolver.plan(&base, "x", true, Some("/anywhere/x".to_string())),
        Ok(Resolution::Pending("/anywhere/x".to_string()))
    );
    assert_eq!(resolver.plan(&base, "x", true, None), Err(ResolveError::BaseNotResolvable));
    assert_eq!(resolver.plan(&base, "x", false, None), Ok(Resolution::Found(file("x"))));
    assert_eq!(
        resolver.plan(&base, "leftpad", true, None),
        Ok(Resolution::Found(file("/pkgs/leftpad/index.js")))
    );
}

#[test]
fn loader_reads_files_on_disk_only() {
    let loader = Loader {};
    assert_eq!(loader.load(&file("/proj/src/main.js")), Ok("/proj/src/main.js"));
    assert_eq!(
        loader.load(&FileIdentity::Virtual("<anon>".to_string())),
        Err(ResolveError::UnsupportedIdentity)
    );
}

#[test]
fn exactly_one_output_module_is_accepted() {
    assert_eq!(single_output(1), Ok(()));
    assert_eq!(single_output(0), Err(ResolveError::DuplicateOrAmbiguousOutput));
    assert_eq!(single_output(2), Err(ResolveError::DuplicateOrAmbiguousOutput));
}

#[test]
fn identities_compare_by_kind_and_text() {
    assert_eq!(file("/a.js"), file("/a.js"));
    assert_ne!(file("/a.js"), file("/b.js"));
    assert_ne!(file("/a.js"), FileIdentity::Virtual("/a.js".to_string()));
    assert_eq!(FileIdentity::Virtual("t".to_string()), FileIdentity::Virtual("t".to_string()));
    let original = file("/a.js");
    assert_eq!(original.clone(), original);
    assert!(original.is_concrete());
    assert_eq!(original.path(), Some("/a.js"));
    assert!(!FileIdentity::Virtual("t".to_string()).is_concrete());
    assert_eq!(FileIdentity::Virtual("t".to_string()).path(), None);
}

#[test]
fn every_error_has_its_own_message() {
    let all = [
        ResolveError::ManifestReadError,
        ResolveError::ManifestParseError,
        ResolveError::MissingPackageName,
        ResolveError::MissingEntryPoint,
        ResolveError::MissingConditionEntry,
        ResolveError::UnresolvedExportTarget,
        ResolveError::BaseNotResolvable,
        ResolveError::UnresolvedRelativePath,
        ResolveError::UnsupportedIdentity,
        ResolveError::DuplicateOrAmbiguousOutput,
    ];
    for (i, first) in all.iter().enumerate() {
        assert!(!first.message().is_empty());
        for second in &all[i + 1..] {
            assert_ne!(first.message(), second.message());
        }
    }
    assert_eq!(ResolveError::MissingPackageName.message(), "the manifest names no package");
}

#[test]
fn importer_in_the_root_directory_anchors_at_the_root() {
    let resolver = resolver_with(Vec::new());
    assert_eq!(
        resolver.resolve(&file("/main.js"), "./util.js"),
        Ok(Resolution::Pending("/./util.js".to_string()))
    );
}

#[test]
fn relative_importer_anchors_relative_paths() {
    let resolver = resolver_with(Vec::new());
    assert_eq!(
        resolver.resolve(&file("src/main.js"), "./util.js"),
        Ok(Resolution::Pending("src/./util.js".to_string()))
    );
    assert_eq!(
        resolver.resolve(&file("main.js"), "./util.js"),
        Ok(Resolution::Pending("./util.js".to_string()))
    );
}
