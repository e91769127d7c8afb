use module_resolver::entrypoint::{entry_probes, load_package_entrypoint};
use module_resolver::identity::FileIdentity;
use module_resolver::manifest::{scan, ExportTarget, ManifestFile};
use module_resolver::registry::PackageRegistry;
use module_resolver::resolver::{Resolution, Resolver};

fn on_disk(path: &str) -> FileIdentity {
    FileIdentity::Concrete(path.to_string())
}

/// A file system in which the listed files exist and every path is already canonical
/// but for `.` components.
fn canonicalize(existing: &[&str], path: &str) -> Option<String> {
    let plain = path.replace("/./", "/");
    if existing.contains(&plain.as_str()) {
        Some(plain)
    } else {
        None
    }
}

fn answers(existing: &[&str], probes: &[Option<String>]) -> Vec<Option<String>> {
    probes.iter().map(|probe| probe.as_ref().and_then(|path| canonicalize(existing, path))).collect()
}

#[test]
fn leftpad_main_end_to_end() {
    let disk = ["/pkgs/leftpad/package.json", "/pkgs/leftpad/index.js", "/proj/src/main.js"];
    let manifest = scan(ManifestFile::Decoded {
        name: Some("leftpad".to_string()),
        main: Some("index.js".to_string()),
        browser: None,
        module: None,
        exports: Vec::new(),
    })
    .unwrap();
    let probes = entry_probes(&manifest, "/pkgs/leftpad");
    let canonical = answers(&disk, &probes);
    let scans = vec![load_package_entrypoint(&manifest, &canonical)];
    let resolver = Resolver { packages: PackageRegistry::build(&scans).unwrap() };

    let resolution = resolver.resolve(&on_disk("/proj/src/main.js"), "leftpad").unwrap();
    assert_eq!(Resolver::finish(resolution, None), Ok(on_disk("/pkgs/leftpad/index.js")));
}

#[test]
fn sibling_file_end_to_end() {
    let disk = ["/proj/src/main.js", "/proj/src/util.js"];
    let resolver = Resolver { packages: PackageRegistry::new() };
    let resolution = resolver.resolve(&on_disk("/proj/src/main.js"), "./util.js").unwrap();
    let canonical = match &resolution {
        Resolution::Pending(path) => canonicalize(&disk, path),
        Resolution::Found(_) => None,
    };
    assert_eq!(Resolver::finish(resolution, canonical), Ok(on_disk("/proj/src/util.js")));
}

#[test]
fn exports_manifest_registers_exactly_two_names() {
    let disk = ["/pkgs/pkg/idx.js", "/pkgs/pkg/sub.js"];
    let manifest = scan(ManifestFile::Decoded {
        name: Some("pkg".to_string()),
        main: None,
        browser: None,
        module: None,
        exports: vec![
            (".".to_string(), ExportTarget { import: Some("./idx.js".to_string()), default: None }),
            (
                "./sub".to_string(),
                ExportTarget { import: None, default: Some("./sub.js".to_string()) },
            ),
        ],
    })
    .unwrap();
    let canonical = answers(&disk, &entry_probes(&manifest, "/pkgs/pkg"));
    let scans = vec![load_package_entrypoint(&manifest, &canonical)];
    let registry = PackageRegistry::build(&scans).unwrap();
    assert_eq!(registry.len(), 2);
    assert_eq!(registry.get("pkg"), Some(&on_disk("/pkgs/pkg/idx.js")));
    assert_eq!(registry.get("pkg/sub"), Some(&on_disk("/pkgs/pkg/sub.js")));
}

#[test]
fn registered_package_shadows_sibling_file_of_the_same_name() {
    let disk = ["/pkgs/leftpad/index.js", "/proj/src/main.js", "/proj/src/leftpad"];
    let mut packages = PackageRegistry::new();
    packages.insert("leftpad".to_string(), on_disk("/pkgs/leftpad/index.js"));
    let resolver = Resolver { packages };
    let resolution = resolver.resolve(&on_disk("/proj/src/main.js"), "leftpad").unwrap();
    let canonical = canonicalize(&disk, "/proj/src/leftpad");
    assert_eq!(canonical, Some("/proj/src/leftpad".to_string()));
    assert_eq!(Resolver::finish(resolution, canonical), Ok(on_disk("/pkgs/leftpad/index.js")));

    let unregistered = Resolver { packages: PackageRegistry::new() };
    assert_eq!(
        unregistered.resolve(&on_disk("/proj/src/main.js"), "leftpad"),
        Ok(Resolution::Pending("/proj/src/leftpad".to_string()))
    );
}

#[test]
fn missing_sibling_file_fails_end_to_end() {
    let disk = ["/proj/src/main.js"];
    let resolver = Resolver { packages: PackageRegistry::new() };
    let resolution = resolver.resolve(&on_disk("/proj/src/main.js"), "./util.js").unwrap();
    let canonical = match &resolution {
        Resolution::Pending(path) => canonicalize(&disk, path),
        Resolution::Found(_) => None,
    };
    assert_eq!(
        Resolver::finish(resolution, canonical),
        Err(module_resolver::error::ResolveError::UnresolvedRelativePath)
    );
}
