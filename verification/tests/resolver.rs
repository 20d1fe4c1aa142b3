use bevy_pmx::resolver::{trim_chars, PmxProbe};
use bevy_pmx::source::walk::{PmxCaseWalk, PmxWalkStep};
use bevy_pmx::source::{PmxSource, PmxSourceLocation};
use bevy_pmx::{PmxResolvedPath, PmxResolver, PmxResolverSettings};

/// A folder tree held in memory: the paths of its files.
struct FakeDisk {
    files: Vec<&'static str>,
}

impl FakeDisk {
    fn has_path(&self, path: &str) -> bool {
        self.files.iter().any(|f| *f == path || f.starts_with(&format!("{path}/")))
    }

    fn list(&self, dir: &str) -> Option<Vec<Option<String>>> {
        let prefix = if dir.is_empty() { String::new() } else { format!("{dir}/") };
        let mut names: Vec<Option<String>> = Vec::new();
        for f in &self.files {
            if let Some(rest) = f.strip_prefix(&prefix) {
                let name = rest.split('/').next().unwrap_or_default().to_owned();
                if !names.contains(&Some(name.clone())) {
                    names.push(Some(name));
                }
            }
        }
        if names.is_empty() && !self.has_path(dir) {
            None
        } else {
            Some(names)
        }
    }

    fn walk(&self, root: &str, path: &str) -> Option<String> {
        let mut walk = PmxCaseWalk::new(root, path);
        loop {
            match walk.step() {
                PmxWalkStep::Done(found) => return found,
                PmxWalkStep::Probe { direct, dir, .. } => {
                    let exists = self.has_path(&direct);
                    let listing = if exists { None } else { self.list(&dir) };
                    walk.advance(exists, listing);
                }
            }
        }
    }

    fn answer(&self, probe: &PmxProbe) -> Option<PmxSourceLocation> {
        match probe {
            PmxProbe::Holds { location, .. } => match location {
                PmxSourceLocation::Disk(path) if self.has_path(path) => Some(location.clone()),
                _ => None,
            },
            PmxProbe::CaseInsensitive { source, path } => match source {
                PmxSource::Folder(folder) => self.walk(folder.root(), path).map(PmxSourceLocation::Disk),
                _ => None,
            },
        }
    }

    fn resolve(&self, resolver: &PmxResolver, source: Option<&PmxSource>, texture: &str) -> PmxResolvedPath {
        let plan = resolver.texture_plan(source, texture);
        let mut answers = Vec::new();
        for probe in &plan.probes {
            let answer = self.answer(probe);
            let found = answer.is_some();
            answers.push(answer);
            if found {
                break;
            }
        }
        plan.settle(&answers)
    }
}

#[test]
fn tracks_zip_locations_without_forcing_them_into_paths() {
    let resolved = PmxResolvedPath::new(
        "face.png",
        PmxSourceLocation::Zip {
            archive: "model.zip".to_owned(),
            entry: "Texture/Face.PNG".to_owned(),
        },
    );

    assert_eq!(resolved.resolved_path(), "Texture/Face.PNG");
    assert_eq!(
        resolved.location(),
        &PmxSourceLocation::Zip {
            archive: "model.zip".to_owned(),
            entry: "Texture/Face.PNG".to_owned(),
        }
    );
}

#[test]
fn computes_texture_path_relative_to_the_source_root() {
    let source_root = "/tmp/bevy_pmx_resolver_root_fixture";
    let resolved = PmxResolvedPath::new(
        "face.png",
        PmxSourceLocation::disk(&format!("{source_root}/Texture/Face.PNG")),
    );

    let relative = resolved.relative_to(source_root).expect("should strip the source root");

    assert_eq!(relative, "Texture/Face.PNG");
}

#[test]
fn relative_paths_compare_whole_components() {
    let resolved = PmxResolvedPath::new("a", PmxSourceLocation::disk("/data/models2/a.png"));
    assert_eq!(resolved.relative_to("/data/models"), None);
    assert_eq!(resolved.relative_to("/data//models2/").as_deref(), Some("a.png"));
    assert_eq!(resolved.relative_to("").as_deref(), Some("/data/models2/a.png"));
    let zip = PmxResolvedPath::new("a", PmxSourceLocation::zip("m.zip", "Model/a.png"));
    assert_eq!(zip.relative_to("elsewhere").as_deref(), Some("Model/a.png"));
    assert_eq!(zip.source_location(), zip.location());
}

#[test]
fn resolves_bare_texture_names_from_common_mmd_directories_case_insensitively() {
    let disk = FakeDisk { files: vec!["Model/Texture/Face.PNG", "Model/model.pmx"] };
    let resolver = PmxResolver::with_settings(PmxResolverSettings::default());
    let source = PmxSource::folder("Model");

    let resolved = disk.resolve(&resolver, Some(&source), "face.png");

    assert_eq!(resolved.location, PmxSourceLocation::disk("Model/Texture/Face.PNG"));
    assert!(disk.has_path(resolved.resolved_path()));
}

#[test]
fn texture_strings_are_trimmed_and_use_forward_slashes() {
    let disk = FakeDisk { files: vec!["Model/tex/a.png"] };
    let source = PmxSource::folder("Model");

    let resolved = disk.resolve(&PmxResolver::new(), Some(&source), " tex\\a.png\t");

    assert_eq!(resolved.original, " tex\\a.png\t");
    assert_eq!(resolved.location, PmxSourceLocation::disk("Model/tex/a.png"));
    let chars: Vec<char> = "\u{3000} x y \u{85}".chars().collect();
    assert_eq!(trim_chars(&chars), vec!['x', ' ', 'y']);
}

#[test]
fn absolute_texture_paths_are_taken_as_they_are() {
    let resolver = PmxResolver::new();
    let source = PmxSource::folder("Model");
    let plan = resolver.texture_plan(Some(&source), "/abs/face.png");

    assert!(plan.probes.is_empty());
    assert_eq!(plan.settle(&[]).location, PmxSourceLocation::disk("/abs/face.png"));
}

#[test]
fn unfound_textures_fall_back_to_the_source_location() {
    let disk = FakeDisk { files: Vec::new() };
    let source = PmxSource::folder("Model");

    let resolved = disk.resolve(&PmxResolver::new(), Some(&source), "sub/missing.png");
    assert_eq!(resolved.location, PmxSourceLocation::disk("Model/sub/missing.png"));

    let zip = PmxSource::zip("pack.zip", "Model");
    let resolved = disk.resolve(&PmxResolver::new(), Some(&zip), "missing.png");
    assert_eq!(resolved.location, PmxSourceLocation::zip("pack.zip", "Model/missing.png"));

    let resolved = disk.resolve(&PmxResolver::new(), None, "missing.png");
    assert_eq!(resolved.location, PmxSourceLocation::disk("missing.png"));
}

#[test]
fn probes_follow_the_preferred_order() {
    let source = PmxSource::folder("Model");
    let preferring = PmxResolver::new().texture_plan(Some(&source), "a/b.png");
    assert_eq!(preferring.probes.len(), 4);
    assert_eq!(
        preferring.probes[0],
        PmxProbe::Holds { source: source.clone(), location: PmxSourceLocation::disk("Model/a/b.png") }
    );
    assert_eq!(
        preferring.probes[2],
        PmxProbe::Holds { source: PmxSource::folder("."), location: PmxSourceLocation::disk("a/b.png") }
    );

    let plain_first = PmxResolver::with_settings(PmxResolverSettings {
        prefer_model_directory: false,
        allow_case_fallbacks: false,
    })
    .texture_plan(Some(&source), "b.png");
    assert_eq!(plain_first.probes.len(), 1 + 7 + 1);
    assert_eq!(
        plain_first.probes[0],
        PmxProbe::Holds { source: PmxSource::folder("."), location: PmxSourceLocation::disk("b.png") }
    );
    assert_eq!(
        plain_first.probes[1],
        PmxProbe::Holds { source: source.clone(), location: PmxSourceLocation::disk("Model/Texture/b.png") }
    );
    assert_eq!(
        plain_first.probes[7],
        PmxProbe::Holds { source: source.clone(), location: PmxSourceLocation::disk("Model/toon/b.png") }
    );
    assert!(plain_first.probes.iter().all(|p| matches!(p, PmxProbe::Holds { .. })));
}

#[test]
fn the_first_answer_that_finds_the_texture_decides() {
    let plan = PmxResolver::new().texture_plan(None, "x.png");
    let first = PmxSourceLocation::disk("first.png");
    let second = PmxSourceLocation::disk("second.png");

    let resolved = plan.settle(&[None, Some(first.clone()), Some(second)]);
    assert_eq!(resolved.location, first);
    assert_eq!(plan.settle(&[None, None]).location, PmxSourceLocation::disk("x.png"));
}

#[test]
fn case_walks_follow_dots_and_parents() {
    let disk = FakeDisk { files: vec!["root/A/b.txt", "root/C/d.txt"] };

    assert_eq!(disk.walk("root", "./a/../c/D.TXT").as_deref(), Some("root/C/d.txt"));
    assert_eq!(disk.walk("root", "a/missing.txt"), None);
    assert_eq!(disk.walk("root", "../../x"), None);
    assert_eq!(disk.walk("root", "/abs"), None);
    assert_eq!(disk.walk("root", "A/b.txt").as_deref(), Some("root/A/b.txt"));
}

#[test]
fn unreadable_listings_stop_the_walk() {
    let mut walk = PmxCaseWalk::new("root", "Name");
    match walk.step() {
        PmxWalkStep::Probe { direct, dir, name } => {
            assert_eq!(direct, "root/Name");
            assert_eq!(dir, "root");
            assert_eq!(name, "Name");
        }
        other => panic!("expected a probe, got {other:?}"),
    }
    walk.advance(false, Some(vec![None, Some("name".to_owned())]));
    assert_eq!(walk.step(), PmxWalkStep::Done(None));
}
