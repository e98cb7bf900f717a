use dotfiles::machine::{Event, Installer, Stage};
use dotfiles::manifest::{BaseDirs, DotFileItem, LocationType, ManifestContent};
use dotfiles::paths::join;
use std::path::PathBuf;

fn pushed(base: &str, rel: &str) -> String {
    let mut p = PathBuf::from(base);
    p.push(rel);
    p.to_str().unwrap().to_string()
}

fn dirs() -> BaseDirs {
    BaseDirs { home: "/home/u".to_string(), config: "/home/u/.config".to_string() }
}

#[test]
fn join_appends_after_a_separator() {
    assert_eq!(join("/home/u", ".bashrc"), "/home/u/.bashrc");
    assert_eq!(join("repo", "vim/vimrc"), "repo/vim/vimrc");
}

#[test]
fn join_adds_no_second_separator() {
    assert_eq!(join("/home/u/", ".bashrc"), "/home/u/.bashrc");
    assert_eq!(join("/", "etc"), "/etc");
}

#[test]
fn join_onto_empty_base_is_the_relative_path() {
    assert_eq!(join("", "bashrc"), "bashrc");
    assert_eq!(join("", ""), "");
}

#[test]
fn join_with_absolute_path_replaces_the_base() {
    assert_eq!(join("/home/u", "/etc/profile"), "/etc/profile");
    assert_eq!(join("", "/etc/profile"), "/etc/profile");
}

#[test]
fn join_with_empty_relative_path_ends_in_a_separator() {
    assert_eq!(join("/home/u", ""), "/home/u/");
    assert_eq!(join("/home/u/", ""), "/home/u/");
}

#[test]
fn join_keeps_text_beyond_ascii() {
    assert_eq!(join("/home/zoë", "früh/ünï"), "/home/zoë/früh/ünï");
    assert_eq!(join("/home/zoë/", "é"), "/home/zoë/é");
}

#[test]
fn join_agrees_with_path_push() {
    let bases = ["", "/", "/home/u", "/home/u/", "repo", "repo/", "a//", "/é"];
    let rels = ["", "x", "x/y", "/x", "/", "./x", "../x", "x/", "é/ü"];
    for base in bases {
        for rel in rels {
            assert_eq!(join(base, rel), pushed(base, rel), "{:?} {:?}", base, rel);
        }
    }
}

#[test]
fn default_location_is_config() {
    assert_eq!(LocationType::default(), LocationType::Config);
}

#[test]
fn location_path_picks_the_base_directory() {
    let d = dirs();
    assert_eq!(LocationType::Home.path(&d), "/home/u");
    assert_eq!(LocationType::Config.path(&d), "/home/u/.config");
}

#[test]
fn install_resolves_both_paths_and_asks_nothing_yet() {
    let item = DotFileItem {
        source: "bashrc".to_string(),
        destination: ".bashrc".to_string(),
        location: LocationType::Home,
    };
    let m = item.install(&dirs(), "/repo");
    assert_eq!(m.source(), "/repo/bashrc");
    assert_eq!(m.destination(), "/home/u/.bashrc");
    assert_eq!(m.declared(), "bashrc");
    assert_eq!(m.stage(), &Stage::ResolveSource);
    assert_eq!(
        m,
        Installer::new(
            "bashrc".to_string(),
            "/repo/bashrc".to_string(),
            "/home/u/.bashrc".to_string()
        )
    );
}

#[test]
fn install_under_config_location() {
    let item = DotFileItem {
        source: "nvim/init.vim".to_string(),
        destination: "nvim/init.vim".to_string(),
        location: LocationType::Config,
    };
    let m = item.install(&dirs(), "");
    assert_eq!(m.source(), "nvim/init.vim");
    assert_eq!(m.destination(), "/home/u/.config/nvim/init.vim");
}

#[test]
fn install_with_absolute_destination_ignores_the_location() {
    let item = DotFileItem {
        source: "hosts".to_string(),
        destination: "/etc/hosts".to_string(),
        location: LocationType::Home,
    };
    let m = item.install(&dirs(), "/repo/");
    assert_eq!(m.source(), "/repo/hosts");
    assert_eq!(m.destination(), "/etc/hosts");
}

#[test]
fn installers_follow_the_manifest_order() {
    let manifest = ManifestContent {
        files: vec![
            DotFileItem {
                source: "a".to_string(),
                destination: ".a".to_string(),
                location: LocationType::Home,
            },
            DotFileItem {
                source: "b".to_string(),
                destination: "b/conf".to_string(),
                location: LocationType::Config,
            },
            DotFileItem {
                source: "a".to_string(),
                destination: ".a".to_string(),
                location: LocationType::Home,
            },
        ],
    };
    let ms = manifest.installers(&dirs(), "/repo");
    assert_eq!(ms.len(), 3);
    assert_eq!(
        ms[0],
        Installer::new("a".to_string(), "/repo/a".to_string(), "/home/u/.a".to_string())
    );
    assert_eq!(
        ms[1],
        Installer::new("b".to_string(), "/repo/b".to_string(), "/home/u/.config/b/conf".to_string())
    );
    assert_eq!(ms[2], ms[0]);
}

#[test]
fn installers_of_an_empty_manifest() {
    let manifest = ManifestContent { files: vec![] };
    assert_eq!(manifest.installers(&dirs(), "/repo").len(), 0);
}

fn at_free_destination(destination: &str) -> Installer {
    Installer::new("bashrc".to_string(), "/repo/bashrc".to_string(), destination.to_string())
        .advance(Event::Canonical(Some("/srv/bashrc".to_string())))
        .advance(Event::Link(None))
        .advance(Event::Exists(false))
}

#[test]
fn free_destination_looks_at_its_parent() {
    let m = at_free_destination("/home/u/.bashrc");
    assert_eq!(
        m.stage(),
        &Stage::CheckParent { resolved: "/srv/bashrc".to_string(), dir: "/home/u".to_string() }
    );
}

#[test]
fn free_destination_of_one_component_has_an_empty_parent() {
    let m = at_free_destination("bashrc");
    assert_eq!(
        m.stage(),
        &Stage::CheckParent { resolved: "/srv/bashrc".to_string(), dir: "".to_string() }
    );
}

#[test]
fn free_destination_under_a_trailing_separator() {
    let m = at_free_destination("/home/u/conf/");
    assert_eq!(
        m.stage(),
        &Stage::CheckParent { resolved: "/srv/bashrc".to_string(), dir: "/home/u".to_string() }
    );
}

#[test]
fn free_destination_without_parent_goes_on_to_the_link() {
    let m = at_free_destination("");
    assert_eq!(m.stage(), &Stage::Link { target: "/srv/bashrc".to_string() });
}

#[test]
fn stage_after_a_free_destination() {
    assert_eq!(
        Stage::after_free_destination(Some("/home/u".to_string()), "/srv/bashrc".to_string()),
        Stage::CheckParent { resolved: "/srv/bashrc".to_string(), dir: "/home/u".to_string() }
    );
    assert_eq!(
        Stage::after_free_destination(None, "/srv/bashrc".to_string()),
        Stage::Link { target: "/srv/bashrc".to_string() }
    );
}
