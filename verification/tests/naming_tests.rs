use std::collections::HashSet;

use license_picker::license::all_licenses;
use license_picker::license::License;
use license_picker::naming::output_name;
use license_picker::naming::output_names;

#[test]
fn a_single_license_gets_the_plain_name() {
    let names = output_names(&vec![License::MIT], &None);
    assert_eq!(names, vec![String::from("LICENSE")]);
}

#[test]
fn several_licenses_get_specifier_suffixes() {
    let names = output_names(&vec![License::MIT, License::Apache], &None);
    assert_eq!(
        names,
        vec![String::from("LICENSE-MIT"), String::from("LICENSE-APACHE")]
    );
}

#[test]
fn an_extension_override_is_appended_uniformly() {
    let ext = Some(String::from("txt"));
    let names = output_names(&vec![License::MIT], &ext);
    assert_eq!(names, vec![String::from("LICENSE.txt")]);
    let names = output_names(&vec![License::MIT, License::EPL1], &ext);
    assert_eq!(
        names,
        vec![
            String::from("LICENSE-MIT.txt"),
            String::from("LICENSE-EPL-1.0.txt"),
        ]
    );
}

#[test]
fn one_name_matches_the_batch_policy() {
    assert_eq!(output_name(License::Zlib, false, &None), "LICENSE");
    assert_eq!(output_name(License::Zlib, true, &None), "LICENSE-ZLIB");
    assert_eq!(
        output_name(License::Zlib, true, &Some(String::from("md"))),
        "LICENSE-ZLIB.md"
    );
}

#[test]
fn specifiers_never_collide() {
    let mut seen: HashSet<String> = HashSet::new();
    for license in all_licenses() {
        let spec = license.specifier().to_string();
        assert!(seen.insert(spec.clone()), "duplicate specifier {spec}");
    }
    assert_eq!(seen.len(), 47);
}

#[test]
fn batch_names_never_collide() {
    let all = all_licenses();
    let names = output_names(&all, &Some(String::from("txt")));
    let mut seen: HashSet<String> = HashSet::new();
    for name in names {
        assert!(seen.insert(name.clone()), "duplicate output name {name}");
    }
    assert_eq!(seen.len(), 47);
}

#[test]
fn specifier_spot_checks() {
    assert_eq!(License::Apache.specifier(), "APACHE");
    assert_eq!(License::GPL3.specifier(), "GPLv3");
    assert_eq!(License::LGPL2.specifier(), "LGPLv2.1");
    assert_eq!(License::BSD2Patent.specifier(), "BSD2-PATENT");
}

#[test]
fn display_name_spot_checks() {
    assert_eq!(License::MIT.display_name(), "MIT License");
    assert_eq!(
        License::NCSA.display_name(),
        "University of Illinois/NCSA Open Source License"
    );
}
