use license_picker::license::all_licenses;
use license_picker::license::License;
use license_picker::render::render;
use license_picker::render::write_license;
use license_picker::render::LicenseInfo;

fn full_info() -> LicenseInfo {
    LicenseInfo {
        name: Some(String::from("Jane Doe")),
        year: Some(String::from("2024")),
        email: Some(String::from("jane@example.com")),
        project: Some(String::from("example-project")),
        project_url: Some(String::from("https://example.com")),
    }
}

#[test]
fn rendering_is_total_and_non_empty() {
    let absent = LicenseInfo::absent();
    let all = all_licenses();
    assert_eq!(all.len(), 47);
    for license in all {
        let text = render(license, &absent);
        assert!(!text.is_empty(), "empty rendering for {license:?}");
        let text = render(license, &full_info());
        assert!(!text.is_empty(), "empty rendering for {license:?}");
    }
}

#[test]
fn absent_fields_leave_no_marker() {
    let absent = LicenseInfo::absent();
    for license in all_licenses() {
        let text = render(license, &absent);
        assert!(!text.contains("None"), "marker leaked for {license:?}");
        assert!(!text.contains("null"), "marker leaked for {license:?}");
        assert!(!text.contains("{name}"), "placeholder left for {license:?}");
        assert!(!text.contains("{year}"), "placeholder left for {license:?}");
        assert!(!text.contains("{email}"), "placeholder left for {license:?}");
        assert!(!text.contains("{project}"), "placeholder left for {license:?}");
        assert!(!text.contains("{url}"), "placeholder left for {license:?}");
    }
}

#[test]
fn no_placeholder_survives_any_rendering() {
    for license in all_licenses() {
        let text = render(license, &full_info());
        for token in ["{name}", "{year}", "{email}", "{project}", "{url}"] {
            assert!(!text.contains(token), "{token} left for {license:?}");
        }
    }
}

#[test]
fn rendering_starts_with_the_display_name() {
    for license in all_licenses() {
        let text = render(license, &LicenseInfo::absent());
        assert!(
            text.starts_with(license.display_name()),
            "bad first line for {license:?}"
        );
    }
}

#[test]
fn substituted_fields_appear_verbatim() {
    let text = render(License::MIT, &full_info());
    assert!(text.contains("Copyright (c) 2024 Jane Doe jane@example.com"));
    let text = render(License::GPL3, &full_info());
    assert!(text.contains("example-project\nCopyright (C) 2024 Jane Doe jane@example.com"));
    let text = render(License::Apache, &full_info());
    assert!(text.contains("example-project https://example.com"));
}

#[test]
fn vim_rendering_exact() {
    let info = LicenseInfo {
        name: Some(String::from("Jane Doe")),
        year: Some(String::from("2024")),
        email: Some(String::from("jane@example.com")),
        project: None,
        project_url: None,
    };
    let expected = "Vim License\n\nCopyright (c) 2024 Jane Doe jane@example.com\n\n\
        This work is distributed under the Vim License. Vim is Charityware; \
        you can use and copy it as much as you like, but you are encouraged \
        to make a donation for needy children in Uganda.\n";
    assert_eq!(render(License::Vim, &info), expected);
}

#[test]
fn absent_fields_render_as_nothing() {
    let expected = "Vim License\n\nCopyright (c)   \n\n\
        This work is distributed under the Vim License. Vim is Charityware; \
        you can use and copy it as much as you like, but you are encouraged \
        to make a donation for needy children in Uganda.\n";
    assert_eq!(render(License::Vim, &LicenseInfo::absent()), expected);
}

#[test]
fn unlicense_uses_no_placeholder_at_all() {
    let with_fields = render(License::Unlicense, &full_info());
    let without = render(License::Unlicense, &LicenseInfo::absent());
    assert_eq!(with_fields, without);
    assert!(without.contains("public domain"));
}

#[test]
fn write_license_appends_rendered_bytes() {
    let info = full_info();
    let mut buffer: Vec<u8> = b"before:".to_vec();
    write_license(&mut buffer, License::Zlib, &info);
    let text = render(License::Zlib, &info);
    let mut expected = b"before:".to_vec();
    expected.extend_from_slice(text.as_bytes());
    assert_eq!(buffer, expected);
}
