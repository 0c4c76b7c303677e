use license_picker::license::License;
use license_picker::license::resolve;

/// Every documented alias, paired with the license it names.
fn alias_table() -> Vec<(&'static str, License)> {
    vec![
        ("bsd0", License::BSD0),
        ("0bsd", License::BSD0),
        ("bsd-0", License::BSD0),
        ("afl-3.0", License::AFL),
        ("afl-3", License::AFL),
        ("afl3", License::AFL),
        ("afl", License::AFL),
        ("agpl-3.0", License::AGPL),
        ("agpl-3", License::AGPL),
        ("agpl3", License::AGPL),
        ("agpl", License::AGPL),
        ("apache-2.0", License::Apache),
        ("apache2", License::Apache),
        ("apache", License::Apache),
        ("artistic-2.0", License::Artistic),
        ("artistic2", License::Artistic),
        ("artistic", License::Artistic),
        ("blueoak-1.0.0", License::BlueOak),
        ("blueoak-1", License::BlueOak),
        ("blueoak1", License::BlueOak),
        ("blueoak", License::BlueOak),
        ("bsd-2-clause-patent", License::BSD2Patent),
        ("bsd-2-patent", License::BSD2Patent),
        ("bsd2-patent", License::BSD2Patent),
        ("bsd-2-clause", License::BSD2),
        ("bsd-2", License::BSD2),
        ("bsd2", License::BSD2),
        ("bsd-3-clause-clear", License::BSD3Clear),
        ("bsd-3-clear", License::BSD3Clear),
        ("bsd3-clear", License::BSD3Clear),
        ("bsd-3-clause", License::BSD3),
        ("bsd-3", License::BSD3),
        ("bsd3", License::BSD3),
        ("bsd-4-clause", License::BSD4),
        ("bsd-4", License::BSD4),
        ("bsd4", License::BSD4),
        ("bsl-1.0", License::BSL),
        ("bsl1", License::BSL),
        ("bsl", License::BSL),
        ("cc-by-4.0", License::CCBY),
        ("cc-by-4", License::CCBY),
        ("ccby4", License::CCBY),
        ("ccby", License::CCBY),
        ("cc-by-sa-4.0", License::CCBYSA),
        ("cc-by-sa-4", License::CCBYSA),
        ("ccbysa4", License::CCBYSA),
        ("ccbysa", License::CCBYSA),
        ("cc0-1.0", License::CC0),
        ("cc0-1", License::CC0),
        ("cc0", License::CC0),
        ("cecill-2.1", License::Cecill),
        ("cecill", License::Cecill),
        ("cern-ohl-p-2.0", License::CernOHLP),
        ("cern-ohl-p", License::CernOHLP),
        ("cern-ohl-s-2.0", License::CernOHLS),
        ("cern-ohl-s", License::CernOHLS),
        ("cern-ohl-w-2.0", License::CernOHLW),
        ("cern-ohl-w", License::CernOHLW),
        ("ecl-2.0", License::ECL),
        ("ecl-2", License::ECL),
        ("ecl2", License::ECL),
        ("ecl", License::ECL),
        ("epl-1.0", License::EPL1),
        ("epl-1", License::EPL1),
        ("epl1", License::EPL1),
        ("epl-2.0", License::EPL2),
        ("epl-2", License::EPL2),
        ("epl2", License::EPL2),
        ("epl", License::EPL2),
        ("eupl-1.1", License::EUPL11),
        ("eupl1.1", License::EUPL11),
        ("eupl-1.2", License::EUPL12),
        ("eupl1.2", License::EUPL12),
        ("eupl", License::EUPL12),
        ("gfdl-1.3", License::GFDL),
        ("gfdl1.3", License::GFDL),
        ("gfdl", License::GFDL),
        ("gpl-2.0", License::GPL2),
        ("gpl-2", License::GPL2),
        ("gpl2", License::GPL2),
        ("gplv2", License::GPL2),
        ("gpl-3.0", License::GPL3),
        ("gpl-3", License::GPL3),
        ("gpl3", License::GPL3),
        ("gplv3", License::GPL3),
        ("gpl", License::GPL3),
        ("isc", License::ISC),
        ("lgpl-2.1", License::LGPL2),
        ("lgpl-2", License::LGPL2),
        ("lgpl2", License::LGPL2),
        ("lgpl-3.0", License::LGPL3),
        ("lgpl-3", License::LGPL3),
        ("lgpl3", License::LGPL3),
        ("lgpl", License::LGPL3),
        ("lppl-1.3c", License::LPPL),
        ("lppl-1.3", License::LPPL),
        ("lppl1.3", License::LPPL),
        ("lppl", License::LPPL),
        ("mit-0", License::MIT0),
        ("mit0", License::MIT0),
        ("mit", License::MIT),
        ("mpl-2.0", License::MPL),
        ("mpl-2", License::MPL),
        ("mpl2", License::MPL),
        ("mpl", License::MPL),
        ("ms-pl", License::MSPL),
        ("mspl", License::MSPL),
        ("ms-rl", License::MSRL),
        ("msrl", License::MSRL),
        ("mulanpsl-2.0", License::MulanPSL),
        ("mulanpsl-2", License::MulanPSL),
        ("mulanpsl2", License::MulanPSL),
        ("mulanpsl", License::MulanPSL),
        ("mulan", License::MulanPSL),
        ("ncsa", License::NCSA),
        ("uiuc", License::NCSA),
        ("odbl-1.0", License::ODbL),
        ("odbl-1", License::ODbL),
        ("odbl1", License::ODbL),
        ("odbl", License::ODbL),
        ("ofl-1.1", License::OFL),
        ("ofl1.1", License::OFL),
        ("ofl", License::OFL),
        ("osl-3.0", License::OSL),
        ("osl-3", License::OSL),
        ("osl3", License::OSL),
        ("osl", License::OSL),
        ("postgresql", License::PostgreSQL),
        ("psql", License::PostgreSQL),
        ("unlicense", License::Unlicense),
        ("upl-1.0", License::UPL),
        ("upl-1", License::UPL),
        ("upl1", License::UPL),
        ("upl", License::UPL),
        ("vim", License::Vim),
        ("wtfpl", License::WTFPL),
        ("zlib", License::Zlib),
    ]
}

/// A case permutation: every other letter uppercased.
fn mixed_case(s: &str) -> String {
    s.chars()
        .enumerate()
        .map(|(i, c)| if i % 2 == 0 { c.to_ascii_uppercase() } else { c })
        .collect()
}

#[test]
fn every_documented_alias_resolves() {
    for (alias, expected) in alias_table() {
        let got = resolve(alias).unwrap_or_else(|_| panic!("alias {alias} did not resolve"));
        assert_eq!(got, expected, "alias {alias}");
    }
}

#[test]
fn aliases_resolve_in_any_case() {
    for (alias, expected) in alias_table() {
        let upper = alias.to_ascii_uppercase();
        let mixed = mixed_case(alias);
        assert_eq!(resolve(&upper).unwrap(), expected, "alias {upper}");
        assert_eq!(resolve(&mixed).unwrap(), expected, "alias {mixed}");
    }
}

#[test]
fn resolution_is_deterministic() {
    for (alias, _) in alias_table() {
        let first = resolve(alias).unwrap();
        let second = resolve(alias).unwrap();
        assert_eq!(first, second);
    }
    let first = resolve("no-such-license").unwrap_err();
    let second = resolve("no-such-license").unwrap_err();
    assert_eq!(first.input, second.input);
}

#[test]
fn unknown_identifier_is_rejected_verbatim() {
    let err = resolve("not-a-real-license").unwrap_err();
    assert_eq!(err.input, "not-a-real-license");
    assert_eq!(err.message(), "Invalid license specifier not-a-real-license");
}

#[test]
fn unknown_rejection_keeps_the_original_case() {
    let err = resolve("Not-A-Real-License").unwrap_err();
    assert_eq!(err.input, "Not-A-Real-License");
}

#[test]
fn gpl_family_aliases_agree() {
    let a = resolve("GPLv3").unwrap();
    let b = resolve("gpl-3.0").unwrap();
    let c = resolve("GPL").unwrap();
    assert_eq!(a, License::GPL3);
    assert_eq!(a, b);
    assert_eq!(b, c);
}

#[test]
fn near_misses_are_rejected() {
    assert!(resolve("").is_err());
    assert!(resolve("mit ").is_err());
    assert!(resolve(" mit").is_err());
    assert!(resolve("mitt").is_err());
    assert!(resolve("gpl-4.0").is_err());
}
