//! The closed set of supported licenses and the identifier resolver.
//!
//! Every license has exactly one specifier (the short token used to build
//! output file names) and one display name (used inside rendered text).
//! A raw user identifier is lowercased and looked up against a fixed alias
//! table; many aliases map to one license, and anything outside the table
//! is rejected.

use vstd::prelude::*;

verus! {

/// ASCII lowercasing of one character; all other characters are unchanged.
pub open spec fn lower_char(c: char) -> char {
    if 65 <= c as u32 && c as u32 <= 90 {
        ((c as u32 + 32) as u8) as char
    } else {
        c
    }
}

/// ASCII lowercasing of a whole string.
pub open spec fn lower(s: Seq<char>) -> Seq<char> {
    s.map_values(|c: char| lower_char(c))
}

/// Whether a raw identifier matches one alias: the two lowercased forms
/// are equal.  The table's aliases are already lowercase, so this says
/// exactly that the lowercased input equals the alias.
pub open spec fn alias_matches(raw: Seq<char>, alias: Seq<char>) -> bool {
    lower(raw) == lower(alias)
}

/// One variant per supported license family.
#[derive(Debug, Copy, Clone, PartialEq, Eq, Structural)]
pub enum License {
    BSD0,
    AFL,
    AGPL,
    Apache,
    Artistic,
    BlueOak,
    BSD2Patent,
    BSD2,
    BSD3Clear,
    BSD3,
    BSD4,
    BSL,
    CCBY,
    CCBYSA,
    CC0,
    Cecill,
    CernOHLP,
    CernOHLS,
    CernOHLW,
    ECL,
    EPL1,
    EPL2,
    EUPL11,
    EUPL12,
    GFDL,
    GPL2,
    GPL3,
    ISC,
    LGPL2,
    LGPL3,
    LPPL,
    MIT0,
    MIT,
    MPL,
    MSPL,
    MSRL,
    MulanPSL,
    NCSA,
    ODbL,
    OFL,
    OSL,
    PostgreSQL,
    Unlicense,
    UPL,
    Vim,
    WTFPL,
    Zlib,
}

/// The specifier of each license: the short unique token appended to output
/// file names when several licenses are emitted together.
pub open spec fn spec_specifier(l: License) -> Seq<char> {
    match l {
        License::BSD0 => "BSD0"@,
        License::AFL => "AFL"@,
        License::AGPL => "AGPL"@,
        License::Apache => "APACHE"@,
        License::Artistic => "ARTISTIC"@,
        License::BlueOak => "BLUEOAK"@,
        License::BSD2Patent => "BSD2-PATENT"@,
        License::BSD2 => "BSD2"@,
        License::BSD3Clear => "BSD3-CLEAR"@,
        License::BSD3 => "BSD3"@,
        License::BSD4 => "BSD4"@,
        License::BSL => "BSL"@,
        License::CCBY => "CC-BY"@,
        License::CCBYSA => "CC-BY-SA"@,
        License::CC0 => "CC0"@,
        License::Cecill => "CECILL"@,
        License::CernOHLP => "CERN-OHL-P"@,
        License::CernOHLS => "CERN-OHL-S"@,
        License::CernOHLW => "CERN-OHL-W"@,
        License::ECL => "ECL"@,
        License::EPL1 => "EPL-1.0"@,
        License::EPL2 => "EPL-2.0"@,
        License::EUPL11 => "EUPL-1.1"@,
        License::EUPL12 => "EUPL-1.2"@,
        License::GFDL => "GFDL"@,
        License::GPL2 => "GPLv2"@,
        License::GPL3 => "GPLv3"@,
        License::ISC => "ISC"@,
        License::LGPL2 => "LGPLv2.1"@,
        License::LGPL3 => "LGPLv3"@,
        License::LPPL => "LPPL-1.3c"@,
        License::MIT0 => "MIT-0"@,
        License::MIT => "MIT"@,
        License::MPL => "MPL"@,
        License::MSPL => "MS-PL"@,
        License::MSRL => "MS-RL"@,
        License::MulanPSL => "MULANPSL"@,
        License::NCSA => "NCSA"@,
        License::ODbL => "ODBL"@,
        License::OFL => "OFL"@,
        License::OSL => "OSL"@,
        License::PostgreSQL => "POSTGRESQL"@,
        License::Unlicense => "UNLICENSE"@,
        License::UPL => "UPL"@,
        License::Vim => "VIM"@,
        License::WTFPL => "WTFPL"@,
        License::Zlib => "ZLIB"@,
    }
}

/// The full display name of each license, used in rendered text.
pub open spec fn spec_display_name(l: License) -> Seq<char> {
    match l {
        License::BSD0 => "BSD Zero Clause License"@,
        License::AFL => "Academic Free License v3.0"@,
        License::AGPL => "GNU Affero General Public License v3.0"@,
        License::Apache => "Apache License 2.0"@,
        License::Artistic => "Artistic License 2.0"@,
        License::BlueOak => "Blue Oak Model License 1.0.0"@,
        License::BSD2Patent => "BSD-2-Clause Plus Patent License"@,
        License::BSD2 => "BSD 2-Clause \"Simplified\" License"@,
        License::BSD3Clear => "BSD 3-Clause Clear License"@,
        License::BSD3 => "BSD 3-Clause \"New\" or \"Revised\" License"@,
        License::BSD4 => "BSD 4-Clause \"Original\" or \"Old\" License"@,
        License::BSL => "Boost Software License 1.0"@,
        License::CCBY => "Creative Commons Attribution 4.0 International"@,
        License::CCBYSA => "Creative Commons Attribution Share Alike 4.0 International"@,
        License::CC0 => "Creative Commons Zero v1.0 Universal"@,
        License::Cecill => "CeCILL Free Software License Agreement v2.1"@,
        License::CernOHLP => "CERN Open Hardware Licence Version 2 - Permissive"@,
        License::CernOHLS => "CERN Open Hardware Licence Version 2 - Strongly Reciprocal"@,
        License::CernOHLW => "CERN Open Hardware Licence Version 2 - Weakly Reciprocal"@,
        License::ECL => "Educational Community License v2.0"@,
        License::EPL1 => "Eclipse Public License 1.0"@,
        License::EPL2 => "Eclipse Public License 2.0"@,
        License::EUPL11 => "European Union Public License 1.1"@,
        License::EUPL12 => "European Union Public License 1.2"@,
        License::GFDL => "GNU Free Documentation License v1.3"@,
        License::GPL2 => "GNU General Public License v2.0"@,
        License::GPL3 => "GNU General Public License v3.0"@,
        License::ISC => "ISC License"@,
        License::LGPL2 => "GNU Lesser General Public License v2.1"@,
        License::LGPL3 => "GNU Lesser General Public License v3.0"@,
        License::LPPL => "LaTeX Project Public License v1.3c"@,
        License::MIT0 => "MIT No Attribution"@,
        License::MIT => "MIT License"@,
        License::MPL => "Mozilla Public License 2.0"@,
        License::MSPL => "Microsoft Public License"@,
        License::MSRL => "Microsoft Reciprocal License"@,
        License::MulanPSL => "Mulan Permissive Software License, Version 2"@,
        License::NCSA => "University of Illinois/NCSA Open Source License"@,
        License::ODbL => "Open Data Commons Open Database License v1.0"@,
        License::OFL => "SIL Open Font License 1.1"@,
        License::OSL => "Open Software License 3.0"@,
        License::PostgreSQL => "PostgreSQL License"@,
        License::Unlicense => "The Unlicense"@,
        License::UPL => "Universal Permissive License v1.0"@,
        License::Vim => "Vim License"@,
        License::WTFPL => "Do What The Fuck You Want To Public License"@,
        License::Zlib => "zlib License"@,
    }
}

/// The alias table as one lookup function: the alias group whose lowercased
/// form matches the lowercased input determines the license; an input that
/// matches no group is rejected.
pub open spec fn spec_resolve(raw: Seq<char>) -> Option<License> {
    if alias_matches(raw, "bsd0"@) || alias_matches(raw, "0bsd"@) || alias_matches(raw, "bsd-0"@) {
        Some(License::BSD0)
    } else if alias_matches(raw, "afl-3.0"@) || alias_matches(raw, "afl-3"@) || alias_matches(raw, "afl3"@) || alias_matches(raw, "afl"@) {
        Some(License::AFL)
    } else if alias_matches(raw, "agpl-3.0"@) || alias_matches(raw, "agpl-3"@) || alias_matches(raw, "agpl3"@) || alias_matches(raw, "agpl"@) {
        Some(License::AGPL)
    } else if alias_matches(raw, "apache-2.0"@) || alias_matches(raw, "apache2"@) || alias_matches(raw, "apache"@) {
        Some(License::Apache)
    } else if alias_matches(raw, "artistic-2.0"@) || alias_matches(raw, "artistic2"@) || alias_matches(raw, "artistic"@) {
        Some(License::Artistic)
    } else if alias_matches(raw, "blueoak-1.0.0"@) || alias_matches(raw, "blueoak-1"@) || alias_matches(raw, "blueoak1"@) || alias_matches(raw, "blueoak"@) {
        Some(License::BlueOak)
    } else if alias_matches(raw, "bsd-2-clause-patent"@) || alias_matches(raw, "bsd-2-patent"@) || alias_matches(raw, "bsd2-patent"@) {
        Some(License::BSD2Patent)
    } else if alias_matches(raw, "bsd-2-clause"@) || alias_matches(raw, "bsd-2"@) || alias_matches(raw, "bsd2"@) {
        Some(License::BSD2)
    } else if alias_matches(raw, "bsd-3-clause-clear"@) || alias_matches(raw, "bsd-3-clear"@) || alias_matches(raw, "bsd3-clear"@) {
        Some(License::BSD3Clear)
    } else if alias_matches(raw, "bsd-3-clause"@) || alias_matches(raw, "bsd-3"@) || alias_matches(raw, "bsd3"@) {
        Some(License::BSD3)
    } else if alias_matches(raw, "bsd-4-clause"@) || alias_matches(raw, "bsd-4"@) || alias_matches(raw, "bsd4"@) {
        Some(License::BSD4)
    } else if alias_matches(raw, "bsl-1.0"@) || alias_matches(raw, "bsl1"@) || alias_matches(raw, "bsl"@) {
        Some(License::BSL)
    } else if alias_matches(raw, "cc-by-4.0"@) || alias_matches(raw, "cc-by-4"@) || alias_matches(raw, "ccby4"@) || alias_matches(raw, "ccby"@) {
        Some(License::CCBY)
    } else if alias_matches(raw, "cc-by-sa-4.0"@) || alias_matches(raw, "cc-by-sa-4"@) || alias_matches(raw, "ccbysa4"@) || alias_matches(raw, "ccbysa"@) {
        Some(License::CCBYSA)
    } else if alias_matches(raw, "cc0-1.0"@) || alias_matches(raw, "cc0-1"@) || alias_matches(raw, "cc0"@) {
        Some(License::CC0)
    } else if alias_matches(raw, "cecill-2.1"@) || alias_matches(raw, "cecill"@) {
        Some(License::Cecill)
    } else if alias_matches(raw, "cern-ohl-p-2.0"@) || alias_matches(raw, "cern-ohl-p"@) {
        Some(License::CernOHLP)
    } else if alias_matches(raw, "cern-ohl-s-2.0"@) || alias_matches(raw, "cern-ohl-s"@) {
        Some(License::CernOHLS)
    } else if alias_matches(raw, "cern-ohl-w-2.0"@) || alias_matches(raw, "cern-ohl-w"@) {
        Some(License::CernOHLW)
    } else if alias_matches(raw, "ecl-2.0"@) || alias_matches(raw, "ecl-2"@) || alias_matches(raw, "ecl2"@) || alias_matches(raw, "ecl"@) {
        Some(License::ECL)
    } else if alias_matches(raw, "epl-1.0"@) || alias_matches(raw, "epl-1"@) || alias_matches(raw, "epl1"@) {
        Some(License::EPL1)
    } else if alias_matches(raw, "epl-2.0"@) || alias_matches(raw, "epl-2"@) || alias_matches(raw, "epl2"@) || alias_matches(raw, "epl"@) {
        Some(License::EPL2)
    } else if alias_matches(raw, "eupl-1.1"@) || alias_matches(raw, "eupl1.1"@) {
        Some(License::EUPL11)
    } else if alias_matches(raw, "eupl-1.2"@) || alias_matches(raw, "eupl1.2"@) || alias_matches(raw, "eupl"@) {
        Some(License::EUPL12)
    } else if alias_matches(raw, "gfdl-1.3"@) || alias_matches(raw, "gfdl1.3"@) || alias_matches(raw, "gfdl"@) {
        Some(License::GFDL)
    } else if alias_matches(raw, "gpl-2.0"@) || alias_matches(raw, "gpl-2"@) || alias_matches(raw, "gpl2"@) || alias_matches(raw, "gplv2"@) {
        Some(License::GPL2)
    } else if alias_matches(raw, "gpl-3.0"@) || alias_matches(raw, "gpl-3"@) || alias_matches(raw, "gpl3"@) || alias_matches(raw, "gplv3"@) || alias_matches(raw, "gpl"@) {
        Some(License::GPL3)
    } else if alias_matches(raw, "isc"@) {
        Some(License::ISC)
    } else if alias_matches(raw, "lgpl-2.1"@) || alias_matches(raw, "lgpl-2"@) || alias_matches(raw, "lgpl2"@) {
        Some(License::LGPL2)
    } else if alias_matches(raw, "lgpl-3.0"@) || alias_matches(raw, "lgpl-3"@) || alias_matches(raw, "lgpl3"@) || alias_matches(raw, "lgpl"@) {
        Some(License::LGPL3)
    } else if alias_matches(raw, "lppl-1.3c"@) || alias_matches(raw, "lppl-1.3"@) || alias_matches(raw, "lppl1.3"@) || alias_matches(raw, "lppl"@) {
        Some(License::LPPL)
    } else if alias_matches(raw, "mit-0"@) || alias_matches(raw, "mit0"@) {
        Some(License::MIT0)
    } else if alias_matches(raw, "mit"@) {
        Some(License::MIT)
    } else if alias_matches(raw, "mpl-2.0"@) || alias_matches(raw, "mpl-2"@) || alias_matches(raw, "mpl2"@) || alias_matches(raw, "mpl"@) {
        Some(License::MPL)
    } else if alias_matches(raw, "ms-pl"@) || alias_matches(raw, "mspl"@) {
        Some(License::MSPL)
    } else if alias_matches(raw, "ms-rl"@) || alias_matches(raw, "msrl"@) {
        Some(License::MSRL)
    } else if alias_matches(raw, "mulanpsl-2.0"@) || alias_matches(raw, "mulanpsl-2"@) || alias_matches(raw, "mulanpsl2"@) || alias_matches(raw, "mulanpsl"@) || alias_matches(raw, "mulan"@) {
        Some(License::MulanPSL)
    } else if alias_matches(raw, "ncsa"@) || alias_matches(raw, "uiuc"@) {
        Some(License::NCSA)
    } else if alias_matches(raw, "odbl-1.0"@) || alias_matches(raw, "odbl-1"@) || alias_matches(raw, "odbl1"@) || alias_matches(raw, "odbl"@) {
        Some(License::ODbL)
    } else if alias_matches(raw, "ofl-1.1"@) || alias_matches(raw, "ofl1.1"@) || alias_matches(raw, "ofl"@) {
        Some(License::OFL)
    } else if alias_matches(raw, "osl-3.0"@) || alias_matches(raw, "osl-3"@) || alias_matches(raw, "osl3"@) || alias_matches(raw, "osl"@) {
        Some(License::OSL)
    } else if alias_matches(raw, "postgresql"@) || alias_matches(raw, "psql"@) {
        Some(License::PostgreSQL)
    } else if alias_matches(raw, "unlicense"@) {
        Some(License::Unlicense)
    } else if alias_matches(raw, "upl-1.0"@) || alias_matches(raw, "upl-1"@) || alias_matches(raw, "upl1"@) || alias_matches(raw, "upl"@) {
        Some(License::UPL)
    } else if alias_matches(raw, "vim"@) {
        Some(License::Vim)
    } else if alias_matches(raw, "wtfpl"@) {
        Some(License::WTFPL)
    } else if alias_matches(raw, "zlib"@) {
        Some(License::Zlib)
    } else {
        None
    }
}

/// The failure of the resolver: the input matched no alias.  It carries the
/// raw input exactly as given, for the caller's error message.
#[derive(Debug, Clone)]
pub struct UnknownLicense {
    pub input: String,
}

impl View for UnknownLicense {
    type V = Seq<char>;

    open spec fn view(&self) -> Seq<char> {
        self.input@
    }
}

impl UnknownLicense {
    /// The message shown to the user for one rejected identifier.
    pub fn message(&self) -> (m: String)
        ensures
            m@ == "Invalid license specifier "@ + self.input@,
    {
        let mut m = String::new();
        m.append("Invalid license specifier ");
        m.append(self.input.as_str());
        m
    }
}

/// Lowercase one character, ASCII-only.
fn ascii_lower(c: char) -> (r: char)
    ensures
        r == lower_char(c),
{
    let u = c as u32;
    if 65 <= u && u <= 90 {
        ((u + 32) as u8) as char
    } else {
        c
    }
}

/// Case-insensitive comparison of a raw identifier against one alias.
fn matches_alias(raw: &str, alias: &str) -> (r: bool)
    ensures
        r == alias_matches(raw@, alias@),
{
    let n = raw.unicode_len();
    let m = alias.unicode_len();
    if n != m {
        proof {
            assert(lower(raw@).len() == raw@.len());
            assert(lower(alias@).len() == alias@.len());
        }
        return false;
    }
    let mut i: usize = 0;
    while i < n
        invariant
            i <= n,
            n == raw@.len(),
            n == alias@.len(),
            forall|k: int| 0 <= k < i ==> lower_char(raw@[k]) == lower_char(alias@[k]),
        decreases n - i,
    {
        let a = ascii_lower(raw.get_char(i));
        let b = ascii_lower(alias.get_char(i));
        if a != b {
            proof {
                assert(lower(raw@)[i as int] != lower(alias@)[i as int]);
            }
            return false;
        }
        i = i + 1;
    }
    proof {
        assert(lower(raw@) =~= lower(alias@));
    }
    true
}

/// Map a raw user identifier to its canonical license, or reject it.
///
/// The input is lowercased and looked up exactly against the alias table;
/// on failure the error carries the input verbatim.  The function is pure:
/// the outcome is a function of the input string alone.
pub fn resolve(raw: &str) -> (r: Result<License, UnknownLicense>)
    ensures
        match spec_resolve(raw@) {
            Some(l) => r == Ok::<License, UnknownLicense>(l),
            None => r matches Err(e) && e.input@ == raw@,
        },
{
    if matches_alias(raw, "bsd0") || matches_alias(raw, "0bsd") || matches_alias(raw, "bsd-0") {
        Ok(License::BSD0)
    } else if matches_alias(raw, "afl-3.0") || matches_alias(raw, "afl-3") || matches_alias(raw, "afl3") || matches_alias(raw, "afl") {
        Ok(License::AFL)
    } else if matches_alias(raw, "agpl-3.0") || matches_alias(raw, "agpl-3") || matches_alias(raw, "agpl3") || matches_alias(raw, "agpl") {
        Ok(License::AGPL)
    } else if matches_alias(raw, "apache-2.0") || matches_alias(raw, "apache2") || matches_alias(raw, "apache") {
        Ok(License::Apache)
    } else if matches_alias(raw, "artistic-2.0") || matches_alias(raw, "artistic2") || matches_alias(raw, "artistic") {
        Ok(License::Artistic)
    } else if matches_alias(raw, "blueoak-1.0.0") || matches_alias(raw, "blueoak-1") || matches_alias(raw, "blueoak1") || matches_alias(raw, "blueoak") {
        Ok(License::BlueOak)
    } else if matches_alias(raw, "bsd-2-clause-patent") || matches_alias(raw, "bsd-2-patent") || matches_alias(raw, "bsd2-patent") {
        Ok(License::BSD2Patent)
    } else if matches_alias(raw, "bsd-2-clause") || matches_alias(raw, "bsd-2") || matches_alias(raw, "bsd2") {
        Ok(License::BSD2)
    } else if matches_alias(raw, "bsd-3-clause-clear") || matches_alias(raw, "bsd-3-clear") || matches_alias(raw, "bsd3-clear") {
        Ok(License::BSD3Clear)
    } else if matches_alias(raw, "bsd-3-clause") || matches_alias(raw, "bsd-3") || matches_alias(raw, "bsd3") {
        Ok(License::BSD3)
    } else if matches_alias(raw, "bsd-4-clause") || matches_alias(raw, "bsd-4") || matches_alias(raw, "bsd4") {
        Ok(License::BSD4)
    } else if matches_alias(raw, "bsl-1.0") || matches_alias(raw, "bsl1") || matches_alias(raw, "bsl") {
        Ok(License::BSL)
    } else if matches_alias(raw, "cc-by-4.0") || matches_alias(raw, "cc-by-4") || matches_alias(raw, "ccby4") || matches_alias(raw, "ccby") {
        Ok(License::CCBY)
    } else if matches_alias(raw, "cc-by-sa-4.0") || matches_alias(raw, "cc-by-sa-4") || matches_alias(raw, "ccbysa4") || matches_alias(raw, "ccbysa") {
        Ok(License::CCBYSA)
    } else if matches_alias(raw, "cc0-1.0") || matches_alias(raw, "cc0-1") || matches_alias(raw, "cc0") {
        Ok(License::CC0)
    } else if matches_alias(raw, "cecill-2.1") || matches_alias(raw, "cecill") {
        Ok(License::Cecill)
    } else if matches_alias(raw, "cern-ohl-p-2.0") || matches_alias(raw, "cern-ohl-p") {
        Ok(License::CernOHLP)
    } else if matches_alias(raw, "cern-ohl-s-2.0") || matches_alias(raw, "cern-ohl-s") {
        Ok(License::CernOHLS)
    } else if matches_alias(raw, "cern-ohl-w-2.0") || matches_alias(raw, "cern-ohl-w") {
        Ok(License::CernOHLW)
    } else if matches_alias(raw, "ecl-2.0") || matches_alias(raw, "ecl-2") || matches_alias(raw, "ecl2") || matches_alias(raw, "ecl") {
        Ok(License::ECL)
    } else if matches_alias(raw, "epl-1.0") || matches_alias(raw, "epl-1") || matches_alias(raw, "epl1") {
        Ok(License::EPL1)
    } else if matches_alias(raw, "epl-2.0") || matches_alias(raw, "epl-2") || matches_alias(raw, "epl2") || matches_alias(raw, "epl") {
        Ok(License::EPL2)
    } else if matches_alias(raw, "eupl-1.1") || matches_alias(raw, "eupl1.1") {
        Ok(License::EUPL11)
    } else if matches_alias(raw, "eupl-1.2") || matches_alias(raw, "eupl1.2") || matches_alias(raw, "eupl") {
        Ok(License::EUPL12)
    } else if matches_alias(raw, "gfdl-1.3") || matches_alias(raw, "gfdl1.3") || matches_alias(raw, "gfdl") {
        Ok(License::GFDL)
    } else if matches_alias(raw, "gpl-2.0") || matches_alias(raw, "gpl-2") || matches_alias(raw, "gpl2") || matches_alias(raw, "gplv2") {
        Ok(License::GPL2)
    } else if matches_alias(raw, "gpl-3.0") || matches_alias(raw, "gpl-3") || matches_alias(raw, "gpl3") || matches_alias(raw, "gplv3") || matches_alias(raw, "gpl") {
        Ok(License::GPL3)
    } else if matches_alias(raw, "isc") {
        Ok(License::ISC)
    } else if matches_alias(raw, "lgpl-2.1") || matches_alias(raw, "lgpl-2") || matches_alias(raw, "lgpl2") {
        Ok(License::LGPL2)
    } else if matches_alias(raw, "lgpl-3.0") || matches_alias(raw, "lgpl-3") || matches_alias(raw, "lgpl3") || matches_alias(raw, "lgpl") {
        Ok(License::LGPL3)
    } else if matches_alias(raw, "lppl-1.3c") || matches_alias(raw, "lppl-1.3") || matches_alias(raw, "lppl1.3") || matches_alias(raw, "lppl") {
        Ok(License::LPPL)
    } else if matches_alias(raw, "mit-0") || matches_alias(raw, "mit0") {
        Ok(License::MIT0)
    } else if matches_alias(raw, "mit") {
        Ok(License::MIT)
    } else if matches_alias(raw, "mpl-2.0") || matches_alias(raw, "mpl-2") || matches_alias(raw, "mpl2") || matches_alias(raw, "mpl") {
        Ok(License::MPL)
    } else if matches_alias(raw, "ms-pl") || matches_alias(raw, "mspl") {
        Ok(License::MSPL)
    } else if matches_alias(raw, "ms-rl") || matches_alias(raw, "msrl") {
        Ok(License::MSRL)
    } else if matches_alias(raw, "mulanpsl-2.0") || matches_alias(raw, "mulanpsl-2") || matches_alias(raw, "mulanpsl2") || matches_alias(raw, "mulanpsl") || matches_alias(raw, "mulan") {
        Ok(License::MulanPSL)
    } else if matches_alias(raw, "ncsa") || matches_alias(raw, "uiuc") {
        Ok(License::NCSA)
    } else if matches_alias(raw, "odbl-1.0") || matches_alias(raw, "odbl-1") || matches_alias(raw, "odbl1") || matches_alias(raw, "odbl") {
        Ok(License::ODbL)
    } else if matches_alias(raw, "ofl-1.1") || matches_alias(raw, "ofl1.1") || matches_alias(raw, "ofl") {
        Ok(License::OFL)
    } else if matches_alias(raw, "osl-3.0") || matches_alias(raw, "osl-3") || matches_alias(raw, "osl3") || matches_alias(raw, "osl") {
        Ok(License::OSL)
    } else if matches_alias(raw, "postgresql") || matches_alias(raw, "psql") {
        Ok(License::PostgreSQL)
    } else if matches_alias(raw, "unlicense") {
        Ok(License::Unlicense)
    } else if matches_alias(raw, "upl-1.0") || matches_alias(raw, "upl-1") || matches_alias(raw, "upl1") || matches_alias(raw, "upl") {
        Ok(License::UPL)
    } else if matches_alias(raw, "vim") {
        Ok(License::Vim)
    } else if matches_alias(raw, "wtfpl") {
        Ok(License::WTFPL)
    } else if matches_alias(raw, "zlib") {
        Ok(License::Zlib)
    } else {
        Err(UnknownLicense { input: raw.to_owned() })
    }
}

/// The whole closed set of licenses, in the table's order.  There is no
/// variant outside this list, so a caller can exercise every license.
pub open spec fn spec_all_licenses() -> Seq<License> {
    seq![
        License::BSD0,
        License::AFL,
        License::AGPL,
        License::Apache,
        License::Artistic,
        License::BlueOak,
        License::BSD2Patent,
        License::BSD2,
        License::BSD3Clear,
        License::BSD3,
        License::BSD4,
        License::BSL,
        License::CCBY,
        License::CCBYSA,
        License::CC0,
        License::Cecill,
        License::CernOHLP,
        License::CernOHLS,
        License::CernOHLW,
        License::ECL,
        License::EPL1,
        License::EPL2,
        License::EUPL11,
        License::EUPL12,
        License::GFDL,
        License::GPL2,
        License::GPL3,
        License::ISC,
        License::LGPL2,
        License::LGPL3,
        License::LPPL,
        License::MIT0,
        License::MIT,
        License::MPL,
        License::MSPL,
        License::MSRL,
        License::MulanPSL,
        License::NCSA,
        License::ODbL,
        License::OFL,
        License::OSL,
        License::PostgreSQL,
        License::Unlicense,
        License::UPL,
        License::Vim,
        License::WTFPL,
        License::Zlib,
    ]
}

/// Every license, in the table's order.
#[verifier::rlimit(50)]
pub fn all_licenses() -> (all: Vec<License>)
    ensures
        all@ == spec_all_licenses(),
{
    let mut all: Vec<License> = Vec::new();
    all.push(License::BSD0);
    all.push(License::AFL);
    all.push(License::AGPL);
    all.push(License::Apache);
    all.push(License::Artistic);
    all.push(License::BlueOak);
    all.push(License::BSD2Patent);
    all.push(License::BSD2);
    all.push(License::BSD3Clear);
    all.push(License::BSD3);
    all.push(License::BSD4);
    all.push(License::BSL);
    all.push(License::CCBY);
    all.push(License::CCBYSA);
    all.push(License::CC0);
    all.push(License::Cecill);
    all.push(License::CernOHLP);
    all.push(License::CernOHLS);
    all.push(License::CernOHLW);
    all.push(License::ECL);
    all.push(License::EPL1);
    all.push(License::EPL2);
    all.push(License::EUPL11);
    all.push(License::EUPL12);
    all.push(License::GFDL);
    all.push(License::GPL2);
    all.push(License::GPL3);
    all.push(License::ISC);
    all.push(License::LGPL2);
    all.push(License::LGPL3);
    all.push(License::LPPL);
    all.push(License::MIT0);
    all.push(License::MIT);
    all.push(License::MPL);
    all.push(License::MSPL);
    all.push(License::MSRL);
    all.push(License::MulanPSL);
    all.push(License::NCSA);
    all.push(License::ODbL);
    all.push(License::OFL);
    all.push(License::OSL);
    all.push(License::PostgreSQL);
    all.push(License::Unlicense);
    all.push(License::UPL);
    all.push(License::Vim);
    all.push(License::WTFPL);
    all.push(License::Zlib);
    proof {
        assert(all@ =~= spec_all_licenses());
    }
    all
}

/// The license a specifier token belongs to, read back from the token.
/// This is the retraction that makes specifier uniqueness a theorem.
pub open spec fn spec_license_of_specifier(s: Seq<char>) -> Option<License> {
    if s == spec_specifier(License::BSD0) {
        Some(License::BSD0)
    } else if s == spec_specifier(License::AFL) {
        Some(License::AFL)
    } else if s == spec_specifier(License::AGPL) {
        Some(License::AGPL)
    } else if s == spec_specifier(License::Apache) {
        Some(License::Apache)
    } else if s == spec_specifier(License::Artistic) {
        Some(License::Artistic)
    } else if s == spec_specifier(License::BlueOak) {
        Some(License::BlueOak)
    } else if s == spec_specifier(License::BSD2Patent) {
        Some(License::BSD2Patent)
    } else if s == spec_specifier(License::BSD2) {
        Some(License::BSD2)
    } else if s == spec_specifier(License::BSD3Clear) {
        Some(License::BSD3Clear)
    } else if s == spec_specifier(License::BSD3) {
        Some(License::BSD3)
    } else if s == spec_specifier(License::BSD4) {
        Some(License::BSD4)
    } else if s == spec_specifier(License::BSL) {
        Some(License::BSL)
    } else if s == spec_specifier(License::CCBY) {
        Some(License::CCBY)
    } else if s == spec_specifier(License::CCBYSA) {
        Some(License::CCBYSA)
    } else if s == spec_specifier(License::CC0) {
        Some(License::CC0)
    } else if s == spec_specifier(License::Cecill) {
        Some(License::Cecill)
    } else if s == spec_specifier(License::CernOHLP) {
        Some(License::CernOHLP)
    } else if s == spec_specifier(License::CernOHLS) {
        Some(License::CernOHLS)
    } else if s == spec_specifier(License::CernOHLW) {
        Some(License::CernOHLW)
    } else if s == spec_specifier(License::ECL) {
        Some(License::ECL)
    } else if s == spec_specifier(License::EPL1) {
        Some(License::EPL1)
    } else if s == spec_specifier(License::EPL2) {
        Some(License::EPL2)
    } else if s == spec_specifier(License::EUPL11) {
        Some(License::EUPL11)
    } else if s == spec_specifier(License::EUPL12) {
        Some(License::EUPL12)
    } else if s == spec_specifier(License::GFDL) {
        Some(License::GFDL)
    } else if s == spec_specifier(License::GPL2) {
        Some(License::GPL2)
    } else if s == spec_specifier(License::GPL3) {
        Some(License::GPL3)
    } else if s == spec_specifier(License::ISC) {
        Some(License::ISC)
    } else if s == spec_specifier(License::LGPL2) {
        Some(License::LGPL2)
    } else if s == spec_specifier(License::LGPL3) {
        Some(License::LGPL3)
    } else if s == spec_specifier(License::LPPL) {
        Some(License::LPPL)
    } else if s == spec_specifier(License::MIT0) {
        Some(License::MIT0)
    } else if s == spec_specifier(License::MIT) {
        Some(License::MIT)
    } else if s == spec_specifier(License::MPL) {
        Some(License::MPL)
    } else if s == spec_specifier(License::MSPL) {
        Some(License::MSPL)
    } else if s == spec_specifier(License::MSRL) {
        Some(License::MSRL)
    } else if s == spec_specifier(License::MulanPSL) {
        Some(License::MulanPSL)
    } else if s == spec_specifier(License::NCSA) {
        Some(License::NCSA)
    } else if s == spec_specifier(License::ODbL) {
        Some(License::ODbL)
    } else if s == spec_specifier(License::OFL) {
        Some(License::OFL)
    } else if s == spec_specifier(License::OSL) {
        Some(License::OSL)
    } else if s == spec_specifier(License::PostgreSQL) {
        Some(License::PostgreSQL)
    } else if s == spec_specifier(License::Unlicense) {
        Some(License::Unlicense)
    } else if s == spec_specifier(License::UPL) {
        Some(License::UPL)
    } else if s == spec_specifier(License::Vim) {
        Some(License::Vim)
    } else if s == spec_specifier(License::WTFPL) {
        Some(License::WTFPL)
    } else if s == spec_specifier(License::Zlib) {
        Some(License::Zlib)
    } else {
        None
    }
}

/// Reading a license's specifier back identifies the license.
pub proof fn lemma_specifier_identifies(l: License)
    ensures
        spec_license_of_specifier(spec_specifier(l)) == Some(l),
{
    reveal_strlit("BSD0");
    reveal_strlit("AFL");
    reveal_strlit("AGPL");
    reveal_strlit("APACHE");
    reveal_strlit("ARTISTIC");
    reveal_strlit("BLUEOAK");
    reveal_strlit("BSD2-PATENT");
    reveal_strlit("BSD2");
    reveal_strlit("BSD3-CLEAR");
    reveal_strlit("BSD3");
    reveal_strlit("BSD4");
    reveal_strlit("BSL");
    reveal_strlit("CC-BY");
    reveal_strlit("CC-BY-SA");
    reveal_strlit("CC0");
    reveal_strlit("CECILL");
    reveal_strlit("CERN-OHL-P");
    reveal_strlit("CERN-OHL-S");
    reveal_strlit("CERN-OHL-W");
    reveal_strlit("ECL");
    reveal_strlit("EPL-1.0");
    reveal_strlit("EPL-2.0");
    reveal_strlit("EUPL-1.1");
    reveal_strlit("EUPL-1.2");
    reveal_strlit("GFDL");
    reveal_strlit("GPLv2");
    reveal_strlit("GPLv3");
    reveal_strlit("ISC");
    reveal_strlit("LGPLv2.1");
    reveal_strlit("LGPLv3");
    reveal_strlit("LPPL-1.3c");
    reveal_strlit("MIT-0");
    reveal_strlit("MIT");
    reveal_strlit("MPL");
    reveal_strlit("MS-PL");
    reveal_strlit("MS-RL");
    reveal_strlit("MULANPSL");
    reveal_strlit("NCSA");
    reveal_strlit("ODBL");
    reveal_strlit("OFL");
    reveal_strlit("OSL");
    reveal_strlit("POSTGRESQL");
    reveal_strlit("UNLICENSE");
    reveal_strlit("UPL");
    reveal_strlit("VIM");
    reveal_strlit("WTFPL");
    reveal_strlit("ZLIB");
    assert(spec_specifier(License::BSD0).len() == 4);
    assert(spec_specifier(License::BSD0)[0] == 'B');
    assert(spec_specifier(License::BSD0)[1] == 'S');
    assert(spec_specifier(License::BSD0)[2] == 'D');
    assert(spec_specifier(License::BSD0)[3] == '0');
    assert(spec_specifier(License::AFL).len() == 3);
    assert(spec_specifier(License::AFL)[0] == 'A');
    assert(spec_specifier(License::AFL)[1] == 'F');
    assert(spec_specifier(License::AFL)[2] == 'L');
    assert(spec_specifier(License::AGPL).len() == 4);
    assert(spec_specifier(License::AGPL)[0] == 'A');
    assert(spec_specifier(License::AGPL)[1] == 'G');
    assert(spec_specifier(License::AGPL)[2] == 'P');
    assert(spec_specifier(License::AGPL)[3] == 'L');
    assert(spec_specifier(License::Apache).len() == 6);
    assert(spec_specifier(License::Apache)[0] == 'A');
    assert(spec_specifier(License::Apache)[1] == 'P');
    assert(spec_specifier(License::Apache)[2] == 'A');
    assert(spec_specifier(License::Apache)[3] == 'C');
    assert(spec_specifier(License::Apache)[4] == 'H');
    assert(spec_specifier(License::Apache)[5] == 'E');
    assert(spec_specifier(License::Artistic).len() == 8);
    assert(spec_specifier(License::Artistic)[0] == 'A');
    assert(spec_specifier(License::Artistic)[1] == 'R');
    assert(spec_specifier(License::Artistic)[2] == 'T');
    assert(spec_specifier(License::Artistic)[3] == 'I');
    assert(spec_specifier(License::Artistic)[4] == 'S');
    assert(spec_specifier(License::Artistic)[5] == 'T');
    assert(spec_specifier(License::Artistic)[6] == 'I');
    assert(spec_specifier(License::Artistic)[7] == 'C');
    assert(spec_specifier(License::BlueOak).len() == 7);
    assert(spec_specifier(License::BlueOak)[0] == 'B');
    assert(spec_specifier(License::BlueOak)[1] == 'L');
    assert(spec_specifier(License::BlueOak)[2] == 'U');
    assert(spec_specifier(License::BlueOak)[3] == 'E');
    assert(spec_specifier(License::BlueOak)[4] == 'O');
    assert(spec_specifier(License::BlueOak)[5] == 'A');
    assert(spec_specifier(License::BlueOak)[6] == 'K');
    assert(spec_specifier(License::BSD2Patent).len() == 11);
    assert(spec_specifier(License::BSD2Patent)[0] == 'B');
    assert(spec_specifier(License::BSD2Patent)[1] == 'S');
    assert(spec_specifier(License::BSD2Patent)[2] == 'D');
    assert(spec_specifier(License::BSD2Patent)[3] == '2');
    assert(spec_specifier(License::BSD2Patent)[4] == '-');
    assert(spec_specifier(License::BSD2Patent)[5] == 'P');
    assert(spec_specifier(License::BSD2Patent)[6] == 'A');
    assert(spec_specifier(License::BSD2Patent)[7] == 'T');
    assert(spec_specifier(License::BSD2Patent)[8] == 'E');
    assert(spec_specifier(License::BSD2Patent)[9] == 'N');
    assert(spec_specifier(License::BSD2Patent)[10] == 'T');
    assert(spec_specifier(License::BSD2).len() == 4);
    assert(spec_specifier(License::BSD2)[0] == 'B');
    assert(spec_specifier(License::BSD2)[1] == 'S');
    assert(spec_specifier(License::BSD2)[2] == 'D');
    assert(spec_specifier(License::BSD2)[3] == '2');
    assert(spec_specifier(License::BSD3Clear).len() == 10);
    assert(spec_specifier(License::BSD3Clear)[0] == 'B');
    assert(spec_specifier(License::BSD3Clear)[1] == 'S');
    assert(spec_specifier(License::BSD3Clear)[2] == 'D');
    assert(spec_specifier(License::BSD3Clear)[3] == '3');
    assert(spec_specifier(License::BSD3Clear)[4] == '-');
    assert(spec_specifier(License::BSD3Clear)[5] == 'C');
    assert(spec_specifier(License::BSD3Clear)[6] == 'L');
    assert(spec_specifier(License::BSD3Clear)[7] == 'E');
    assert(spec_specifier(License::BSD3Clear)[8] == 'A');
    assert(spec_specifier(License::BSD3Clear)[9] == 'R');
    assert(spec_specifier(License::BSD3).len() == 4);
    assert(spec_specifier(License::BSD3)[0] == 'B');
    assert(spec_specifier(License::BSD3)[1] == 'S');
    assert(spec_specifier(License::BSD3)[2] == 'D');
    assert(spec_specifier(License::BSD3)[3] == '3');
    assert(spec_specifier(License::BSD4).len() == 4);
    assert(spec_specifier(License::BSD4)[0] == 'B');
    assert(spec_specifier(License::BSD4)[1] == 'S');
    assert(spec_specifier(License::BSD4)[2] == 'D');
    assert(spec_specifier(License::BSD4)[3] == '4');
    assert(spec_specifier(License::BSL).len() == 3);
    assert(spec_specifier(License::BSL)[0] == 'B');
    assert(spec_specifier(License::BSL)[1] == 'S');
    assert(spec_specifier(License::BSL)[2] == 'L');
    assert(spec_specifier(License::CCBY).len() == 5);
    assert(spec_specifier(License::CCBY)[0] == 'C');
    assert(spec_specifier(License::CCBY)[1] == 'C');
    assert(spec_specifier(License::CCBY)[2] == '-');
    assert(spec_specifier(License::CCBY)[3] == 'B');
    assert(spec_specifier(License::CCBY)[4] == 'Y');
    assert(spec_specifier(License::CCBYSA).len() == 8);
    assert(spec_specifier(License::CCBYSA)[0] == 'C');
    assert(spec_specifier(License::CCBYSA)[1] == 'C');
    assert(spec_specifier(License::CCBYSA)[2] == '-');
    assert(spec_specifier(License::CCBYSA)[3] == 'B');
    assert(spec_specifier(License::CCBYSA)[4] == 'Y');
    assert(spec_specifier(License::CCBYSA)[5] == '-');
    assert(spec_specifier(License::CCBYSA)[6] == 'S');
    assert(spec_specifier(License::CCBYSA)[7] == 'A');
    assert(spec_specifier(License::CC0).len() == 3);
    assert(spec_specifier(License::CC0)[0] == 'C');
    assert(spec_specifier(License::CC0)[1] == 'C');
    assert(spec_specifier(License::CC0)[2] == '0');
    assert(spec_specifier(License::Cecill).len() == 6);
    assert(spec_specifier(License::Cecill)[0] == 'C');
    assert(spec_specifier(License::Cecill)[1] == 'E');
    assert(spec_specifier(License::Cecill)[2] == 'C');
    assert(spec_specifier(License::Cecill)[3] == 'I');
    assert(spec_specifier(License::Cecill)[4] == 'L');
    assert(spec_specifier(License::Cecill)[5] == 'L');
    assert(spec_specifier(License::CernOHLP).len() == 10);
    assert(spec_specifier(License::CernOHLP)[0] == 'C');
    assert(spec_specifier(License::CernOHLP)[1] == 'E');
    assert(spec_specifier(License::CernOHLP)[2] == 'R');
    assert(spec_specifier(License::CernOHLP)[3] == 'N');
    assert(spec_specifier(License::CernOHLP)[4] == '-');
    assert(spec_specifier(License::CernOHLP)[5] == 'O');
    assert(spec_specifier(License::CernOHLP)[6] == 'H');
    assert(spec_specifier(License::CernOHLP)[7] == 'L');
    assert(spec_specifier(License::CernOHLP)[8] == '-');
    assert(spec_specifier(License::CernOHLP)[9] == 'P');
    assert(spec_specifier(License::CernOHLS).len() == 10);
    assert(spec_specifier(License::CernOHLS)[0] == 'C');
    assert(spec_specifier(License::CernOHLS)[1] == 'E');
    assert(spec_specifier(License::CernOHLS)[2] == 'R');
    assert(spec_specifier(License::CernOHLS)[3] == 'N');
    assert(spec_specifier(License::CernOHLS)[4] == '-');
    assert(spec_specifier(License::CernOHLS)[5] == 'O');
    assert(spec_specifier(License::CernOHLS)[6] == 'H');
    assert(spec_specifier(License::CernOHLS)[7] == 'L');
    assert(spec_specifier(License::CernOHLS)[8] == '-');
    assert(spec_specifier(License::CernOHLS)[9] == 'S');
    assert(spec_specifier(License::CernOHLW).len() == 10);
    assert(spec_specifier(License::CernOHLW)[0] == 'C');
    assert(spec_specifier(License::CernOHLW)[1] == 'E');
    assert(spec_specifier(License::CernOHLW)[2] == 'R');
    assert(spec_specifier(License::CernOHLW)[3] == 'N');
    assert(spec_specifier(License::CernOHLW)[4] == '-');
    assert(spec_specifier(License::CernOHLW)[5] == 'O');
    assert(spec_specifier(License::CernOHLW)[6] == 'H');
    assert(spec_specifier(License::CernOHLW)[7] == 'L');
    assert(spec_specifier(License::CernOHLW)[8] == '-');
    assert(spec_specifier(License::CernOHLW)[9] == 'W');
    assert(spec_specifier(License::ECL).len() == 3);
    assert(spec_specifier(License::ECL)[0] == 'E');
    assert(spec_specifier(License::ECL)[1] == 'C');
    assert(spec_specifier(License::ECL)[2] == 'L');
    assert(spec_specifier(License::EPL1).len() == 7);
    assert(spec_specifier(License::EPL1)[0] == 'E');
    assert(spec_specifier(License::EPL1)[1] == 'P');
    assert(spec_specifier(License::EPL1)[2] == 'L');
    assert(spec_specifier(License::EPL1)[3] == '-');
    assert(spec_specifier(License::EPL1)[4] == '1');
    assert(spec_specifier(License::EPL1)[5] == '.');
    assert(spec_specifier(License::EPL1)[6] == '0');
    assert(spec_specifier(License::EPL2).len() == 7);
    assert(spec_specifier(License::EPL2)[0] == 'E');
    assert(spec_specifier(License::EPL2)[1] == 'P');
    assert(spec_specifier(License::EPL2)[2] == 'L');
    assert(spec_specifier(License::EPL2)[3] == '-');
    assert(spec_specifier(License::EPL2)[4] == '2');
    assert(spec_specifier(License::EPL2)[5] == '.');
    assert(spec_specifier(License::EPL2)[6] == '0');
    assert(spec_specifier(License::EUPL11).len() == 8);
    assert(spec_specifier(License::EUPL11)[0] == 'E');
    assert(spec_specifier(License::EUPL11)[1] == 'U');
    assert(spec_specifier(License::EUPL11)[2] == 'P');
    assert(spec_specifier(License::EUPL11)[3] == 'L');
    assert(spec_specifier(License::EUPL11)[4] == '-');
    assert(spec_specifier(License::EUPL11)[5] == '1');
    assert(spec_specifier(License::EUPL11)[6] == '.');
    assert(spec_specifier(License::EUPL11)[7] == '1');
    assert(spec_specifier(License::EUPL12).len() == 8);
    assert(spec_specifier(License::EUPL12)[0] == 'E');
    assert(spec_specifier(License::EUPL12)[1] == 'U');
    assert(spec_specifier(License::EUPL12)[2] == 'P');
    assert(spec_specifier(License::EUPL12)[3] == 'L');
    assert(spec_specifier(License::EUPL12)[4] == '-');
    assert(spec_specifier(License::EUPL12)[5] == '1');
    assert(spec_specifier(License::EUPL12)[6] == '.');
    assert(spec_specifier(License::EUPL12)[7] == '2');
    assert(spec_specifier(License::GFDL).len() == 4);
    assert(spec_specifier(License::GFDL)[0] == 'G');
    assert(spec_specifier(License::GFDL)[1] == 'F');
    assert(spec_specifier(License::GFDL)[2] == 'D');
    assert(spec_specifier(License::GFDL)[3] == 'L');
    assert(spec_specifier(License::GPL2).len() == 5);
    assert(spec_specifier(License::GPL2)[0] == 'G');
    assert(spec_specifier(License::GPL2)[1] == 'P');
    assert(spec_specifier(License::GPL2)[2] == 'L');
    assert(spec_specifier(License::GPL2)[3] == 'v');
    assert(spec_specifier(License::GPL2)[4] == '2');
    assert(spec_specifier(License::GPL3).len() == 5);
    assert(spec_specifier(License::GPL3)[0] == 'G');
    assert(spec_specifier(License::GPL3)[1] == 'P');
    assert(spec_specifier(License::GPL3)[2] == 'L');
    assert(spec_specifier(License::GPL3)[3] == 'v');
    assert(spec_specifier(License::GPL3)[4] == '3');
    assert(spec_specifier(License::ISC).len() == 3);
    assert(spec_specifier(License::ISC)[0] == 'I');
    assert(spec_specifier(License::ISC)[1] == 'S');
    assert(spec_specifier(License::ISC)[2] == 'C');
    assert(spec_specifier(License::LGPL2).len() == 8);
    assert(spec_specifier(License::LGPL2)[0] == 'L');
    assert(spec_specifier(License::LGPL2)[1] == 'G');
    assert(spec_specifier(License::LGPL2)[2] == 'P');
    assert(spec_specifier(License::LGPL2)[3] == 'L');
    assert(spec_specifier(License::LGPL2)[4] == 'v');
    assert(spec_specifier(License::LGPL2)[5] == '2');
    assert(spec_specifier(License::LGPL2)[6] == '.');
    assert(spec_specifier(License::LGPL2)[7] == '1');
    assert(spec_specifier(License::LGPL3).len() == 6);
    assert(spec_specifier(License::LGPL3)[0] == 'L');
    assert(spec_specifier(License::LGPL3)[1] == 'G');
    assert(spec_specifier(License::LGPL3)[2] == 'P');
    assert(spec_specifier(License::LGPL3)[3] == 'L');
    assert(spec_specifier(License::LGPL3)[4] == 'v');
    assert(spec_specifier(License::LGPL3)[5] == '3');
    assert(spec_specifier(License::LPPL).len() == 9);
    assert(spec_specifier(License::LPPL)[0] == 'L');
    assert(spec_specifier(License::LPPL)[1] == 'P');
    assert(spec_specifier(License::LPPL)[2] == 'P');
    assert(spec_specifier(License::LPPL)[3] == 'L');
    assert(spec_specifier(License::LPPL)[4] == '-');
    assert(spec_specifier(License::LPPL)[5] == '1');
    assert(spec_specifier(License::LPPL)[6] == '.');
    assert(spec_specifier(License::LPPL)[7] == '3');
    assert(spec_specifier(License::LPPL)[8] == 'c');
    assert(spec_specifier(License::MIT0).len() == 5);
    assert(spec_specifier(License::MIT0)[0] == 'M');
    assert(spec_specifier(License::MIT0)[1] == 'I');
    assert(spec_specifier(License::MIT0)[2] == 'T');
    assert(spec_specifier(License::MIT0)[3] == '-');
    assert(spec_specifier(License::MIT0)[4] == '0');
    assert(spec_specifier(License::MIT).len() == 3);
    assert(spec_specifier(License::MIT)[0] == 'M');
    assert(spec_specifier(License::MIT)[1] == 'I');
    assert(spec_specifier(License::MIT)[2] == 'T');
    assert(spec_specifier(License::MPL).len() == 3);
    assert(spec_specifier(License::MPL)[0] == 'M');
    assert(spec_specifier(License::MPL)[1] == 'P');
    assert(spec_specifier(License::MPL)[2] == 'L');
    assert(spec_specifier(License::MSPL).len() == 5);
    assert(spec_specifier(License::MSPL)[0] == 'M');
    assert(spec_specifier(License::MSPL)[1] == 'S');
    assert(spec_specifier(License::MSPL)[2] == '-');
    assert(spec_specifier(License::MSPL)[3] == 'P');
    assert(spec_specifier(License::MSPL)[4] == 'L');
    assert(spec_specifier(License::MSRL).len() == 5);
    assert(spec_specifier(License::MSRL)[0] == 'M');
    assert(spec_specifier(License::MSRL)[1] == 'S');
    assert(spec_specifier(License::MSRL)[2] == '-');
    assert(spec_specifier(License::MSRL)[3] == 'R');
    assert(spec_specifier(License::MSRL)[4] == 'L');
    assert(spec_specifier(License::MulanPSL).len() == 8);
    assert(spec_specifier(License::MulanPSL)[0] == 'M');
    assert(spec_specifier(License::MulanPSL)[1] == 'U');
    assert(spec_specifier(License::MulanPSL)[2] == 'L');
    assert(spec_specifier(License::MulanPSL)[3] == 'A');
    assert(spec_specifier(License::MulanPSL)[4] == 'N');
    assert(spec_specifier(License::MulanPSL)[5] == 'P');
    assert(spec_specifier(License::MulanPSL)[6] == 'S');
    assert(spec_specifier(License::MulanPSL)[7] == 'L');
    assert(spec_specifier(License::NCSA).len() == 4);
    assert(spec_specifier(License::NCSA)[0] == 'N');
    assert(spec_specifier(License::NCSA)[1] == 'C');
    assert(spec_specifier(License::NCSA)[2] == 'S');
    assert(spec_specifier(License::NCSA)[3] == 'A');
    assert(spec_specifier(License::ODbL).len() == 4);
    assert(spec_specifier(License::ODbL)[0] == 'O');
    assert(spec_specifier(License::ODbL)[1] == 'D');
    assert(spec_specifier(License::ODbL)[2] == 'B');
    assert(spec_specifier(License::ODbL)[3] == 'L');
    assert(spec_specifier(License::OFL).len() == 3);
    assert(spec_specifier(License::OFL)[0] == 'O');
    assert(spec_specifier(License::OFL)[1] == 'F');
    assert(spec_specifier(License::OFL)[2] == 'L');
    assert(spec_specifier(License::OSL).len() == 3);
    assert(spec_specifier(License::OSL)[0] == 'O');
    assert(spec_specifier(License::OSL)[1] == 'S');
    assert(spec_specifier(License::OSL)[2] == 'L');
    assert(spec_specifier(License::PostgreSQL).len() == 10);
    assert(spec_specifier(License::PostgreSQL)[0] == 'P');
    assert(spec_specifier(License::PostgreSQL)[1] == 'O');
    assert(spec_specifier(License::PostgreSQL)[2] == 'S');
    assert(spec_specifier(License::PostgreSQL)[3] == 'T');
    assert(spec_specifier(License::PostgreSQL)[4] == 'G');
    assert(spec_specifier(License::PostgreSQL)[5] == 'R');
    assert(spec_specifier(License::PostgreSQL)[6] == 'E');
    assert(spec_specifier(License::PostgreSQL)[7] == 'S');
    assert(spec_specifier(License::PostgreSQL)[8] == 'Q');
    assert(spec_specifier(License::PostgreSQL)[9] == 'L');
    assert(spec_specifier(License::Unlicense).len() == 9);
    assert(spec_specifier(License::Unlicense)[0] == 'U');
    assert(spec_specifier(License::Unlicense)[1] == 'N');
    assert(spec_specifier(License::Unlicense)[2] == 'L');
    assert(spec_specifier(License::Unlicense)[3] == 'I');
    assert(spec_specifier(License::Unlicense)[4] == 'C');
    assert(spec_specifier(License::Unlicense)[5] == 'E');
    assert(spec_specifier(License::Unlicense)[6] == 'N');
    assert(spec_specifier(License::Unlicense)[7] == 'S');
    assert(spec_specifier(License::Unlicense)[8] == 'E');
    assert(spec_specifier(License::UPL).len() == 3);
    assert(spec_specifier(License::UPL)[0] == 'U');
    assert(spec_specifier(License::UPL)[1] == 'P');
    assert(spec_specifier(License::UPL)[2] == 'L');
    assert(spec_specifier(License::Vim).len() == 3);
    assert(spec_specifier(License::Vim)[0] == 'V');
    assert(spec_specifier(License::Vim)[1] == 'I');
    assert(spec_specifier(License::Vim)[2] == 'M');
    assert(spec_specifier(License::WTFPL).len() == 5);
    assert(spec_specifier(License::WTFPL)[0] == 'W');
    assert(spec_specifier(License::WTFPL)[1] == 'T');
    assert(spec_specifier(License::WTFPL)[2] == 'F');
    assert(spec_specifier(License::WTFPL)[3] == 'P');
    assert(spec_specifier(License::WTFPL)[4] == 'L');
    assert(spec_specifier(License::Zlib).len() == 4);
    assert(spec_specifier(License::Zlib)[0] == 'Z');
    assert(spec_specifier(License::Zlib)[1] == 'L');
    assert(spec_specifier(License::Zlib)[2] == 'I');
    assert(spec_specifier(License::Zlib)[3] == 'B');
    match l {
        License::BSD0 => {
            assert(spec_license_of_specifier(spec_specifier(License::BSD0)) == Some(
                License::BSD0,
            ));
        },
        License::AFL => {
            assert(spec_license_of_specifier(spec_specifier(License::AFL)) == Some(
                License::AFL,
            ));
        },
        License::AGPL => {
            assert(spec_license_of_specifier(spec_specifier(License::AGPL)) == Some(
                License::AGPL,
            ));
        },
        License::Apache => {
            assert(spec_license_of_specifier(spec_specifier(License::Apache)) == Some(
                License::Apache,
            ));
        },
        License::Artistic => {
            assert(spec_license_of_specifier(spec_specifier(License::Artistic)) == Some(
                License::Artistic,
            ));
        },
        License::BlueOak => {
            assert(spec_license_of_specifier(spec_specifier(License::BlueOak)) == Some(
                License::BlueOak,
            ));
        },
        License::BSD2Patent => {
            assert(spec_license_of_specifier(spec_specifier(License::BSD2Patent)) == Some(
                License::BSD2Patent,
            ));
        },
        License::BSD2 => {
            assert(spec_license_of_specifier(spec_specifier(License::BSD2)) == Some(
                License::BSD2,
            ));
        },
        License::BSD3Clear => {
            assert(spec_license_of_specifier(spec_specifier(License::BSD3Clear)) == Some(
                License::BSD3Clear,
            ));
        },
        License::BSD3 => {
            assert(spec_license_of_specifier(spec_specifier(License::BSD3)) == Some(
                License::BSD3,
            ));
        },
        License::BSD4 => {
            assert(spec_license_of_specifier(spec_specifier(License::BSD4)) == Some(
                License::BSD4,
            ));
        },
        License::BSL => {
            assert(spec_license_of_specifier(spec_specifier(License::BSL)) == Some(
                License::BSL,
            ));
        },
        License::CCBY => {
            assert(spec_license_of_specifier(spec_specifier(License::CCBY)) == Some(
                License::CCBY,
            ));
        },
        License::CCBYSA => {
            assert(spec_license_of_specifier(spec_specifier(License::CCBYSA)) == Some(
                License::CCBYSA,
            ));
        },
        License::CC0 => {
            assert(spec_license_of_specifier(spec_specifier(License::CC0)) == Some(
                License::CC0,
            ));
        },
        License::Cecill => {
            assert(spec_license_of_specifier(spec_specifier(License::Cecill)) == Some(
                License::Cecill,
            ));
        },
        License::CernOHLP => {
            assert(spec_license_of_specifier(spec_specifier(License::CernOHLP)) == Some(
                License::CernOHLP,
            ));
        },
        License::CernOHLS => {
            assert(spec_license_of_specifier(spec_specifier(License::CernOHLS)) == Some(
                License::CernOHLS,
            ));
        },
        License::CernOHLW => {
            assert(spec_license_of_specifier(spec_specifier(License::CernOHLW)) == Some(
                License::CernOHLW,
            ));
        },
        License::ECL => {
            assert(spec_license_of_specifier(spec_specifier(License::ECL)) == Some(
                License::ECL,
            ));
        },
        License::EPL1 => {
            assert(spec_license_of_specifier(spec_specifier(License::EPL1)) == Some(
                License::EPL1,
            ));
        },
        License::EPL2 => {
            assert(spec_license_of_specifier(spec_specifier(License::EPL2)) == Some(
                License::EPL2,
            ));
        },
        License::EUPL11 => {
            assert(spec_license_of_specifier(spec_specifier(License::EUPL11)) == Some(
                License::EUPL11,
            ));
        },
        License::EUPL12 => {
            assert(spec_license_of_specifier(spec_specifier(License::EUPL12)) == Some(
                License::EUPL12,
            ));
        },
        License::GFDL => {
            assert(spec_license_of_specifier(spec_specifier(License::GFDL)) == Some(
                License::GFDL,
            ));
        },
        License::GPL2 => {
            assert(spec_license_of_specifier(spec_specifier(License::GPL2)) == Some(
                License::GPL2,
            ));
        },
        License::GPL3 => {
            assert(spec_license_of_specifier(spec_specifier(License::GPL3)) == Some(
                License::GPL3,
            ));
        },
        License::ISC => {
            assert(spec_license_of_specifier(spec_specifier(License::ISC)) == Some(
                License::ISC,
            ));
        },
        License::LGPL2 => {
            assert(spec_license_of_specifier(spec_specifier(License::LGPL2)) == Some(
                License::LGPL2,
            ));
        },
        License::LGPL3 => {
            assert(spec_license_of_specifier(spec_specifier(License::LGPL3)) == Some(
                License::LGPL3,
            ));
        },
        License::LPPL => {
            assert(spec_license_of_specifier(spec_specifier(License::LPPL)) == Some(
                License::LPPL,
            ));
        },
        License::MIT0 => {
            assert(spec_license_of_specifier(spec_specifier(License::MIT0)) == Some(
                License::MIT0,
            ));
        },
        License::MIT => {
            assert(spec_license_of_specifier(spec_specifier(License::MIT)) == Some(
                License::MIT,
            ));
        },
        License::MPL => {
            assert(spec_license_of_specifier(spec_specifier(License::MPL)) == Some(
                License::MPL,
            ));
        },
        License::MSPL => {
            assert(spec_license_of_specifier(spec_specifier(License::MSPL)) == Some(
                License::MSPL,
            ));
        },
        License::MSRL => {
            assert(spec_license_of_specifier(spec_specifier(License::MSRL)) == Some(
                License::MSRL,
            ));
        },
        License::MulanPSL => {
            assert(spec_license_of_specifier(spec_specifier(License::MulanPSL)) == Some(
                License::MulanPSL,
            ));
        },
        License::NCSA => {
            assert(spec_license_of_specifier(spec_specifier(License::NCSA)) == Some(
                License::NCSA,
            ));
        },
        License::ODbL => {
            assert(spec_license_of_specifier(spec_specifier(License::ODbL)) == Some(
                License::ODbL,
            ));
        },
        License::OFL => {
            assert(spec_license_of_specifier(spec_specifier(License::OFL)) == Some(
                License::OFL,
            ));
        },
        License::OSL => {
            assert(spec_license_of_specifier(spec_specifier(License::OSL)) == Some(
                License::OSL,
            ));
        },
        License::PostgreSQL => {
            assert(spec_license_of_specifier(spec_specifier(License::PostgreSQL)) == Some(
                License::PostgreSQL,
            ));
        },
        License::Unlicense => {
            assert(spec_license_of_specifier(spec_specifier(License::Unlicense)) == Some(
                License::Unlicense,
            ));
        },
        License::UPL => {
            assert(spec_license_of_specifier(spec_specifier(License::UPL)) == Some(
                License::UPL,
            ));
        },
        License::Vim => {
            assert(spec_license_of_specifier(spec_specifier(License::Vim)) == Some(
                License::Vim,
            ));
        },
        License::WTFPL => {
            assert(spec_license_of_specifier(spec_specifier(License::WTFPL)) == Some(
                License::WTFPL,
            ));
        },
        License::Zlib => {
            assert(spec_license_of_specifier(spec_specifier(License::Zlib)) == Some(
                License::Zlib,
            ));
        },
    }
}

/// Specifier uniqueness: two distinct licenses never share a specifier,
/// so a batch's specifier-suffixed output names never collide.
pub proof fn lemma_specifier_unique(a: License, b: License)
    requires
        spec_specifier(a) == spec_specifier(b),
    ensures
        a == b,
{
    lemma_specifier_identifies(a);
    lemma_specifier_identifies(b);
}

/// Case-insensitivity: identifiers with the same lowercased form resolve
/// to the same outcome, whichever case the user typed them in.
pub proof fn lemma_resolve_case_insensitive(a: Seq<char>, b: Seq<char>)
    requires
        lower(a) == lower(b),
    ensures
        spec_resolve(a) == spec_resolve(b),
{
}

/// Determinism: resolution is a function of the input string alone, so no
/// identifier can be mapped to two different licenses.
pub proof fn lemma_resolve_deterministic(a: Seq<char>, b: Seq<char>)
    requires
        a == b,
    ensures
        spec_resolve(a) == spec_resolve(b),
{
}

impl License {
    /// The short token used to distinguish output file names in a batch.
    pub fn specifier(&self) -> (s: &'static str)
        ensures
            s@ == spec_specifier(*self),
    {
        match self {
            License::BSD0 => "BSD0",
            License::AFL => "AFL",
            License::AGPL => "AGPL",
            License::Apache => "APACHE",
            License::Artistic => "ARTISTIC",
            License::BlueOak => "BLUEOAK",
            License::BSD2Patent => "BSD2-PATENT",
            License::BSD2 => "BSD2",
            License::BSD3Clear => "BSD3-CLEAR",
            License::BSD3 => "BSD3",
            License::BSD4 => "BSD4",
            License::BSL => "BSL",
            License::CCBY => "CC-BY",
            License::CCBYSA => "CC-BY-SA",
            License::CC0 => "CC0",
            License::Cecill => "CECILL",
            License::CernOHLP => "CERN-OHL-P",
            License::CernOHLS => "CERN-OHL-S",
            License::CernOHLW => "CERN-OHL-W",
            License::ECL => "ECL",
            License::EPL1 => "EPL-1.0",
            License::EPL2 => "EPL-2.0",
            License::EUPL11 => "EUPL-1.1",
            License::EUPL12 => "EUPL-1.2",
            License::GFDL => "GFDL",
            License::GPL2 => "GPLv2",
            License::GPL3 => "GPLv3",
            License::ISC => "ISC",
            License::LGPL2 => "LGPLv2.1",
            License::LGPL3 => "LGPLv3",
            License::LPPL => "LPPL-1.3c",
            License::MIT0 => "MIT-0",
            License::MIT => "MIT",
            License::MPL => "MPL",
            License::MSPL => "MS-PL",
            License::MSRL => "MS-RL",
            License::MulanPSL => "MULANPSL",
            License::NCSA => "NCSA",
            License::ODbL => "ODBL",
            License::OFL => "OFL",
            License::OSL => "OSL",
            License::PostgreSQL => "POSTGRESQL",
            License::Unlicense => "UNLICENSE",
            License::UPL => "UPL",
            License::Vim => "VIM",
            License::WTFPL => "WTFPL",
            License::Zlib => "ZLIB",
        }
    }

    /// The full name of the license, placed on the first line of the
    /// rendered text.
    pub fn display_name(&self) -> (s: &'static str)
        ensures
            s@ == spec_display_name(*self),
    {
        match self {
            License::BSD0 => "BSD Zero Clause License",
            License::AFL => "Academic Free License v3.0",
            License::AGPL => "GNU Affero General Public License v3.0",
            License::Apache => "Apache License 2.0",
            License::Artistic => "Artistic License 2.0",
            License::BlueOak => "Blue Oak Model License 1.0.0",
            License::BSD2Patent => "BSD-2-Clause Plus Patent License",
            License::BSD2 => "BSD 2-Clause \"Simplified\" License",
            License::BSD3Clear => "BSD 3-Clause Clear License",
            License::BSD3 => "BSD 3-Clause \"New\" or \"Revised\" License",
            License::BSD4 => "BSD 4-Clause \"Original\" or \"Old\" License",
            License::BSL => "Boost Software License 1.0",
            License::CCBY => "Creative Commons Attribution 4.0 International",
            License::CCBYSA => "Creative Commons Attribution Share Alike 4.0 International",
            License::CC0 => "Creative Commons Zero v1.0 Universal",
            License::Cecill => "CeCILL Free Software License Agreement v2.1",
            License::CernOHLP => "CERN Open Hardware Licence Version 2 - Permissive",
            License::CernOHLS => "CERN Open Hardware Licence Version 2 - Strongly Reciprocal",
            License::CernOHLW => "CERN Open Hardware Licence Version 2 - Weakly Reciprocal",
            License::ECL => "Educational Community License v2.0",
            License::EPL1 => "Eclipse Public License 1.0",
            License::EPL2 => "Eclipse Public License 2.0",
            License::EUPL11 => "European Union Public License 1.1",
            License::EUPL12 => "European Union Public License 1.2",
            License::GFDL => "GNU Free Documentation License v1.3",
            License::GPL2 => "GNU General Public License v2.0",
            License::GPL3 => "GNU General Public License v3.0",
            License::ISC => "ISC License",
            License::LGPL2 => "GNU Lesser General Public License v2.1",
            License::LGPL3 => "GNU Lesser General Public License v3.0",
            License::LPPL => "LaTeX Project Public License v1.3c",
            License::MIT0 => "MIT No Attribution",
            License::MIT => "MIT License",
            License::MPL => "Mozilla Public License 2.0",
            License::MSPL => "Microsoft Public License",
            License::MSRL => "Microsoft Reciprocal License",
            License::MulanPSL => "Mulan Permissive Software License, Version 2",
            License::NCSA => "University of Illinois/NCSA Open Source License",
            License::ODbL => "Open Data Commons Open Database License v1.0",
            License::OFL => "SIL Open Font License 1.1",
            License::OSL => "Open Software License 3.0",
            License::PostgreSQL => "PostgreSQL License",
            License::Unlicense => "The Unlicense",
            License::UPL => "Universal Permissive License v1.0",
            License::Vim => "Vim License",
            License::WTFPL => "Do What The Fuck You Want To Public License",
            License::Zlib => "zlib License",
        }
    }
}

} // verus!
