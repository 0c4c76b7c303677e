//! The output naming policy.
//!
//! One selected license gets the plain canonical file name; several get
//! the canonical name suffixed with each license's specifier, which keeps
//! the names of a batch distinct.  An extension override, when present,
//! is appended uniformly after a dot.  The policy only computes names;
//! creating files is the caller's business.

use vstd::prelude::*;
use crate::license::License;
use crate::license::lemma_specifier_identifies;
use crate::license::spec_specifier;

verus! {

/// The extension override as text, when there is one.
pub open spec fn ext_text(e: Option<String>) -> Option<Seq<char>> {
    match e {
        Some(s) => Some(s@),
        None => None,
    }
}

/// The output file name for one license: alone it is the plain canonical
/// name, in company it carries the license's specifier, and an extension
/// override is appended after a dot.
pub open spec fn spec_output_name(l: License, multi: bool, ext: Option<Seq<char>>) -> Seq<char> {
    (if multi {
        "LICENSE-"@ + spec_specifier(l)
    } else {
        "LICENSE"@
    }) + (match ext {
        Some(e) => "."@ + e,
        None => Seq::empty(),
    })
}

/// Compute the output file name of one license in a batch.
pub fn output_name(license: License, multi: bool, extension: &Option<String>) -> (name: String)
    ensures
        name@ == spec_output_name(license, multi, ext_text(*extension)),
{
    let mut name = String::new();
    if multi {
        name.append("LICENSE-");
        name.append(license.specifier());
    } else {
        name.append("LICENSE");
    }
    match extension {
        Some(e) => {
            name.append(".");
            name.append(e.as_str());
        },
        None => {},
    }
    proof {
        assert(name@ =~= spec_output_name(license, multi, ext_text(*extension)));
    }
    name
}

/// Compute the output file names for a whole batch, in the batch's order.
pub fn output_names(licenses: &Vec<License>, extension: &Option<String>) -> (names: Vec<String>)
    ensures
        names@.len() == licenses@.len(),
        forall|k: int|
            0 <= k < names@.len() ==> names@[k]@ == spec_output_name(
                licenses@[k],
                licenses@.len() > 1,
                ext_text(*extension),
            ),
{
    let multi = licenses.len() > 1;
    let mut names: Vec<String> = Vec::new();
    let mut i: usize = 0;
    while i < licenses.len()
        invariant
            i <= licenses@.len(),
            names@.len() == i,
            multi == (licenses@.len() > 1),
            forall|k: int|
                0 <= k < i ==> names@[k]@ == spec_output_name(
                    licenses@[k],
                    licenses@.len() > 1,
                    ext_text(*extension),
                ),
        decreases licenses@.len() - i,
    {
        let name = output_name(licenses[i], multi, extension);
        names.push(name);
        i = i + 1;
    }
    names
}

/// In a batch of several licenses the names never collide: distinct
/// licenses get distinct output names, whatever the extension override,
/// because each name embeds the license's unique specifier.
pub proof fn lemma_output_name_unique(a: License, b: License, ext: Option<Seq<char>>)
    requires
        a != b,
    ensures
        spec_output_name(a, true, ext) != spec_output_name(b, true, ext),
{
    reveal_strlit("LICENSE-");
    lemma_specifier_identifies(a);
    lemma_specifier_identifies(b);
    assert(spec_specifier(a) != spec_specifier(b));
    let sa = spec_specifier(a);
    let sb = spec_specifier(b);
    let e = (match ext {
        Some(x) => "."@ + x,
        None => Seq::<char>::empty(),
    });
    if spec_output_name(a, true, ext) == spec_output_name(b, true, ext) {
        assert(spec_output_name(a, true, ext) == ("LICENSE-"@ + sa) + e);
        assert(spec_output_name(b, true, ext) == ("LICENSE-"@ + sb) + e);
        assert((("LICENSE-"@ + sa) + e).len() == 8 + sa.len() + e.len());
        assert((("LICENSE-"@ + sb) + e).len() == 8 + sb.len() + e.len());
        assert(sa.len() == sb.len());
        assert(sa =~= sb) by {
            assert forall|k: int| 0 <= k < sa.len() implies sa[k] == sb[k] by {
                assert(spec_output_name(a, true, ext)[8 + k] == sa[k]);
                assert(spec_output_name(b, true, ext)[8 + k] == sb[k]);
            }
        }
        assert(false);
    }
}

} // verus!
