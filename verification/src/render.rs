//! The template renderer.
//!
//! A template is plain text with placeholder tokens; rendering replaces
//! each token with the corresponding optional field of a [`LicenseInfo`],
//! scanning left to right.  An absent field contributes nothing at all, so
//! no internal representation ever leaks into the rendered text.  Rendering
//! is total: it succeeds for every template and every info bundle.

use vstd::prelude::*;
use crate::license::License;
use crate::license::spec_display_name;
use crate::template::body_text;
use crate::template::spec_body;

verus! {

/// The metadata bundle applied uniformly to every license rendered in one
/// invocation.  Every field is optional free text.
#[derive(Debug, Clone)]
pub struct LicenseInfo {
    pub name: Option<String>,
    pub year: Option<String>,
    pub email: Option<String>,
    pub project: Option<String>,
    pub project_url: Option<String>,
}

/// What one optional field contributes to the rendered text: its value
/// when present, nothing at all when absent.
pub open spec fn field_text(f: Option<String>) -> Seq<char> {
    match f {
        Some(s) => s@,
        None => Seq::empty(),
    }
}

/// The text each placeholder expands to, one field per placeholder.
pub ghost struct InfoText {
    pub name: Seq<char>,
    pub year: Seq<char>,
    pub email: Seq<char>,
    pub project: Seq<char>,
    pub project_url: Seq<char>,
}

impl View for LicenseInfo {
    type V = InfoText;

    open spec fn view(&self) -> InfoText {
        InfoText {
            name: field_text(self.name),
            year: field_text(self.year),
            email: field_text(self.email),
            project: field_text(self.project),
            project_url: field_text(self.project_url),
        }
    }
}

impl LicenseInfo {
    /// An info bundle with every field absent.
    pub fn absent() -> (r: LicenseInfo)
        ensures
            r.name is None,
            r.year is None,
            r.email is None,
            r.project is None,
            r.project_url is None,
    {
        LicenseInfo { name: None, year: None, email: None, project: None, project_url: None }
    }
}

/// Whether the text begins with the given (non-empty) token.
pub open spec fn begins_with(t: Seq<char>, p: Seq<char>) -> bool {
    1 <= p.len() <= t.len() && t.subrange(0, p.len() as int) == p
}

/// The rendered form of a template: each placeholder token is replaced by
/// its field's text, every other character is copied unchanged, scanning
/// left to right.  Substituted text is never scanned again.
pub open spec fn fill_spec(t: Seq<char>, v: InfoText) -> Seq<char>
    decreases t.len(),
{
    if begins_with(t, "{name}"@) {
        v.name + fill_spec(t.skip("{name}"@.len() as int), v)
    } else if begins_with(t, "{year}"@) {
        v.year + fill_spec(t.skip("{year}"@.len() as int), v)
    } else if begins_with(t, "{email}"@) {
        v.email + fill_spec(t.skip("{email}"@.len() as int), v)
    } else if begins_with(t, "{project}"@) {
        v.project + fill_spec(t.skip("{project}"@.len() as int), v)
    } else if begins_with(t, "{url}"@) {
        v.project_url + fill_spec(t.skip("{url}"@.len() as int), v)
    } else if t.len() > 0 {
        seq![t[0]] + fill_spec(t.skip(1), v)
    } else {
        Seq::empty()
    }
}

/// Does the text contain the pattern as a block starting at position `i`?
fn matches_at(t: &str, i: usize, pat: &str) -> (b: bool)
    requires
        i <= t@.len(),
    ensures
        b == begins_with(t@.skip(i as int), pat@),
{
    let n = t.unicode_len();
    let m = pat.unicode_len();
    if m == 0 || m > n - i {
        return false;
    }
    let mut j: usize = 0;
    while j < m
        invariant
            j <= m,
            1 <= m,
            i + m <= n,
            i <= n,
            n == t@.len(),
            m == pat@.len(),
            forall|k: int| 0 <= k < j ==> t@[i + k] == pat@[k],
        decreases m - j,
    {
        if t.get_char(i + j) != pat.get_char(j) {
            proof {
                assert(t@.skip(i as int).subrange(0, m as int)[j as int] == t@[i + j]);
            }
            return false;
        }
        j = j + 1;
    }
    proof {
        assert(t@.skip(i as int).subrange(0, m as int) =~= pat@);
    }
    true
}

/// Append an optional field's text: its value when present, nothing when
/// absent.
fn append_field(out: &mut String, f: &Option<String>)
    ensures
        final(out)@ == old(out)@ + field_text(*f),
{
    match f {
        Some(s) => out.append(s.as_str()),
        None => {
            proof {
                assert(old(out)@ + field_text(None::<String>) =~= old(out)@);
            }
        },
    }
}

/// Substitute every placeholder of one template.
pub fn fill(t: &str, info: &LicenseInfo) -> (out: String)
    ensures
        out@ == fill_spec(t@, info@),
{
    let n = t.unicode_len();
    let mut out = String::new();
    let mut i: usize = 0;
    proof {
        assert(t@.skip(0) =~= t@);
        assert(Seq::<char>::empty() + fill_spec(t@, info@) =~= fill_spec(t@, info@));
    }
    while i < n
        invariant
            i <= n,
            n == t@.len(),
            fill_spec(t@, info@) == out@ + fill_spec(t@.skip(i as int), info@),
        decreases n - i,
    {
        let ghost prev = out@;
        let ghost rest = t@.skip(i as int);
        if matches_at(t, i, "{name}") {
            proof {
                reveal_strlit("{name}");
            }
            append_field(&mut out, &info.name);
            i = i + 6;
            proof {
                assert(rest.skip("{name}"@.len() as int) =~= t@.skip(i as int));
                assert(prev + fill_spec(rest, info@) =~= out@ + fill_spec(t@.skip(i as int), info@));
            }
        } else if matches_at(t, i, "{year}") {
            proof {
                reveal_strlit("{year}");
            }
            append_field(&mut out, &info.year);
            i = i + 6;
            proof {
                assert(rest.skip("{year}"@.len() as int) =~= t@.skip(i as int));
                assert(prev + fill_spec(rest, info@) =~= out@ + fill_spec(t@.skip(i as int), info@));
            }
        } else if matches_at(t, i, "{email}") {
            proof {
                reveal_strlit("{email}");
            }
            append_field(&mut out, &info.email);
            i = i + 7;
            proof {
                assert(rest.skip("{email}"@.len() as int) =~= t@.skip(i as int));
                assert(prev + fill_spec(rest, info@) =~= out@ + fill_spec(t@.skip(i as int), info@));
            }
        } else if matches_at(t, i, "{project}") {
            proof {
                reveal_strlit("{project}");
            }
            append_field(&mut out, &info.project);
            i = i + 9;
            proof {
                assert(rest.skip("{project}"@.len() as int) =~= t@.skip(i as int));
                assert(prev + fill_spec(rest, info@) =~= out@ + fill_spec(t@.skip(i as int), info@));
            }
        } else if matches_at(t, i, "{url}") {
            proof {
                reveal_strlit("{url}");
            }
            append_field(&mut out, &info.project_url);
            i = i + 5;
            proof {
                assert(rest.skip("{url}"@.len() as int) =~= t@.skip(i as int));
                assert(prev + fill_spec(rest, info@) =~= out@ + fill_spec(t@.skip(i as int), info@));
            }
        } else {
            let piece = t.substring_char(i, i + 1);
            out.append(piece);
            i = i + 1;
            proof {
                assert(piece@ =~= seq![rest[0]]);
                assert(rest.skip(1) =~= t@.skip(i as int));
                assert(prev + fill_spec(rest, info@) =~= out@ + fill_spec(t@.skip(i as int), info@));
            }
        }
    }
    proof {
        assert(t@.skip(n as int) =~= Seq::<char>::empty());
        assert(out@ + fill_spec(t@.skip(n as int), info@) =~= out@);
    }
    out
}

/// The full rendered text of one license: the display name line, a blank
/// line, then the filled template body.
pub open spec fn spec_render(l: License, v: InfoText) -> Seq<char> {
    spec_display_name(l) + "\n\n"@ + fill_spec(spec_body(l), v)
}

/// Render one license with the given metadata.
///
/// Rendering is total: it succeeds for every license and every info
/// bundle, including one with every field absent, and the rendered text
/// is never empty.
pub fn render(license: License, info: &LicenseInfo) -> (out: String)
    ensures
        out@ == spec_render(license, info@),
        out@.len() > 0,
{
    let mut out = String::new();
    out.append(license.display_name());
    out.append("\n\n");
    let body = fill(body_text(license), info);
    out.append(body.as_str());
    proof {
        reveal_strlit("\n\n");
        assert(out@ =~= spec_render(license, info@));
    }
    out
}

/// Append one rendered license, UTF-8 encoded, to an output byte buffer.
/// The buffer holds everything the caller needs to hand to a file or to
/// standard output; nothing here touches either.
pub fn write_license(out: &mut Vec<u8>, license: License, info: &LicenseInfo)
    ensures
        final(out)@ == old(out)@ + vstd::utf8::encode_utf8(spec_render(license, info@)),
{
    let text = render(license, info);
    let bs = text.as_str().as_bytes();
    proof {
        assert(bs@ == vstd::utf8::encode_utf8(spec_render(license, info@)));
    }
    let ghost base = out@;
    proof {
        assert(base + bs@.subrange(0, 0) =~= base);
    }
    let mut j: usize = 0;
    while j < bs.len()
        invariant
            j <= bs@.len(),
            out@ == base + bs@.subrange(0, j as int),
        decreases bs@.len() - j,
    {
        let b = bs[j];
        out.push(b);
        j = j + 1;
        proof {
            assert(base + bs@.subrange(0, j - 1) + seq![bs@[j - 1]] =~= base + bs@.subrange(
                0,
                j as int,
            ));
        }
    }
    proof {
        assert(bs@.subrange(0, bs@.len() as int) =~= bs@);
    }
}

/// The info text of a bundle with every field absent.
pub open spec fn absent_text() -> InfoText {
    InfoText {
        name: Seq::empty(),
        year: Seq::empty(),
        email: Seq::empty(),
        project: Seq::empty(),
        project_url: Seq::empty(),
    }
}

/// The template's literal characters alone: every placeholder is deleted
/// and nothing stands in its place.
pub open spec fn strip_spec(t: Seq<char>) -> Seq<char>
    decreases t.len(),
{
    if begins_with(t, "{name}"@) {
        strip_spec(t.skip("{name}"@.len() as int))
    } else if begins_with(t, "{year}"@) {
        strip_spec(t.skip("{year}"@.len() as int))
    } else if begins_with(t, "{email}"@) {
        strip_spec(t.skip("{email}"@.len() as int))
    } else if begins_with(t, "{project}"@) {
        strip_spec(t.skip("{project}"@.len() as int))
    } else if begins_with(t, "{url}"@) {
        strip_spec(t.skip("{url}"@.len() as int))
    } else if t.len() > 0 {
        seq![t[0]] + strip_spec(t.skip(1))
    } else {
        Seq::empty()
    }
}

/// Placeholder fallback: filling a template with every field absent
/// yields exactly the template with its placeholders deleted.  Nothing is
/// substituted in their place, so no marker for an absent value can ever
/// appear in the output.
pub proof fn lemma_fill_absent(t: Seq<char>)
    ensures
        fill_spec(t, absent_text()) == strip_spec(t),
    decreases t.len(),
{
    if begins_with(t, "{name}"@) {
        lemma_fill_absent(t.skip("{name}"@.len() as int));
        assert(fill_spec(t, absent_text()) =~= strip_spec(t));
    } else if begins_with(t, "{year}"@) {
        lemma_fill_absent(t.skip("{year}"@.len() as int));
        assert(fill_spec(t, absent_text()) =~= strip_spec(t));
    } else if begins_with(t, "{email}"@) {
        lemma_fill_absent(t.skip("{email}"@.len() as int));
        assert(fill_spec(t, absent_text()) =~= strip_spec(t));
    } else if begins_with(t, "{project}"@) {
        lemma_fill_absent(t.skip("{project}"@.len() as int));
        assert(fill_spec(t, absent_text()) =~= strip_spec(t));
    } else if begins_with(t, "{url}"@) {
        lemma_fill_absent(t.skip("{url}"@.len() as int));
        assert(fill_spec(t, absent_text()) =~= strip_spec(t));
    } else if t.len() > 0 {
        lemma_fill_absent(t.skip(1));
    } else {
    }
}

/// Placeholder fallback for a whole rendering: with every field absent
/// the output is the display name line followed by the stripped body.
pub proof fn lemma_render_absent(l: License, v: InfoText)
    requires
        v == absent_text(),
    ensures
        spec_render(l, v) == spec_display_name(l) + "\n\n"@ + strip_spec(spec_body(l)),
{
    lemma_fill_absent(spec_body(l));
}

} // verus!
