//! What the engine is shown: the sources by their virtual paths, the fonts
//! that are looked for, and the date.

use vstd::prelude::*;
use crate::render::engine::{has_template, is_template};
use crate::search::occurs_at_chars;
use crate::text::{chars_of, lowercase, owned, push_str, same_text, string_of, to_lowercase};

verus! {

/// The virtual path of a template of the catalogue.
pub open spec fn template_path_of(name: Seq<char>) -> Seq<char> {
    "templates/"@ + name + ".typ"@
}

/// The path at which a template stands.
pub fn template_path(name: &str) -> (r: String)
    ensures
        r@ == template_path_of(name@),
{
    let mut out: Vec<char> = Vec::new();
    push_str(&mut out, "templates/");
    push_str(&mut out, name);
    push_str(&mut out, ".typ");
    assert(out@ =~= template_path_of(name@));
    string_of(&out)
}

/// What stands at a virtual path.
#[derive(Debug, Clone)]
pub enum SourceKind {
    /// The source that drives the engine.
    Main,
    /// The template of that name, or the helpers that templates share.
    Template(String),
    /// Nothing.
    Missing,
}

/// Whether a name is a template's, or that of the helpers that templates
/// share.
pub open spec fn is_catalogue_file(name: Seq<char>) -> bool {
    is_template(name) || name == "_common"@
}

/// Whether `kind` is what stands at the path: the driver at `main.typ`, a
/// file of the catalogue at `templates/<name>.typ`, nothing elsewhere.
pub open spec fn stands_at(path: Seq<char>, kind: SourceKind) -> bool {
    if path == "main.typ"@ {
        kind is Main
    } else if exists|name: Seq<char>| is_catalogue_file(name) && path == template_path_of(name) {
        kind matches SourceKind::Template(name) && is_catalogue_file(name@) && path
            == template_path_of(name@)
    } else {
        kind is Missing
    }
}

/// What stands at a virtual path.
pub fn resolve_source(path: &str) -> (r: SourceKind)
    ensures
        stands_at(path@, r),
{
    if same_text(path, "main.typ") {
        return SourceKind::Main;
    }
    let v = chars_of(path);
    let lead = chars_of("templates/");
    let tail = chars_of(".typ");
    proof {
        reveal_strlit("templates/");
        reveal_strlit(".typ");
    }
    if v.len() >= lead.len() + tail.len() && occurs_at_chars(&v, &lead, 0) && occurs_at_chars(
        &v,
        &tail,
        v.len() - tail.len(),
    ) {
        let mut name: Vec<char> = Vec::new();
        let mut i: usize = lead.len();
        let end = v.len() - tail.len();
        while i < end
            invariant
                lead@.len() <= i <= end <= v@.len(),
                name@ == v@.subrange(lead@.len() as int, i as int),
            decreases end - i,
        {
            name.push(v[i]);
            i += 1;
        }
        let name = string_of(&name);
        assert(path@ =~= template_path_of(name@));
        if has_template(name.as_str()) || same_text(name.as_str(), "_common") {
            return SourceKind::Template(name);
        }
        assert forall|other: Seq<char>| path@ == template_path_of(other) implies other
            == name@ by {
            lemma_same_name(name@, other);
        }
        return SourceKind::Missing;
    }
    assert forall|other: Seq<char>| path@ != template_path_of(other) by {
        let t = template_path_of(other);
        if path@ == t {
            assert(t.subrange(0, lead@.len() as int) =~= lead@);
            assert(t.subrange(t.len() - tail@.len(), t.len() as int) =~= tail@);
        }
    }
    SourceKind::Missing
}

proof fn lemma_same_name(a: Seq<char>, b: Seq<char>)
    requires
        template_path_of(a) == template_path_of(b),
    ensures
        a == b,
{
    let lead = "templates/"@;
    let x = template_path_of(a);
    let y = template_path_of(b);
    assert(x.len() == lead.len() + a.len() + ".typ"@.len());
    assert(y.len() == lead.len() + b.len() + ".typ"@.len());
    assert(a.len() == b.len());
    assert forall|i: int| 0 <= i < a.len() implies a[i] == b[i] by {
        assert(x[lead.len() + i] == a[i]);
        assert(y[lead.len() + i] == b[i]);
    }
    assert(a =~= b);
}

/// Whether a file with that extension, whatever its case, is taken for a
/// font.
pub open spec fn is_font(extension: Seq<char>) -> bool {
    let e = lowercase(extension);
    e == "ttf"@ || e == "otf"@ || e == "ttc"@ || e == "woff"@ || e == "woff2"@
}

/// Whether an extension in lower case is a font's.
pub fn is_lowered_font_extension(lower: &str) -> (r: bool)
    ensures
        r == (lower@ == "ttf"@ || lower@ == "otf"@ || lower@ == "ttc"@ || lower@ == "woff"@
            || lower@ == "woff2"@),
{
    same_text(lower, "ttf") || same_text(lower, "otf") || same_text(lower, "ttc") || same_text(
        lower,
        "woff",
    ) || same_text(lower, "woff2")
}

/// Whether a file with that extension is taken for a font.
pub fn is_font_extension(extension: &str) -> (r: bool)
    ensures
        r == is_font(extension@),
{
    let lower = to_lowercase(extension);
    is_lowered_font_extension(lower.as_str())
}

/// The family of operating systems that the process runs on.
#[derive(Debug, Clone, Copy, PartialEq, Eq, Structural)]
pub enum Platform {
    MacOs,
    Linux,
    Windows,
    Other,
}

/// The directories in which fonts are looked for, in order: on macOS the
/// system's two; on Linux the system's two and `.fonts` in the user's home,
/// where the home is known; on Windows `Fonts` in the system's directory,
/// where that is known; elsewhere none.
pub open spec fn font_directories_of(
    platform: Platform,
    home: Option<Seq<char>>,
    windir: Option<Seq<char>>,
) -> Seq<Seq<char>> {
    match platform {
        Platform::MacOs => seq!["/System/Library/Fonts"@, "/Library/Fonts"@],
        Platform::Linux => match home {
            Some(h) => seq!["/usr/share/fonts"@, "/usr/local/share/fonts"@, h + "/.fonts"@],
            None => seq!["/usr/share/fonts"@, "/usr/local/share/fonts"@],
        },
        Platform::Windows => match windir {
            Some(w) => seq![w + "\\Fonts"@],
            None => Seq::empty(),
        },
        Platform::Other => Seq::empty(),
    }
}

/// The directories in which fonts are looked for on a platform.
pub fn font_directories(platform: Platform, home: Option<&str>, windir: Option<&str>) -> (r: Vec<
    String,
>)
    ensures
        crate::text::texts(r@) == font_directories_of(
            platform,
            crate::utils::date::opt_str(home),
            crate::utils::date::opt_str(windir),
        ),
{
    let mut r: Vec<String> = Vec::new();
    match platform {
        Platform::MacOs => {
            r.push(owned("/System/Library/Fonts"));
            r.push(owned("/Library/Fonts"));
        },
        Platform::Linux => {
            r.push(owned("/usr/share/fonts"));
            r.push(owned("/usr/local/share/fonts"));
            match home {
                Some(h) => {
                    let mut out: Vec<char> = Vec::new();
                    push_str(&mut out, h);
                    push_str(&mut out, "/.fonts");
                    r.push(string_of(&out));
                },
                None => {},
            }
        },
        Platform::Windows => {
            match windir {
                Some(w) => {
                    let mut out: Vec<char> = Vec::new();
                    push_str(&mut out, w);
                    push_str(&mut out, "\\Fonts");
                    r.push(string_of(&out));
                },
                None => {},
            }
        },
        Platform::Other => {},
    }
    assert(crate::text::texts(r@) =~= font_directories_of(
        platform,
        crate::utils::date::opt_str(home),
        crate::utils::date::opt_str(windir),
    ));
    r
}

/// The date, as year, month and day, that `chrono` gives for a number of
/// seconds since the epoch in UTC, shifted by a number of hours; or nothing
/// where the moment is out of its range.
pub uninterp spec fn shifted_date(seconds: int, hours: int) -> Option<(int, nat, nat)>;

/// Calls `chrono::DateTime::from_timestamp`, `TimeDelta::try_hours` and
/// `DateTime::checked_add_signed`, then reads year, month and day with
/// `Datelike`. Each of them reports what is out of range instead of
/// panicking.
#[verifier::external_body]
fn date_after(seconds: i64, hours: i64) -> (r: Option<(i32, u32, u32)>)
    ensures
        match r {
            Some(d) => shifted_date(seconds as int, hours as int) == Some(
                (d.0 as int, d.1 as nat, d.2 as nat),
            ),
            None => shifted_date(seconds as int, hours as int) is None,
        },
{
    let moment = chrono::DateTime::from_timestamp(seconds, 0)?;
    let shifted = moment.checked_add_signed(chrono::TimeDelta::try_hours(hours)?)?;
    Some(
        (
            chrono::Datelike::year(&shifted),
            chrono::Datelike::month(&shifted),
            chrono::Datelike::day(&shifted),
        ),
    )
}

/// Today's date for the engine: the date in UTC of the moment `now`, in
/// seconds since the epoch, shifted by the hours that the engine asks for,
/// or by none.
pub fn today(now: i64, offset: Option<i64>) -> (r: Option<(i32, u32, u32)>)
    ensures
        ({
            let hours: int = match offset {
                Some(h) => h as int,
                None => 0,
            };
            match r {
                Some(d) => shifted_date(now as int, hours) == Some(
                    (d.0 as int, d.1 as nat, d.2 as nat),
                ),
                None => shifted_date(now as int, hours) is None,
            }
        }),
{
    let hours = match offset {
        Some(h) => h,
        None => 0,
    };
    date_after(now, hours)
}

} // verus!
