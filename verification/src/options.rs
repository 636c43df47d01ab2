//! Capture modes, destination modes and image formats, with the exact
//! menu-string and keyword mappings used at the UI and provider boundaries.

use vstd::prelude::*;

verus! {

/// Which screen area the capture provider grabs.
#[derive(Clone, Copy, Debug, PartialEq, Eq, Structural)]
pub enum CaptureKind {
    Screen,
    Output,
    Area,
}

/// What the capture provider does with the captured image.
#[derive(Clone, Copy, Debug, PartialEq, Eq, Structural)]
pub enum SaveHow {
    Copy,
    Save,
    Copysave,
    Edit,
}

/// Image file format; selects the file extension.
#[derive(Clone, Copy, Debug, PartialEq, Eq, Structural)]
pub enum ImageFormat {
    Png,
    Jpg,
}

/// Character-wise equality of two string slices.
pub fn str_eq(a: &str, b: &str) -> (r: bool)
    ensures
        r == (a@ == b@),
{
    let alen = a.unicode_len();
    let blen = b.unicode_len();
    if alen != blen {
        assert(a@ != b@);
        return false;
    }
    let mut i: usize = 0;
    while i < alen
        invariant
            alen == a@.len(),
            blen == b@.len(),
            alen == blen,
            i <= alen,
            forall|j: int| 0 <= j < i ==> a@[j] == b@[j],
        decreases alen - i,
    {
        if a.get_char(i) != b.get_char(i) {
            assert(a@[i as int] != b@[i as int]);
            return false;
        }
        i += 1;
    }
    assert(a@ =~= b@);
    true
}

/// Menu string to capture kind: the two named screens map exactly,
/// every other selection falls back to area selection.
pub open spec fn spec_kind_of_choice(s: Seq<char>) -> CaptureKind {
    if s == "Capture Everything"@ {
        CaptureKind::Screen
    } else if s == "Capture Active Display"@ {
        CaptureKind::Output
    } else {
        CaptureKind::Area
    }
}

pub fn kind_of_choice(s: &str) -> (k: CaptureKind)
    ensures
        k == spec_kind_of_choice(s@),
{
    if str_eq(s, "Capture Everything") {
        CaptureKind::Screen
    } else if str_eq(s, "Capture Active Display") {
        CaptureKind::Output
    } else {
        CaptureKind::Area
    }
}

/// Menu string to destination mode: the three named modes map exactly,
/// every other selection falls back to the editor handoff.
pub open spec fn spec_how_of_choice(s: Seq<char>) -> SaveHow {
    if s == "Copy"@ {
        SaveHow::Copy
    } else if s == "Save"@ {
        SaveHow::Save
    } else if s == "Copy & Save"@ {
        SaveHow::Copysave
    } else {
        SaveHow::Edit
    }
}

pub fn how_of_choice(s: &str) -> (h: SaveHow)
    ensures
        h == spec_how_of_choice(s@),
{
    if str_eq(s, "Copy") {
        SaveHow::Copy
    } else if str_eq(s, "Save") {
        SaveHow::Save
    } else if str_eq(s, "Copy & Save") {
        SaveHow::Copysave
    } else {
        SaveHow::Edit
    }
}

/// ASCII lower-casing of a single character; other characters unchanged.
pub open spec fn spec_lower_char(c: char) -> char {
    if 'A' <= c && c <= 'Z' {
        ((c as u32) + 32) as char
    } else {
        c
    }
}

pub open spec fn spec_lower(s: Seq<char>) -> Seq<char> {
    s.map_values(|c: char| spec_lower_char(c))
}

fn lower_char(c: char) -> (r: char)
    ensures
        r == spec_lower_char(c),
{
    if 'A' <= c && c <= 'Z' {
        (((c as u32) + 32) as u8) as char
    } else {
        c
    }
}

/// Format string to image format: `jpg` or `jpeg` in any letter case give
/// the JPEG format, every other string (empty included) gives PNG.
pub open spec fn spec_format_of(s: Seq<char>) -> ImageFormat {
    if spec_lower(s) == "jpg"@ || spec_lower(s) == "jpeg"@ {
        ImageFormat::Jpg
    } else {
        ImageFormat::Png
    }
}

pub fn format_of(s: &str) -> (f: ImageFormat)
    ensures
        f == spec_format_of(s@),
{
    let lowered = lower_str(s);
    if str_eq(lowered.as_str(), "jpg") || str_eq(lowered.as_str(), "jpeg") {
        ImageFormat::Jpg
    } else {
        ImageFormat::Png
    }
}

fn lower_str(s: &str) -> (r: String)
    ensures
        r@ == spec_lower(s@),
{
    let len = s.unicode_len();
    let mut out: Vec<char> = Vec::new();
    let mut i: usize = 0;
    while i < len
        invariant
            len == s@.len(),
            i <= len,
            out@ =~= s@.take(i as int).map_values(|c: char| spec_lower_char(c)),
        decreases len - i,
    {
        out.push(lower_char(s.get_char(i)));
        assert(s@.take(i + 1 as int) =~= s@.take(i as int).push(s@[i as int]));
        i += 1;
    }
    assert(s@.take(len as int) =~= s@);
    crate::chars_to_string(&out)
}

/// The keyword the capture provider expects for a destination mode.
pub open spec fn spec_how_keyword(h: SaveHow) -> Seq<char> {
    match h {
        SaveHow::Copy => "copy"@,
        SaveHow::Save => "save"@,
        SaveHow::Copysave => "copysave"@,
        SaveHow::Edit => "edit"@,
    }
}

pub fn how_keyword(h: SaveHow) -> (r: String)
    ensures
        r@ == spec_how_keyword(h),
{
    match h {
        SaveHow::Copy => String::from_str("copy"),
        SaveHow::Save => String::from_str("save"),
        SaveHow::Copysave => String::from_str("copysave"),
        SaveHow::Edit => String::from_str("edit"),
    }
}

/// The keyword the capture provider expects for a capture kind.
pub open spec fn spec_kind_keyword(k: CaptureKind) -> Seq<char> {
    match k {
        CaptureKind::Screen => "screen"@,
        CaptureKind::Output => "output"@,
        CaptureKind::Area => "area"@,
    }
}

pub fn kind_keyword(k: CaptureKind) -> (r: String)
    ensures
        r@ == spec_kind_keyword(k),
{
    match k {
        CaptureKind::Screen => String::from_str("screen"),
        CaptureKind::Output => String::from_str("output"),
        CaptureKind::Area => String::from_str("area"),
    }
}

/// The file extension of an image format.
pub open spec fn spec_extension(f: ImageFormat) -> Seq<char> {
    match f {
        ImageFormat::Png => "png"@,
        ImageFormat::Jpg => "jpg"@,
    }
}

pub fn extension(f: ImageFormat) -> (r: String)
    ensures
        r@ == spec_extension(f),
{
    match f {
        ImageFormat::Png => String::from_str("png"),
        ImageFormat::Jpg => String::from_str("jpg"),
    }
}

} // verus!
