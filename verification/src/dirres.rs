//! Screenshot directory resolution: explicit override, environment value
//! with home-placeholder substitution, user-dirs configuration entry, or
//! the `Pictures` fallback under the home directory.

use vstd::prelude::*;

verus! {

/// `s` with every `$HOME` token replaced by `home`, scanning left to
/// right over non-overlapping occurrences.
pub open spec fn spec_subst_home(s: Seq<char>, home: Seq<char>) -> Seq<char>
    decreases s.len(),
{
    if s.len() == 0 {
        Seq::empty()
    } else if s.len() >= 5 && s.subrange(0, 5) == "$HOME"@ {
        home + spec_subst_home(s.skip(5), home)
    } else {
        seq![s[0]] + spec_subst_home(s.skip(1), home)
    }
}

pub(crate) fn append_str_chars(out: &mut Vec<char>, s: &str)
    ensures
        final(out)@ == old(out)@ + s@,
{
    let len = s.unicode_len();
    let mut i: usize = 0;
    while i < len
        invariant
            len == s@.len(),
            i <= len,
            out@ =~= old(out)@ + s@.take(i as int),
        decreases len - i,
    {
        out.push(s.get_char(i));
        assert(s@.take(i + 1 as int) =~= s@.take(i as int).push(s@[i as int]));
        i += 1;
    }
    assert(s@.take(len as int) =~= s@);
}

fn is_home_token_at(s: &str, i: usize) -> (r: bool)
    requires
        i + 5 <= s@.len(),
        i + 5 <= usize::MAX,
    ensures
        r == (s@.subrange(i as int, i + 5) == "$HOME"@),
{
    proof {
        reveal_strlit("$HOME");
    }
    let r = s.get_char(i) == '$' && s.get_char(i + 1) == 'H' && s.get_char(i + 2) == 'O'
        && s.get_char(i + 3) == 'M' && s.get_char(i + 4) == 'E';
    proof {
        if r {
            assert(s@.subrange(i as int, i + 5) =~= "$HOME"@);
        } else {
            assert(s@.subrange(i as int, i + 5) != "$HOME"@) by {
                if s@.subrange(i as int, i + 5) == "$HOME"@ {
                    assert(s@[i as int] == "$HOME"@[0]);
                    assert(s@[i + 1] == "$HOME"@[1]);
                    assert(s@[i + 2] == "$HOME"@[2]);
                    assert(s@[i + 3] == "$HOME"@[3]);
                    assert(s@[i + 4] == "$HOME"@[4]);
                }
            }
        }
    }
    r
}

/// `s` with every `$HOME` token replaced by `home`.
pub fn subst_home(s: &str, home: &str) -> (r: String)
    ensures
        r@ == spec_subst_home(s@, home@),
{
    let len = s.unicode_len();
    let mut out: Vec<char> = Vec::new();
    let mut i: usize = 0;
    proof {
        assert(s@.skip(0) =~= s@);
    }
    while i < len
        invariant
            len == s@.len(),
            i <= len,
            spec_subst_home(s@, home@) == out@ + spec_subst_home(s@.skip(i as int), home@),
        decreases len - i,
    {
        if len - i >= 5 && is_home_token_at(s, i) {
            let ghost out0 = out@;
            append_str_chars(&mut out, home);
            proof {
                assert(s@.skip(i as int).subrange(0, 5) =~= s@.subrange(i as int, i + 5));
                assert(s@.skip(i as int).skip(5) =~= s@.skip(i + 5));
                assert(out0 + (home@ + spec_subst_home(s@.skip(i + 5), home@)) =~= (out0
                    + home@) + spec_subst_home(s@.skip(i + 5), home@));
            }
            i += 5;
        } else {
            let ghost out0 = out@;
            out.push(s.get_char(i));
            proof {
                if i + 5 <= len {
                    assert(s@.skip(i as int).subrange(0, 5) =~= s@.subrange(i as int, i + 5));
                } else {
                    assert(s@.skip(i as int).len() < 5);
                }
                assert(s@.skip(i as int)[0] == s@[i as int]);
                assert(s@.skip(i as int).skip(1) =~= s@.skip(i + 1));
                assert(out0 + (seq![s@[i as int]] + spec_subst_home(s@.skip(i + 1), home@))
                    =~= out@ + spec_subst_home(s@.skip(i + 1), home@));
            }
            i += 1;
        }
    }
    proof {
        assert(s@.skip(len as int) =~= Seq::<char>::empty());
        assert(spec_subst_home(Seq::<char>::empty(), home@) == Seq::<char>::empty());
        assert(spec_subst_home(s@, home@) =~= out@);
    }
    crate::chars_to_string(&out)
}

/// The ASCII whitespace characters.
pub open spec fn spec_is_space(c: char) -> bool {
    c == ' ' || c == '\t' || c == '\n' || c == '\u{c}' || c == '\r'
}

fn is_space_char(c: char) -> (r: bool)
    ensures
        r == spec_is_space(c),
{
    c == ' ' || c == '\t' || c == '\n' || c == '\u{c}' || c == '\r'
}

/// The character class a strip pass removes: ASCII whitespace when
/// `space_mode` holds, double quotes otherwise.
pub open spec fn spec_class(c: char, space_mode: bool) -> bool {
    if space_mode {
        spec_is_space(c)
    } else {
        c == '"'
    }
}

/// `s` without its leading characters of the class.
pub open spec fn spec_drop_start(s: Seq<char>, space_mode: bool) -> Seq<char>
    decreases s.len(),
{
    if s.len() == 0 {
        s
    } else if spec_class(s[0], space_mode) {
        spec_drop_start(s.skip(1), space_mode)
    } else {
        s
    }
}

/// `s` without its trailing characters of the class.
pub open spec fn spec_drop_end(s: Seq<char>, space_mode: bool) -> Seq<char>
    decreases s.len(),
{
    if s.len() == 0 {
        s
    } else if spec_class(s[s.len() - 1], space_mode) {
        spec_drop_end(s.take(s.len() - 1), space_mode)
    } else {
        s
    }
}

/// `s` without leading and trailing characters of the class.
pub open spec fn spec_strip(s: Seq<char>, space_mode: bool) -> Seq<char> {
    spec_drop_end(spec_drop_start(s, space_mode), space_mode)
}

/// `s` with ASCII whitespace trimmed from both ends.
pub open spec fn spec_trim(s: Seq<char>) -> Seq<char> {
    spec_strip(s, true)
}

/// `s` with every leading and trailing double quote removed.
pub open spec fn spec_strip_quotes(s: Seq<char>) -> Seq<char> {
    spec_strip(s, false)
}

proof fn lemma_drop_start_skip(s: Seq<char>, space_mode: bool, k: int)
    requires
        0 <= k <= s.len(),
        forall|j: int| 0 <= j < k ==> spec_class(s[j], space_mode),
        k < s.len() ==> !spec_class(s[k], space_mode),
    ensures
        spec_drop_start(s, space_mode) == s.skip(k),
    decreases k,
{
    if k == 0 {
        assert(s.skip(0) =~= s);
    } else {
        assert(spec_class(s[0], space_mode));
        lemma_drop_start_skip(s.skip(1), space_mode, k - 1);
        assert(s.skip(1).skip(k - 1) =~= s.skip(k));
    }
}

proof fn lemma_drop_end_take(s: Seq<char>, space_mode: bool, b: int)
    requires
        0 <= b <= s.len(),
        forall|j: int| b <= j < s.len() ==> spec_class(s[j], space_mode),
        b > 0 ==> !spec_class(s[b - 1], space_mode),
    ensures
        spec_drop_end(s, space_mode) == s.take(b),
    decreases s.len() - b,
{
    if b == s.len() {
        assert(s.take(b) =~= s);
    } else {
        assert(spec_class(s[s.len() - 1], space_mode));
        lemma_drop_end_take(s.take(s.len() - 1), space_mode, b);
        assert(s.take(s.len() - 1).take(b) =~= s.take(b));
    }
}

fn class_match(c: char, space_mode: bool) -> (r: bool)
    ensures
        r == spec_class(c, space_mode),
{
    if space_mode {
        is_space_char(c)
    } else {
        c == '"'
    }
}

fn strip_with(s: &str, space_mode: bool) -> (r: String)
    ensures
        space_mode ==> r@ == spec_trim(s@),
        !space_mode ==> r@ == spec_strip_quotes(s@),
{
    let len = s.unicode_len();
    let mut a: usize = 0;
    while a < len && class_match(s.get_char(a), space_mode)
        invariant
            len == s@.len(),
            a <= len,
            forall|j: int| 0 <= j < a ==> spec_class(s@[j], space_mode),
        decreases len - a,
    {
        a += 1;
    }
    if a == len {
        proof {
            lemma_drop_start_skip(s@, space_mode, a as int);
            assert(s@.skip(len as int) =~= Seq::<char>::empty());
            lemma_drop_end_take(Seq::<char>::empty(), space_mode, 0);
            assert(Seq::<char>::empty().take(0) =~= Seq::<char>::empty());
        }
        let r = String::new();
        assert(r@ =~= Seq::<char>::empty());
        return r;
    }
    let mut b: usize = len;
    while b > a && class_match(s.get_char(b - 1), space_mode)
        invariant
            len == s@.len(),
            a <= b <= len,
            a < len,
            !spec_class(s@[a as int], space_mode),
            forall|j: int| b <= j < len ==> spec_class(s@[j], space_mode),
        decreases b,
    {
        b -= 1;
    }
    proof {
        lemma_drop_start_skip(s@, space_mode, a as int);
        lemma_drop_end_take(s@.skip(a as int), space_mode, b - a);
        assert(b > a);
        assert(!spec_class(s@.skip(a as int)[b - a - 1], space_mode));
        assert(s@.skip(a as int).take(b - a) =~= s@.subrange(a as int, b as int));
    }
    let piece = s.substring_char(a, b);
    piece.to_owned()
}

/// `s` with ASCII whitespace trimmed from both ends.
pub fn trim(s: &str) -> (r: String)
    ensures
        r@ == spec_trim(s@),
{
    strip_with(s, true)
}

/// `s` with every leading and trailing double quote removed.
pub fn strip_quotes(s: &str) -> (r: String)
    ensures
        r@ == spec_strip_quotes(s@),
{
    strip_with(s, false)
}

/// Index of the first newline in `s`, or `s.len()` if there is none.
pub open spec fn spec_first_nl(s: Seq<char>) -> int
    decreases s.len(),
{
    if s.len() == 0 {
        0
    } else if s[0] == '\n' {
        0
    } else {
        1 + spec_first_nl(s.skip(1))
    }
}

pub proof fn lemma_first_nl_bounds(s: Seq<char>)
    ensures
        0 <= spec_first_nl(s) <= s.len(),
        spec_first_nl(s) < s.len() ==> s[spec_first_nl(s)] == '\n',
        forall|j: int| 0 <= j < spec_first_nl(s) ==> s[j] != '\n',
    decreases s.len(),
{
    if s.len() == 0 {
    } else if s[0] == '\n' {
    } else {
        lemma_first_nl_bounds(s.skip(1));
        assert forall|j: int| 0 <= j < spec_first_nl(s) implies s[j] != '\n' by {
            if j > 0 {
                assert(s.skip(1)[j - 1] != '\n');
            }
        }
    }
}

proof fn lemma_first_nl_is(s: Seq<char>, k: int)
    requires
        0 <= k <= s.len(),
        forall|j: int| 0 <= j < k ==> s[j] != '\n',
        k < s.len() ==> s[k] == '\n',
    ensures
        spec_first_nl(s) == k,
    decreases k,
{
    if k == 0 {
    } else {
        lemma_first_nl_is(s.skip(1), k - 1);
    }
}

/// The directory named by the first configuration line with the
/// `XDG_SCREENSHOTS_DIR=` key: the remainder of that line, whitespace
/// trimmed, then surrounding quotes removed. `None` when no line
/// carries the key.
pub open spec fn spec_config_dir(text: Seq<char>) -> Option<Seq<char>>
    decreases text.len(),
    via spec_config_dir_dec
{
    let k = spec_first_nl(text);
    let line = text.take(k);
    if line.len() >= 20 && line.subrange(0, 20) == "XDG_SCREENSHOTS_DIR="@ {
        Some(spec_strip_quotes(spec_trim(line.skip(20))))
    } else if k == text.len() {
        None
    } else {
        spec_config_dir(text.skip(k + 1))
    }
}

#[via_fn]
proof fn spec_config_dir_dec(text: Seq<char>) {
    lemma_first_nl_bounds(text);
}

/// Scan a user-dirs configuration text for the screenshots directory key.
pub fn config_dir(text: &str) -> (r: Option<String>)
    ensures
        r matches Some(v) ==> spec_config_dir(text@) == Some(v@),
        (r is None) ==> spec_config_dir(text@) is None,
{
    let len = text.unicode_len();
    let mut p: usize = 0;
    proof {
        assert(text@.skip(0) =~= text@);
    }
    while p < len
        invariant
            len == text@.len(),
            p <= len,
            spec_config_dir(text@) == spec_config_dir(text@.skip(p as int)),
        decreases len - p,
    {
        let ghost rest = text@.skip(p as int);
        let mut e: usize = p;
        while e < len && text.get_char(e) != '\n'
            invariant
                len == text@.len(),
                p <= e <= len,
                forall|j: int| p <= j < e ==> text@[j] != '\n',
            decreases len - e,
        {
            e += 1;
        }
        proof {
            lemma_first_nl_is(rest, e - p);
            assert(rest.take(e - p) =~= text@.subrange(p as int, e as int));
        }
        let ghost line = rest.take(e - p);
        if e - p >= 20 {
            let prefix = text.substring_char(p, p + 20);
            proof {
                assert(line.subrange(0, 20) =~= text@.subrange(p as int, p + 20));
            }
            if crate::options::str_eq(prefix, "XDG_SCREENSHOTS_DIR=") {
                let rest_of_line = text.substring_char(p + 20, e);
                proof {
                    assert(line.skip(20) =~= text@.subrange(p + 20, e as int));
                }
                let trimmed = trim(rest_of_line);
                let q = strip_quotes(trimmed.as_str());
                return Some(q);
            }
        }
        proof {
            if line.len() >= 20 {
                assert(line.subrange(0, 20) != "XDG_SCREENSHOTS_DIR="@);
            }
        }
        if e == len {
            proof {
                assert(spec_config_dir(rest) is None);
            }
            return None;
        }
        proof {
            assert(rest.skip((e - p) + 1) =~= text@.skip(e + 1));
        }
        p = e + 1;
    }
    proof {
        assert(text@.skip(p as int) =~= Seq::<char>::empty());
        assert(spec_first_nl(Seq::<char>::empty()) == 0);
        assert(spec_config_dir(text@.skip(p as int)) is None);
    }
    None
}

/// `dir` and `name` joined with a single path separator, as a path
/// join inserts one only where `dir` does not already end in one.
pub open spec fn spec_path_join(dir: Seq<char>, name: Seq<char>) -> Seq<char> {
    if dir.len() == 0 {
        name
    } else if dir[dir.len() - 1] == '/' {
        dir + name
    } else {
        dir + "/"@ + name
    }
}

pub fn path_join(dir: &str, name: &str) -> (r: String)
    ensures
        r@ == spec_path_join(dir@, name@),
{
    let dlen = dir.unicode_len();
    if dlen == 0 {
        return name.to_owned();
    }
    let d = dir.to_owned();
    if dir.get_char(dlen - 1) == '/' {
        d.concat(name)
    } else {
        let r = d.concat("/").concat(name);
        proof {
            assert(r@ =~= spec_path_join(dir@, name@));
        }
        r
    }
}

pub open spec fn spec_view_opt(o: Option<&str>) -> Option<Seq<char>> {
    match o {
        Some(s) => Some(s@),
        None => None,
    }
}

/// The screenshots directory taken from the environment value when set,
/// else from the configuration text, each with the `$HOME` placeholder
/// substituted; `None` when neither names one.
pub open spec fn spec_xdg_dir(
    env_val: Option<Seq<char>>,
    config: Option<Seq<char>>,
    home: Seq<char>,
) -> Option<Seq<char>> {
    match env_val {
        Some(p) => Some(spec_subst_home(p, home)),
        None => match config {
            Some(text) => match spec_config_dir(text) {
                Some(raw) => Some(spec_subst_home(raw, home)),
                None => None,
            },
            None => None,
        },
    }
}

/// The environment / configuration tier of directory resolution, over an
/// explicit snapshot of the environment value and the configuration text.
pub fn xdg_screenshots_dir(env_val: Option<&str>, config: Option<&str>, home: &str) -> (r: Option<
    String,
>)
    ensures
        r matches Some(v) ==> spec_xdg_dir(spec_view_opt(env_val), spec_view_opt(config), home@)
            == Some(v@),
        (r is None) ==> spec_xdg_dir(spec_view_opt(env_val), spec_view_opt(config), home@) is None,
{
    match env_val {
        Some(p) => Some(subst_home(p, home)),
        None => match config {
            Some(text) => match config_dir(text) {
                Some(raw) => Some(subst_home(raw.as_str(), home)),
                None => None,
            },
            None => None,
        },
    }
}

/// The fully resolved screenshot directory: the explicit override
/// verbatim when given, else the environment / configuration tier, else
/// `Pictures` under the home directory.
pub open spec fn spec_resolve(
    explicit: Option<Seq<char>>,
    env_val: Option<Seq<char>>,
    config: Option<Seq<char>>,
    home: Seq<char>,
) -> Seq<char> {
    match explicit {
        Some(d) => d,
        None => match spec_xdg_dir(env_val, config, home) {
            Some(p) => p,
            None => spec_path_join(home, "Pictures"@),
        },
    }
}

pub fn resolve_directory(
    explicit: Option<&str>,
    env_val: Option<&str>,
    config: Option<&str>,
    home: &str,
) -> (r: String)
    ensures
        r@ == spec_resolve(
            spec_view_opt(explicit),
            spec_view_opt(env_val),
            spec_view_opt(config),
            home@,
        ),
{
    match explicit {
        Some(d) => d.to_owned(),
        None => match xdg_screenshots_dir(env_val, config, home) {
            Some(p) => p,
            None => path_join(home, "Pictures"),
        },
    }
}

/// The four resolution tiers are strictly ordered: an explicit override
/// wins outright; otherwise a set environment value wins; otherwise a
/// configuration entry wins; otherwise the `Pictures` fallback under the
/// home directory is used.
pub proof fn lemma_resolution_precedence(
    explicit: Option<Seq<char>>,
    env_val: Option<Seq<char>>,
    config: Option<Seq<char>>,
    home: Seq<char>,
)
    ensures
        explicit matches Some(d) ==> spec_resolve(explicit, env_val, config, home) == d,
        explicit is None ==> (env_val matches Some(p) ==> spec_resolve(
            explicit,
            env_val,
            config,
            home,
        ) == spec_subst_home(p, home)),
        explicit is None && env_val is None ==> (config matches Some(t) ==> (spec_config_dir(t)
            matches Some(raw) ==> spec_resolve(explicit, env_val, config, home)
            == spec_subst_home(raw, home))),
        explicit is None && env_val is None && (config is None || (config matches Some(t)
            && spec_config_dir(t) is None)) ==> spec_resolve(explicit, env_val, config, home)
            == spec_path_join(home, "Pictures"@),
{
}

} // verus!
