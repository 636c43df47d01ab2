//! The compute side of a menu prompt: the selection UI's argument list
//! and the newline-joined option input, order preserved.

use vstd::prelude::*;

verus! {

/// Options joined by single newlines, in the given (display) order.
pub open spec fn spec_join_nl(opts: Seq<Seq<char>>) -> Seq<char>
    decreases opts.len(),
{
    if opts.len() == 0 {
        Seq::empty()
    } else if opts.len() == 1 {
        opts[0]
    } else {
        opts[0] + seq!['\n'] + spec_join_nl(opts.skip(1))
    }
}

proof fn lemma_join_snoc(opts: Seq<Seq<char>>, y: Seq<char>)
    requires
        opts.len() >= 1,
    ensures
        spec_join_nl(opts.push(y)) == spec_join_nl(opts) + seq!['\n'] + y,
    decreases opts.len(),
{
    if opts.len() == 1 {
        assert(opts.push(y)[0] == opts[0]);
        assert(opts.push(y).skip(1) =~= seq![y]);
        assert(spec_join_nl(seq![y]) == y);
        assert(spec_join_nl(opts.push(y)) =~= spec_join_nl(opts) + seq!['\n'] + y);
    } else {
        lemma_join_snoc(opts.skip(1), y);
        assert(opts.push(y)[0] == opts[0]);
        assert(opts.push(y).skip(1) =~= opts.skip(1).push(y));
        assert(opts[0] + seq!['\n'] + (spec_join_nl(opts.skip(1)) + seq!['\n'] + y) =~= (opts[0]
            + seq!['\n'] + spec_join_nl(opts.skip(1))) + seq!['\n'] + y);
    }
}

/// The options fed to the selection UI's standard input: newline-joined,
/// in the given order.
pub fn menu_input(options: &Vec<String>) -> (r: String)
    ensures
        r@ == spec_join_nl(options@.map_values(|s: String| s@)),
{
    let ghost m = options@.map_values(|s: String| s@);
    let n = options.len();
    let mut out: Vec<char> = Vec::new();
    let mut i: usize = 0;
    while i < n
        invariant
            n == options@.len(),
            m == options@.map_values(|s: String| s@),
            i <= n,
            out@ == spec_join_nl(m.take(i as int)),
        decreases n - i,
    {
        let ghost out0 = out@;
        if i > 0 {
            out.push('\n');
        }
        crate::dirres::append_str_chars(&mut out, options[i].as_str());
        proof {
            assert(m[i as int] == options@[i as int]@);
            if i == 0 {
                assert(m.take(1) =~= seq![m[0]]);
                assert(spec_join_nl(seq![m[0]]) == m[0]);
                assert(out@ =~= m[0]);
            } else {
                lemma_join_snoc(m.take(i as int), m[i as int]);
                assert(m.take(i + 1) =~= m.take(i as int).push(m[i as int]));
                assert(out@ =~= out0 + seq!['\n'] + m[i as int]);
                assert(out@ =~= spec_join_nl(m.take(i + 1)));
            }
        }
        i += 1;
    }
    proof {
        assert(m.take(n as int) =~= m);
    }
    crate::chars_to_string(&out)
}

/// The selection UI's argument list: a case-insensitive single-select
/// menu with no icons, the prompt title, and the optional configuration
/// path passed through.
pub fn menu_args(prompt: &str, cfg: Option<&str>) -> (r: Vec<String>)
    ensures
        cfg is Some ==> r@.len() == 7,
        cfg is None ==> r@.len() == 5,
        r@[0]@ == "-dmenu"@,
        r@[1]@ == "-i"@,
        r@[2]@ == "-no-show-icons"@,
        r@[3]@ == "-p"@,
        r@[4]@ == prompt@,
        cfg matches Some(c) ==> r@[5]@ == "-config"@ && r@[6]@ == c@,
{
    let mut r: Vec<String> = Vec::new();
    r.push(String::from_str("-dmenu"));
    r.push(String::from_str("-i"));
    r.push(String::from_str("-no-show-icons"));
    r.push(String::from_str("-p"));
    r.push(prompt.to_owned());
    if let Some(c) = cfg {
        r.push(String::from_str("-config"));
        r.push(c.to_owned());
    }
    r
}

} // verus!
