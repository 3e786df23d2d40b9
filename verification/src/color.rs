//! Color-scheme selection: a pure mapping from the configured name to one
//! of three scheme strings, with an injected random draw for the `random`
//! choice.

use vstd::prelude::*;
use rand::RngExt;
use crate::args::Args;
use crate::text::str_eq;

verus! {

/// The CMYK scheme string.
pub open spec fn cmyk_scheme() -> Seq<char> {
    "bg+:-1,border:#0000ff,pointer:#0bc7e3,prompt:#feaf3c,info:#0000ff,fg:#0000ff,fg+:#0bc7e3,hl:#ff00ff,hl+:#ff00ff"@
}

/// The Outrun scheme string.
pub open spec fn outrun_scheme() -> Seq<char> {
    "bg+:-1,border:#541388,pointer:#ef2b63,prompt:#0bc7e3,info:#541388,fg:#541388,fg+:#ef2b63,hl:#0bc7e3,hl+:#0bc7e3"@
}

/// The Submariner scheme string, also the default.
pub open spec fn submariner_scheme() -> Seq<char> {
    "bg+:-1,border:#1d485f,pointer:#0bc7e3,prompt:#db662d,info:#1d485f,fg:#1d485f,fg+:#0bc7e3,hl:#db662d,hl+:#db662d"@
}

/// Whether the name picks a scheme at random.
pub open spec fn asks_random(color: Seq<char>) -> bool {
    color == "random"@ || color == "r"@
}

/// Relies on rand::rng and rand::RngExt::random_range: a draw from the
/// non-empty range `0..n` lies in that range, so the result is below `n`.
#[verifier::external_body]
fn random_below(n: usize) -> (r: usize)
    requires
        1 <= n,
    ensures
        r < n,
{
    rand::rng().random_range(0..n)
}

/// The scheme string for the configured color name: each scheme by its
/// full name or its first letter, one of the three schemes for a random
/// choice, and Submariner for anything else.
pub fn colorscheme(args: &Args) -> (r: &'static str)
    ensures
        args.color@ == "cmyk"@ || args.color@ == "c"@ ==> r@ == cmyk_scheme(),
        args.color@ == "outrun"@ || args.color@ == "o"@ ==> r@ == outrun_scheme(),
        args.color@ == "submariner"@ || args.color@ == "s"@ ==> r@ == submariner_scheme(),
        asks_random(args.color@) ==> r@ == cmyk_scheme() || r@ == outrun_scheme() || r@
            == submariner_scheme(),
        !(args.color@ == "cmyk"@ || args.color@ == "c"@ || args.color@ == "outrun"@ || args.color@
            == "o"@ || args.color@ == "submariner"@ || args.color@ == "s"@ || asks_random(
            args.color@,
        )) ==> r@ == submariner_scheme(),
{
    proof {
        reveal_strlit("cmyk");
        reveal_strlit("c");
        reveal_strlit("outrun");
        reveal_strlit("o");
        reveal_strlit("submariner");
        reveal_strlit("s");
        reveal_strlit("random");
        reveal_strlit("r");
    }
    let c = args.color.as_str();
    proof {
        assert("cmyk"@.len() == 4 && "c"@.len() == 1 && "outrun"@.len() == 6 && "o"@.len() == 1
            && "submariner"@.len() == 10 && "s"@.len() == 1 && "random"@.len() == 6 && "r"@.len()
            == 1);
        assert("c"@[0] == 'c' && "o"@[0] == 'o' && "s"@[0] == 's' && "r"@[0] == 'r');
        assert("outrun"@[0] == 'o' && "random"@[0] == 'r');
    }
    if str_eq(c, "cmyk") || str_eq(c, "c") {
        "bg+:-1,border:#0000ff,pointer:#0bc7e3,prompt:#feaf3c,info:#0000ff,fg:#0000ff,fg+:#0bc7e3,hl:#ff00ff,hl+:#ff00ff"
    } else if str_eq(c, "outrun") || str_eq(c, "o") {
        "bg+:-1,border:#541388,pointer:#ef2b63,prompt:#0bc7e3,info:#541388,fg:#541388,fg+:#ef2b63,hl:#0bc7e3,hl+:#0bc7e3"
    } else if str_eq(c, "submariner") || str_eq(c, "s") {
        "bg+:-1,border:#1d485f,pointer:#0bc7e3,prompt:#db662d,info:#1d485f,fg:#1d485f,fg+:#0bc7e3,hl:#db662d,hl+:#db662d"
    } else if str_eq(c, "random") || str_eq(c, "r") {
        let i = random_below(3);
        if i == 0 {
            "bg+:-1,border:#0000ff,pointer:#0bc7e3,prompt:#feaf3c,info:#0000ff,fg:#0000ff,fg+:#0bc7e3,hl:#ff00ff,hl+:#ff00ff"
        } else if i == 1 {
            "bg+:-1,border:#541388,pointer:#ef2b63,prompt:#0bc7e3,info:#541388,fg:#541388,fg+:#ef2b63,hl:#0bc7e3,hl+:#0bc7e3"
        } else {
            "bg+:-1,border:#1d485f,pointer:#0bc7e3,prompt:#db662d,info:#1d485f,fg:#1d485f,fg+:#0bc7e3,hl:#db662d,hl+:#db662d"
        }
    } else {
        "bg+:-1,border:#1d485f,pointer:#0bc7e3,prompt:#db662d,info:#1d485f,fg:#1d485f,fg+:#0bc7e3,hl:#db662d,hl+:#db662d"
    }
}

} // verus!
