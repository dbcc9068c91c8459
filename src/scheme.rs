use vstd::prelude::*;

verus! {

/// The visual scheme of the application.
#[derive(Debug, Copy, Clone, PartialEq, Eq, Structural)]
pub enum AppScheme {
    /// Base fltk scheming
    Base,
    /// Inspired by the Aqua user interface on Mac OS X
    Plastic,
    /// Inspired by the GTK+ theme
    Gtk,
    /// Inspired by the Clearlooks Glossy scheme
    Gleam,
}

/// The token that the toolkit understands for each scheme.
pub open spec fn scheme_token(scheme: AppScheme) -> Seq<char> {
    match scheme {
        AppScheme::Base => seq!['b', 'a', 's', 'e'],
        AppScheme::Plastic => seq!['p', 'l', 'a', 's', 't', 'i', 'c'],
        AppScheme::Gtk => seq!['g', 't', 'k', '+'],
        AppScheme::Gleam => seq!['g', 'l', 'e', 'a', 'm'],
    }
}

/// Returns the token handed to the toolkit to select `scheme`.
pub fn scheme_name(scheme: AppScheme) -> (r: &'static str)
    ensures
        r@ == scheme_token(scheme),
{
    match scheme {
        AppScheme::Base => {
            proof {
                reveal_strlit("base");
            }
            assert("base"@ =~= scheme_token(scheme));
            "base"
        },
        AppScheme::Plastic => {
            proof {
                reveal_strlit("plastic");
            }
            assert("plastic"@ =~= scheme_token(scheme));
            "plastic"
        },
        AppScheme::Gtk => {
            proof {
                reveal_strlit("gtk+");
            }
            assert("gtk+"@ =~= scheme_token(scheme));
            "gtk+"
        },
        AppScheme::Gleam => {
            proof {
                reveal_strlit("gleam");
            }
            assert("gleam"@ =~= scheme_token(scheme));
            "gleam"
        },
    }
}

/// Every scheme has its own token: two schemes share a token only when they
/// are the same scheme.
pub proof fn lemma_scheme_tokens_distinct(a: AppScheme, b: AppScheme)
    ensures
        (scheme_token(a) == scheme_token(b)) <==> (a == b),
{
    if a != b {
        let (ta, tb) = (scheme_token(a), scheme_token(b));
        assert(ta.len() != tb.len() || ta[0] != tb[0] || ta[1] != tb[1]);
    }
}

} // verus!
