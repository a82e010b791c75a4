//! Helpers not directly tied to the audit rules: tilde expansion of paths
//! and parsing of the color-mode setting.

use crate::text::{has_prefix, starts_with_str, str_eq_str, suffix_from};
use vstd::prelude::*;

verus! {

/// What tilde expansion yields: a leading `~/` is replaced by the home
/// directory (keeping the separator); any other string is unchanged.
pub open spec fn expand_spec(p: Seq<char>, home: Seq<char>) -> Seq<char> {
    if p.len() >= 2 && p[0] == '~' && p[1] == '/' {
        home + p.skip(1)
    } else {
        p
    }
}

/// Performs a tilde expansion.
///
/// If `path` starts with `~/`, that prefix is replaced by `home` followed
/// by the original separator; otherwise the path is returned unchanged.
pub fn expand_tilde(path: &str, home: &str) -> (r: String)
    ensures
        r@ == expand_spec(path@, home@),
{
    expand_tilde_impl(path, home)
}

/// The worker behind [`expand_tilde`].
pub fn expand_tilde_impl(path: &str, home: &str) -> (r: String)
    ensures
        r@ == expand_spec(path@, home@),
{
    if starts_with_str(path, "~/") {
        proof {
            reveal_strlit("~/");
            assert(path@.subrange(0, 2)[0] == '~');
            assert(path@.subrange(0, 2)[1] == '/');
            assert(path@[0] == '~' && path@[1] == '/');
        }
        let rest = suffix_from(path, 1);
        let expanded = home.to_owned().concat(rest);
        expanded
    } else {
        proof {
            reveal_strlit("~/");
            if path@.len() >= 2 && path@[0] == '~' && path@[1] == '/' {
                assert(path@.subrange(0, 2) =~= "~/"@);
            }
        }
        path.to_owned()
    }
}

/// When colored output is wanted: always, always with ANSI escapes, only
/// on a terminal, or never.
#[derive(Debug, Clone, Copy, PartialEq, Eq, Structural)]
pub enum ColorChoice {
    Always,
    AlwaysAnsi,
    Auto,
    Never,
}

/// A color-mode setting that is none of the accepted words.
#[derive(Debug, Clone)]
pub struct InvalidColorChoice {
    pub input: String,
}

impl InvalidColorChoice {
    /// A human-readable description of the error.
    pub fn message(&self) -> (r: String)
        ensures
            r@ == "Invalid color choice '"@ + self.input@
                + "'. Valid choices are 'always', 'ansi', 'auto' and 'never'."@,
    {
        let mut r = "Invalid color choice '".to_owned();
        r.append(self.input.as_str());
        r.append("'. Valid choices are 'always', 'ansi', 'auto' and 'never'.");
        r
    }
}

/// Parses a `--color` setting. `auto` resolves to colored output exactly
/// when standard output is a terminal, which the caller reports in
/// `stdout_is_tty`.
pub fn parse_color_choice(color_choice: &str, stdout_is_tty: bool) -> (r: Result<
    ColorChoice,
    InvalidColorChoice,
>)
    ensures
        color_choice@ == "always"@ ==> r == Ok::<ColorChoice, InvalidColorChoice>(
            ColorChoice::Always,
        ),
        color_choice@ == "ansi"@ ==> r == Ok::<ColorChoice, InvalidColorChoice>(
            ColorChoice::AlwaysAnsi,
        ),
        color_choice@ == "auto"@ && stdout_is_tty ==> r == Ok::<ColorChoice, InvalidColorChoice>(
            ColorChoice::Auto,
        ),
        color_choice@ == "auto"@ && !stdout_is_tty ==> r == Ok::<ColorChoice, InvalidColorChoice>(
            ColorChoice::Never,
        ),
        color_choice@ == "never"@ ==> r == Ok::<ColorChoice, InvalidColorChoice>(
            ColorChoice::Never,
        ),
        r matches Err(e) ==> e.input@ == color_choice@,
        (r matches Err(_)) <==> !(color_choice@ == "always"@ || color_choice@ == "ansi"@
            || color_choice@ == "auto"@ || color_choice@ == "never"@),
{
    proof {
        reveal_strlit("always");
        reveal_strlit("ansi");
        reveal_strlit("auto");
        reveal_strlit("never");
        assert("always"@.len() == 6);
        assert("ansi"@.len() == 4);
        assert("auto"@.len() == 4);
        assert("never"@.len() == 5);
        assert("ansi"@[1] == 'n');
        assert("auto"@[1] == 'u');
    }
    if str_eq_str(color_choice, "always") {
        Ok(ColorChoice::Always)
    } else if str_eq_str(color_choice, "ansi") {
        Ok(ColorChoice::AlwaysAnsi)
    } else if str_eq_str(color_choice, "auto") {
        if stdout_is_tty {
            Ok(ColorChoice::Auto)
        } else {
            Ok(ColorChoice::Never)
        }
    } else if str_eq_str(color_choice, "never") {
        Ok(ColorChoice::Never)
    } else {
        Err(InvalidColorChoice { input: color_choice.to_owned() })
    }
}

} // verus!
