//! Scripts that drive navigation inside the active tab's page.

use vstd::prelude::*;

verus! {

/// Script that goes one step back in the page's history.
pub const BACK_SCRIPT: &'static str = "window.history.back()";

/// Script that goes one step forward in the page's history.
pub const FORWARD_SCRIPT: &'static str = "window.history.forward()";

/// Script that reloads the page.
pub const RELOAD_SCRIPT: &'static str = "window.location.reload()";

/// Start of the script that sends the page to a URL.
pub const NAVIGATE_PREFIX: &'static str = "window.location.href = '";

/// End of the script that sends the page to a URL.
pub const NAVIGATE_SUFFIX: &'static str = "'";

/// `s` with a backslash put before every single quote, so that it stands inside a
/// single-quoted script string.
pub open spec fn escape_quotes(s: Seq<char>) -> Seq<char>
    decreases s.len(),
{
    if s.len() == 0 {
        Seq::empty()
    } else {
        escape_quotes(s.drop_last()) + if s.last() == '\'' {
            seq!['\\', '\'']
        } else {
            seq![s.last()]
        }
    }
}

/// The script that sends the page to `url`.
pub open spec fn navigate_script_of(url: Seq<char>) -> Seq<char> {
    NAVIGATE_PREFIX@ + escape_quotes(url) + NAVIGATE_SUFFIX@
}

/// The script that sends the page to `url`.
pub fn navigate_script(url: &str) -> (r: String)
    ensures
        r@ == navigate_script_of(url@),
{
    let mut out = String::from_str(NAVIGATE_PREFIX);
    let n = url.unicode_len();
    let mut i: usize = 0;
    while i < n
        invariant
            n == url@.len(),
            i <= n,
            out@ == NAVIGATE_PREFIX@ + escape_quotes(url@.subrange(0, i as int)),
        decreases n - i,
    {
        let c = url.get_char(i);
        if c == '\'' {
            out.append("\\'");
        } else {
            out.append(url.substring_char(i, i + 1));
        }
        proof {
            reveal_strlit("\\'");
            let next = url@.subrange(0, i + 1);
            assert(next.drop_last() == url@.subrange(0, i as int));
            assert(next.last() == c);
            if c != '\'' {
                assert(url@.subrange(i as int, i + 1) == seq![c]);
            }
            assert(out@ == NAVIGATE_PREFIX@ + escape_quotes(next));
        }
        i += 1;
    }
    assert(url@.subrange(0, n as int) == url@);
    out.append(NAVIGATE_SUFFIX);
    out
}

} // verus!
