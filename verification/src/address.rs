//! Addresses: from what the user typed to a URL that a page can be opened on.
use crate::error::{LauncherError, LauncherErrorView};
use crate::text::{chars_of, has_bare_ends, join, lemma_bare_ends_trimmed,
    lemma_trimmed_has_bare_ends, trim, trimmed};
use vstd::prelude::*;
use vstd::string::*;

verus! {

/// The address of the local web service, selected until the user picks another.
pub const DSH_URL: &'static str = "http://127.0.0.1:3080";

/// The letters `a` to `z`, in either case.
pub open spec fn is_letter(c: char) -> bool {
    'a' <= c <= 'z' || 'A' <= c <= 'Z'
}

/// The characters that a scheme is made of.
pub open spec fn is_scheme_char(c: char) -> bool {
    is_letter(c) || '0' <= c <= '9' || c == '+' || c == '-' || c == '.'
}

/// How many characters of `text`, from its start on, a scheme can be made of.
pub open spec fn scheme_length(text: Seq<char>) -> nat
    decreases text.len(),
{
    if text.len() > 0 && is_scheme_char(text[0]) {
        1 + scheme_length(text.drop_first())
    } else {
        0
    }
}

/// `text` begins with a scheme and `://`. A scheme begins with a letter.
pub open spec fn has_scheme(text: Seq<char>) -> bool {
    &&& scheme_length(text) > 0
    &&& is_letter(text[0])
    &&& "://"@.is_prefix_of(text.skip(scheme_length(text) as int))
}

/// `c`, with the letters `A` to `Z` in lower case.
pub open spec fn lower_case(c: char) -> char {
    if 'A' <= c <= 'Z' {
        (c as u32 + 32) as char
    } else {
        c
    }
}

/// The scheme that `text` begins with, in lower case.
pub open spec fn declared_scheme(text: Seq<char>) -> Seq<char>
    recommends
        has_scheme(text),
{
    text.take(scheme_length(text) as int).map_values(|c: char| lower_case(c))
}

/// The navigable form of what the user typed.
pub open spec fn normalized(input: Seq<char>) -> Seq<char> {
    if has_scheme(trimmed(input)) {
        trimmed(input)
    } else {
        "http://"@ + trimmed(input)
    }
}

/// Whether `c` is one of the letters `a` to `z`, in either case.
fn letter(c: char) -> (yes: bool)
    ensures
        yes == is_letter(c),
{
    ('a' <= c && c <= 'z') || ('A' <= c && c <= 'Z')
}

/// Whether a scheme can hold `c`.
fn scheme_char(c: char) -> (yes: bool)
    ensures
        yes == is_scheme_char(c),
{
    letter(c) || ('0' <= c && c <= '9') || c == '+' || c == '-' || c == '.'
}

/// Whether `text` begins with a scheme and `://`.
pub fn begins_with_scheme(text: &str) -> (found: bool)
    ensures
        found == has_scheme(text@),
{
    let chars: Vec<char> = chars_of(text);
    let total: usize = chars.len();
    let mut n: usize = 0;
    assert(text@.skip(0) =~= text@);
    while n < total && scheme_char(chars[n])
        invariant
            chars@ == text@,
            total == text@.len(),
            n <= total,
            scheme_length(text@) == n + scheme_length(text@.skip(n as int)),
        decreases total - n,
    {
        assert(text@.skip(n as int).drop_first() =~= text@.skip(n + 1));
        n = n + 1;
    }
    assert(scheme_length(text@) == n);
    proof {
        reveal_strlit("://");
    }
    let ghost rest = text@.skip(n as int);
    if n == 0 || !letter(chars[0]) || total - n < 3 {
        return false;
    }
    assert("://"@.is_prefix_of(rest) <==> rest[0] == ':' && rest[1] == '/' && rest[2] == '/') by {
        let head = rest.subrange(0, 3);
        assert(head[0] == rest[0] && head[1] == rest[1] && head[2] == rest[2]);
        assert(head == "://"@ <==> head[0] == ':' && head[1] == '/' && head[2] == '/') by {
            if head[0] == ':' && head[1] == '/' && head[2] == '/' {
                assert(head =~= "://"@);
            }
        }
    }
    chars[n] == ':' && chars[n + 1] == '/' && chars[n + 2] == '/'
}

/// Puts `http://` in front of an address that has no scheme, so that `127.0.0.1:3080` can be
/// opened. A scheme that is there is kept.
pub fn normalize_url(input: &str) -> (url: String)
    ensures
        url@ == normalized(input@),
{
    let bare: String = trim(input);
    if begins_with_scheme(bare.as_str()) {
        bare
    } else {
        join("http://", bare.as_str())
    }
}

/// What `url::Url::parse` makes of a text: the scheme of the URL, or the message of the error.
pub uninterp spec fn url_scheme(text: Seq<char>) -> Result<Seq<char>, Seq<char>>;

/// The contents of a parser's answer.
pub open spec fn parsed_view(parsed: Result<String, String>) -> Result<Seq<char>, Seq<char>> {
    match parsed {
        Ok(scheme) => Ok(scheme@),
        Err(message) => Err(message@),
    }
}

/// Calls `url::Url::parse` and reads the scheme of the URL, or the text of the error.
///
/// Claims that the answer is a function of the text, and that a URL parsed from text that begins
/// with a scheme and `://` has that scheme, in lower case. Which texts are parsed, and what the
/// errors read, is left to the name.
#[verifier::external_body]
pub(crate) fn parse_url(text: &str) -> (parsed: Result<String, String>)
    ensures
        parsed_view(parsed) == url_scheme(text@),
        parsed is Ok && has_scheme(text@) ==> parsed->Ok_0@ == declared_scheme(text@),
{
    match url::Url::parse(text) {
        Ok(url) => Ok(url.scheme().to_string()),
        Err(error) => Err(error.to_string()),
    }
}

/// The schemes of addresses that can be opened.
pub open spec fn is_web_scheme(scheme: Seq<char>) -> bool {
    scheme == "http"@ || scheme == "https"@
}

/// Why an address is refused, given the parser's answer; `None` if it is accepted.
pub open spec fn refusal(parsed: Result<Seq<char>, Seq<char>>) -> Option<LauncherErrorView> {
    match parsed {
        Err(message) => Some(LauncherErrorView::BadAddress(message)),
        Ok(scheme) => if is_web_scheme(scheme) {
            None
        } else {
            Some(LauncherErrorView::UnsupportedScheme)
        },
    }
}

/// Whether an address can be opened, given what the URL parser made of it.
pub fn check_parsed(parsed: Result<String, String>) -> (checked: Result<(), LauncherError>)
    ensures
        match checked {
            Ok(_) => refusal(parsed_view(parsed)) is None,
            Err(error) => refusal(parsed_view(parsed)) == Some(error@),
        },
{
    match parsed {
        Err(message) => Err(LauncherError::BadAddress(message)),
        Ok(scheme) => if scheme == "http".to_owned() || scheme == "https".to_owned() {
            Ok(())
        } else {
            Err(LauncherError::UnsupportedScheme)
        },
    }
}

/// The characters of a scheme end where the first other character stands.
pub proof fn lemma_scheme_length(text: Seq<char>, n: nat)
    requires
        n <= text.len(),
        forall|i: int| 0 <= i < n ==> is_scheme_char(#[trigger] text[i]),
        n < text.len() ==> !is_scheme_char(text[n as int]),
    ensures
        scheme_length(text) == n,
    decreases n,
{
    if n > 0 {
        let rest = text.drop_first();
        assert forall|i: int| 0 <= i < n - 1 implies is_scheme_char(#[trigger] rest[i]) by {
            assert(rest[i] == text[i + 1]);
        }
        assert(is_scheme_char(text[0]));
        lemma_scheme_length(rest, (n - 1) as nat);
    }
}

/// Text behind `http://` has a scheme: http.
proof fn lemma_http_scheme(rest: Seq<char>)
    ensures
        has_scheme("http://"@ + rest),
        declared_scheme("http://"@ + rest) == "http"@,
{
    let text = "http://"@ + rest;
    reveal_strlit("http://");
    reveal_strlit("http");
    reveal_strlit("://");
    lemma_scheme_length(text, 4);
    assert(text.skip(4).subrange(0, 3) =~= "://"@);
    assert(declared_scheme(text) =~= "http"@);
}

/// A normalized address has a scheme: the one that the user typed, which is kept as it is, else
/// http.
pub proof fn law_normalized_has_scheme(input: Seq<char>)
    ensures
        has_scheme(normalized(input)),
        has_scheme(trimmed(input)) ==> normalized(input) == trimmed(input),
        !has_scheme(trimmed(input)) ==> declared_scheme(normalized(input)) == "http"@,
        !has_scheme(trimmed(input)) ==> normalized(input) == "http://"@ + trimmed(input),
{
    if !has_scheme(trimmed(input)) {
        lemma_http_scheme(trimmed(input));
    }
}

/// The characters of a scheme: `a` to `z` in either case, `0` to `9`, `+`, `-` and `.`. Lower case
/// changes only the letters `A` to `Z`, each to the one that stands thirty-two code points on.
pub proof fn law_scheme_characters(c: char)
    ensures
        is_letter(c) <==> 0x61 <= c as int <= 0x7a || 0x41 <= c as int <= 0x5a,
        is_scheme_char(c) <==> is_letter(c) || 0x30 <= c as int <= 0x39 || c as int == 0x2b
            || c as int == 0x2d || c as int == 0x2e,
        lower_case(c) as int == (if 0x41 <= c as int <= 0x5a {
            c as int + 32
        } else {
            c as int
        }),
{
}

/// Whatever stands before `://` is a scheme where it begins with a letter and is made of the
/// characters of a scheme; it is then the declared scheme, in lower case, whatever follows.
pub proof fn law_scheme_is_recognized(scheme: Seq<char>, rest: Seq<char>)
    requires
        scheme.len() > 0,
        is_letter(scheme[0]),
        forall|i: int| 0 <= i < scheme.len() ==> is_scheme_char(#[trigger] scheme[i]),
    ensures
        has_scheme(scheme + "://"@ + rest),
        declared_scheme(scheme + "://"@ + rest).len() == scheme.len(),
        forall|i: int|
            0 <= i < scheme.len() ==> #[trigger] declared_scheme(scheme + "://"@ + rest)[i]
                == lower_case(scheme[i]),
{
    let text = scheme + "://"@ + rest;
    let n = scheme.len();
    reveal_strlit("://");
    assert forall|i: int| 0 <= i < n implies is_scheme_char(#[trigger] text[i]) by {
        assert(text[i] == scheme[i]);
    }
    assert(text[n as int] == ':');
    lemma_scheme_length(text, n);
    assert(text.skip(n as int).subrange(0, 3) =~= "://"@);
}

/// Text that has a scheme begins with it: a letter first, then characters of a scheme up to `://`.
pub proof fn law_scheme_is_there(text: Seq<char>)
    requires
        has_scheme(text),
    ensures
        exists|n: int|
            0 < n && n + 3 <= text.len() && is_letter(text[0]) && #[trigger] text.subrange(n, n + 3)
                == "://"@ && (forall|i: int| 0 <= i < n ==> is_scheme_char(#[trigger] text[i])),
{
    let n = scheme_length(text) as int;
    lemma_scheme_run(text);
    reveal_strlit("://");
    assert(text.subrange(n, n + 3) =~= text.skip(n).subrange(0, 3));
}

proof fn lemma_scheme_run(text: Seq<char>)
    ensures
        scheme_length(text) <= text.len(),
        forall|i: int| 0 <= i < scheme_length(text) ==> is_scheme_char(#[trigger] text[i]),
    decreases text.len(),
{
    if text.len() > 0 && is_scheme_char(text[0]) {
        let rest = text.drop_first();
        lemma_scheme_run(rest);
        assert forall|i: int| 0 <= i < scheme_length(text) implies is_scheme_char(
            #[trigger] text[i],
        ) by {
            if i > 0 {
                assert(rest[i - 1] == text[i]);
            }
        }
    }
}

/// A normalized address has no white space at either end.
pub proof fn law_normalized_has_bare_ends(input: Seq<char>)
    ensures
        has_bare_ends(normalized(input)),
{
    let bare = trimmed(input);
    lemma_trimmed_has_bare_ends(input);
    reveal_strlit("http://");
    if !has_scheme(bare) {
        let url = "http://"@ + bare;
        assert(url[0] == 'h');
        if bare.len() > 0 {
            assert(url.last() == bare.last());
        } else {
            assert(url.last() == '/');
        }
    }
}

/// Normalizing twice is normalizing once.
pub proof fn law_normalize_is_idempotent(input: Seq<char>)
    ensures
        normalized(normalized(input)) == normalized(input),
{
    law_normalized_has_scheme(input);
    law_normalized_has_bare_ends(input);
    lemma_bare_ends_trimmed(normalized(input));
}

/// White space around an address makes no difference.
pub proof fn law_normalize_ignores_outer_space(input: Seq<char>)
    ensures
        normalized(trimmed(input)) == normalized(input),
{
    lemma_trimmed_has_bare_ends(input);
    lemma_bare_ends_trimmed(trimmed(input));
}

} // verus!
