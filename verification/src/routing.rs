//! The base path under which the router serves the pages.

use vstd::prelude::*;
use vstd::string::*;
use crate::text::{is_prefix, is_suffix, str_eq, str_ends_with, str_starts_with};

verus! {

/// `s` without the characters `c` at its end.
pub open spec fn trim_end_char(s: Seq<char>, c: char) -> Seq<char>
    decreases s.len(),
{
    if s.len() > 0 && s.last() == c {
        trim_end_char(s.drop_last(), c)
    } else {
        s
    }
}

/// The base path that the document's base URI path gives the router.
///
/// A path under `/html/` is completed with `index.html`; the root gives the
/// empty base; otherwise the path starts with one `/` and loses the `/`s at
/// its end.
pub open spec fn router_base(uri: Seq<char>) -> Seq<char> {
    let completed = if is_prefix("/html/"@, uri) && !is_suffix("index.html"@, uri) {
        (if uri.len() > 0 && uri.last() == '/' {
            uri
        } else {
            uri.push('/')
        }) + "index.html"@
    } else {
        uri
    };
    if completed == "/"@ {
        Seq::empty()
    } else {
        let rooted = if completed.len() > 0 && completed[0] == '/' {
            completed
        } else {
            seq!['/'] + completed
        };
        trim_end_char(rooted, '/')
    }
}

/// The path of the URL that `input` spells (`url::Url::parse`, then
/// `Url::path`), or `None` where `input` is no valid URL.
pub uninterp spec fn url_path_of(input: Seq<char>) -> Option<Seq<char>>;

/// Parses `input` as a URL (`url::Url::parse`) and gives its path
/// (`Url::path`); a parse error gives `None`. The result is what
/// `url_path_of` names.
#[verifier::external_body]
fn parse_url_path(input: &str) -> (path: Option<String>)
    ensures
        match path {
            Some(p) => url_path_of(input@) == Some(p@),
            None => url_path_of(input@) is None,
        },
{
    match url::Url::parse(input) {
        Ok(u) => Some(u.path().to_string()),
        Err(_) => None,
    }
}

proof fn lemma_trim_prefix(s: Seq<char>, k: int)
    requires
        0 < k <= s.len(),
        s[k - 1] == '/',
    ensures
        trim_end_char(s.subrange(0, k), '/') == trim_end_char(s.subrange(0, k - 1), '/'),
{
    assert(s.subrange(0, k).drop_last() =~= s.subrange(0, k - 1));
}

/// `s` without the `/`s at its end.
pub fn trim_end_slashes(s: &str) -> (r: String)
    ensures
        r@ == trim_end_char(s@, '/'),
{
    let n = s.unicode_len();
    let mut k: usize = n;
    assert(s@.subrange(0, n as int) =~= s@);
    while k > 0 && s.get_char(k - 1) == '/'
        invariant
            k <= n,
            n == s@.len(),
            trim_end_char(s@, '/') == trim_end_char(s@.subrange(0, k as int), '/'),
        decreases k,
    {
        proof {
            lemma_trim_prefix(s@, k as int);
        }
        k = k - 1;
    }
    let r = String::from_str(s.substring_char(0, k));
    r
}

/// The router's base path for the document's base URI path.
pub fn router_base_from_base_uri(base_uri: String) -> (base: String)
    ensures
        base@ == router_base(base_uri@),
{
    proof {
        reveal_strlit("/");
    }
    let mut uri = base_uri;
    let ghost given = base_uri@;
    if str_starts_with(uri.as_str(), "/html/") && !str_ends_with(uri.as_str(), "index.html") {
        let ends_with_slash = str_ends_with(uri.as_str(), "/");
        assert(ends_with_slash == (given.len() > 0 && given.last() == '/')) by {
            reveal_strlit("/");
            assert("/"@ =~= seq!['/']);
            assert(uri@ == given);
            if given.len() > 0 {
                let tail = given.subrange(given.len() - 1, given.len() as int);
                assert(tail[0] == given.last());
                if given.last() == '/' {
                    assert(tail =~= "/"@);
                } else {
                    assert(tail[0] != "/"@[0]);
                }
            }
        }
        if !ends_with_slash {
            uri.append("/");
            assert(uri@ =~= given.push('/'));
        }
        uri.append("index.html");
    }
    assert(uri@ == if is_prefix("/html/"@, given) && !is_suffix("index.html"@, given) {
        (if given.len() > 0 && given.last() == '/' {
            given
        } else {
            given.push('/')
        }) + "index.html"@
    } else {
        given
    });
    if str_eq(uri.as_str(), "/") {
        return String::new();
    }
    if uri.as_str().unicode_len() > 0 && uri.as_str().get_char(0) == '/' {
        trim_end_slashes(uri.as_str())
    } else {
        let mut rooted = String::from_str("/");
        rooted.append(uri.as_str());
        assert(rooted@ =~= seq!['/'] + uri@);
        trim_end_slashes(rooted.as_str())
    }
}

/// The router's base for the document's base address: the path of that
/// address (nothing where the page has no base address or it does not
/// parse as a URL), as `router_base` completes it.
pub fn router_base_from_document(document_base_uri: Option<&str>) -> (base: String)
    ensures
        base@ == router_base(
            match document_base_uri {
                Some(b) => match url_path_of(b@) {
                    Some(p) => p,
                    None => Seq::<char>::empty(),
                },
                None => Seq::<char>::empty(),
            },
        ),
{
    let path = match document_base_uri {
        Some(b) => match parse_url_path(b) {
            Some(p) => p,
            None => String::new(),
        },
        None => String::new(),
    };
    router_base_from_base_uri(path)
}

/// `s` with its end trimmed is a beginning of `s` that does not end with `c`.
proof fn lemma_trim_shape(s: Seq<char>, c: char)
    ensures
        trim_end_char(s, c).len() <= s.len(),
        trim_end_char(s, c) == s.subrange(0, trim_end_char(s, c).len() as int),
        trim_end_char(s, c).len() == 0 || trim_end_char(s, c).last() != c,
    decreases s.len(),
{
    if s.len() > 0 && s.last() == c {
        lemma_trim_shape(s.drop_last(), c);
        let t = trim_end_char(s, c);
        assert(t == trim_end_char(s.drop_last(), c));
        assert(s.drop_last().subrange(0, t.len() as int) =~= s.subrange(0, t.len() as int));
    } else {
        assert(s.subrange(0, s.len() as int) =~= s);
    }
}

/// The router's base is empty or starts with one `/` and does not end with
/// `/`; and taken again from a base that is empty or starts with `/`, it is
/// the same.
pub proof fn law_router_base_shape_and_idempotence(s: Seq<char>)
    ensures
        router_base(s).len() == 0 || (router_base(s)[0] == '/' && router_base(s).last() != '/'),
        (s.len() == 0 || s[0] == '/') ==> router_base(router_base(s)) == router_base(s),
{
    reveal_strlit("/html/");
    reveal_strlit("index.html");
    reveal_strlit("/");
    let completed = if is_prefix("/html/"@, s) && !is_suffix("index.html"@, s) {
        (if s.len() > 0 && s.last() == '/' {
            s
        } else {
            s.push('/')
        }) + "index.html"@
    } else {
        s
    };
    let rooted = if completed.len() > 0 && completed[0] == '/' {
        completed
    } else {
        seq!['/'] + completed
    };
    let r = router_base(s);
    lemma_trim_shape(rooted, '/');
    if completed != "/"@ {
        assert(r == trim_end_char(rooted, '/'));
        if r.len() > 0 {
            assert(r[0] == rooted.subrange(0, r.len() as int)[0]);
        }
    }
    if s.len() == 0 || s[0] == '/' {
        if r.len() == 0 {
            let one = seq!['/'] + r;
            assert(one =~= seq!['/']);
            assert(!is_prefix("/html/"@, r));
            assert(r != "/"@);
            assert(router_base(r) == trim_end_char(one, '/'));
            assert(one.drop_last() =~= Seq::<char>::empty());
            assert(trim_end_char(one.drop_last(), '/') =~= Seq::<char>::empty());
            assert(router_base(r) =~= Seq::<char>::empty());
        } else {
            // `r` needs no completion: where it starts with `/html/`, it ends
            // with `index.html`.
            if is_prefix("/html/"@, r) {
                let n = "/html/"@.len();
                assert(r.subrange(0, n as int) =~= rooted.subrange(0, n as int));
                if is_prefix("/html/"@, s) && !is_suffix("index.html"@, s) {
                    assert(completed.last() == 'l');
                    assert(completed[0] == '/');
                    assert(rooted == completed);
                    assert(trim_end_char(rooted, '/') == rooted);
                    assert(r == completed);
                    let m = "index.html"@.len();
                    assert(completed.subrange(completed.len() - m, completed.len() as int)
                        =~= "index.html"@);
                } else {
                    assert(completed == s);
                    assert(s.len() > 0);
                    assert(rooted == s);
                    assert(s.subrange(0, n as int) =~= rooted.subrange(0, n as int));
                    assert(is_prefix("/html/"@, s));
                    assert(is_suffix("index.html"@, s));
                    assert(s.last() == "index.html"@[9]);
                    assert(trim_end_char(s, '/') == s);
                    assert(r == s);
                }
            }
            assert(r != "/"@) by {
                if r == "/"@ {
                    assert(r.last() == '/');
                }
            }
            assert(trim_end_char(r, '/') == r);
            assert(router_base(r) == r);
        }
    }
}

} // verus!
