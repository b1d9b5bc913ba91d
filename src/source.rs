use vstd::prelude::*;

use crate::error::LoadError;

verus! {

/// Whether `u` starts with the local scheme prefix `file://`.
pub open spec fn has_file_scheme(u: Seq<char>) -> bool {
    &&& u.len() >= 7
    &&& u[0] == 'f'
    &&& u[1] == 'i'
    &&& u[2] == 'l'
    &&& u[3] == 'e'
    &&& u[4] == ':'
    &&& u[5] == '/'
    &&& u[6] == '/'
}

/// Whether `u`, from position `i`, reads `localhost`.
pub open spec fn has_localhost_at(u: Seq<char>, i: int) -> bool {
    &&& u.len() >= i + 9
    &&& u[i] == 'l'
    &&& u[i + 1] == 'o'
    &&& u[i + 2] == 'c'
    &&& u[i + 3] == 'a'
    &&& u[i + 4] == 'l'
    &&& u[i + 5] == 'h'
    &&& u[i + 6] == 'o'
    &&& u[i + 7] == 's'
    &&& u[i + 8] == 't'
}

/// Where the path of a `file://` reference starts: right after the scheme
/// where the host is empty, after `localhost` where that is the host.
pub open spec fn path_start(u: Seq<char>) -> Option<int> {
    if !has_file_scheme(u) {
        None
    } else if u.len() > 7 && u[7] == '/' {
        Some(7)
    } else if has_localhost_at(u, 7) && u.len() > 16 && u[16] == '/' {
        Some(16)
    } else {
        None
    }
}

/// The value of a hexadecimal digit.
pub open spec fn hex_value(c: char) -> Option<u32> {
    if '0' <= c && c <= '9' {
        Some((c as u32 - '0' as u32) as u32)
    } else if 'a' <= c && c <= 'f' {
        Some((c as u32 - 'a' as u32 + 10) as u32)
    } else if 'A' <= c && c <= 'F' {
        Some((c as u32 - 'A' as u32 + 10) as u32)
    } else {
        None
    }
}

/// Percent-decoding of a path: `%XX` with two hex digits stands for the byte
/// XX, which must be ASCII here; a `%` not followed by two hex digits stands
/// for itself. `None` where an escape encodes a byte outside ASCII.
pub open spec fn percent_decode(s: Seq<char>) -> Option<Seq<char>>
    decreases s.len(),
{
    if s.len() == 0 {
        Some(Seq::empty())
    } else if s[0] == '%' && s.len() >= 3 && hex_value(s[1]) is Some && hex_value(s[2]) is Some {
        let v = hex_value(s[1])->Some_0 * 16 + hex_value(s[2])->Some_0;
        if v < 128 {
            match percent_decode(s.subrange(3, s.len() as int)) {
                Some(rest) => Some(seq![v as char] + rest),
                None => None,
            }
        } else {
            None
        }
    } else {
        match percent_decode(s.subrange(1, s.len() as int)) {
            Some(rest) => Some(seq![s[0]] + rest),
            None => None,
        }
    }
}

/// The local path named by a `file://` reference: the absolute path after the
/// scheme and the empty or `localhost` host, percent-decoded.
pub open spec fn file_url_path(u: Seq<char>) -> Option<Seq<char>> {
    match path_start(u) {
        Some(i) => percent_decode(u.subrange(i, u.len() as int)),
        None => None,
    }
}

/// Whether a path is absolute.
pub open spec fn is_absolute(p: Seq<char>) -> bool {
    p.len() > 0 && p[0] == '/'
}

/// `base` joined with `p`: an absolute `p` replaces the base, a relative one is
/// appended below it with one separator.
pub open spec fn join_path(base: Seq<char>, p: Seq<char>) -> Seq<char> {
    if is_absolute(p) || base.len() == 0 {
        p
    } else if base.last() == '/' {
        base + p
    } else {
        base + seq!['/'] + p
    }
}

/// Relies on `char::to_string`: the one-character string.
#[verifier::external_body]
fn char_to_string(c: char) -> (r: String)
    ensures
        r@ == seq![c],
{
    c.to_string()
}

fn hex_digit(c: char) -> (r: Option<u32>)
    ensures
        r == hex_value(c),
{
    if '0' <= c && c <= '9' {
        Some(c as u32 - '0' as u32)
    } else if 'a' <= c && c <= 'f' {
        Some(c as u32 - 'a' as u32 + 10)
    } else if 'A' <= c && c <= 'F' {
        Some(c as u32 - 'A' as u32 + 10)
    } else {
        None
    }
}

/// Prefixing the decoded text with `p` commutes with the decoding.
pub open spec fn prefixed(p: Seq<char>, d: Option<Seq<char>>) -> Option<Seq<char>> {
    match d {
        Some(r) => Some(p + r),
        None => None,
    }
}

/// Percent-decodes `s`; `None` where an escape encodes a byte outside ASCII.
pub fn percent_decode_exec(s: &str) -> (r: Option<String>)
    ensures
        match percent_decode(s@) {
            Some(d) => r is Some && r->Some_0@ == d,
            None => r is None,
        },
{
    let n = s.unicode_len();
    let mut out = String::new();
    let mut i: usize = 0;
    proof {
        assert(s@.subrange(0, n as int) =~= s@);
        if let Some(d) = percent_decode(s@) {
            assert(out@ + d =~= d);
        }
    }
    while i < n
        invariant
            n == s@.len(),
            i <= n,
            percent_decode(s@) == prefixed(out@, percent_decode(s@.subrange(i as int, n as int))),
        decreases n - i,
    {
        let ghost rest = s@.subrange(i as int, n as int);
        let c = s.get_char(i);
        let mut step: usize = 1;
        let mut decoded: Option<char> = Some(c);
        if c == '%' && n - i > 2 {
            let h1 = hex_digit(s.get_char(i + 1));
            let h2 = hex_digit(s.get_char(i + 2));
            match (h1, h2) {
                (Some(a), Some(b)) => {
                    let v = a * 16 + b;
                    if v < 128 {
                        decoded = Some(char_from_ascii(v));
                    } else {
                        decoded = None;
                    }
                    step = 3;
                },
                _ => {},
            }
        }
        assert(rest.subrange(step as int, rest.len() as int) =~= s@.subrange(i + step, n as int));
        match decoded {
            None => {
                assert(percent_decode(rest) is None);
                return None;
            },
            Some(d) => {
                let piece = char_to_string(d);
                out.append(piece.as_str());
                i = i + step;
            },
        }
    }
    assert(s@.subrange(n as int, n as int) =~= Seq::<char>::empty());
    Some(out)
}

/// The character of an ASCII code.
fn char_from_ascii(v: u32) -> (c: char)
    requires
        v < 128,
    ensures
        c == v as char,
{
    (v as u8) as char
}

/// Resolves a content reference to a local path. Only `file://` references
/// with an empty or `localhost` host and an absolute path are accepted, and
/// the path is percent-decoded; anything else is `InvalidSource`.
pub fn parse_file_url(url: &str) -> (r: Result<String, LoadError>)
    ensures
        match file_url_path(url@) {
            Some(p) => r is Ok && r->Ok_0@ == p,
            None => r == Err::<String, LoadError>(LoadError::InvalidSource),
        },
{
    let n = url.unicode_len();
    if n <= 7 {
        return Err(LoadError::InvalidSource);
    }
    if url.get_char(0) != 'f' || url.get_char(1) != 'i' || url.get_char(2) != 'l'
        || url.get_char(3) != 'e' || url.get_char(4) != ':' || url.get_char(5) != '/'
        || url.get_char(6) != '/' {
        return Err(LoadError::InvalidSource);
    }
    let start: usize = if url.get_char(7) == '/' {
        7
    } else if n > 16 && url.get_char(7) == 'l' && url.get_char(8) == 'o' && url.get_char(9) == 'c'
        && url.get_char(10) == 'a' && url.get_char(11) == 'l' && url.get_char(12) == 'h'
        && url.get_char(13) == 'o' && url.get_char(14) == 's' && url.get_char(15) == 't'
        && url.get_char(16) == '/' {
        16
    } else {
        return Err(LoadError::InvalidSource);
    };
    match percent_decode_exec(url.substring_char(start, n)) {
        Some(p) => Ok(p),
        None => Err(LoadError::InvalidSource),
    }
}

/// Joins a relative path below `base`, as a filesystem path join does.
pub fn join_path_exec(base: &str, p: &str) -> (r: String)
    ensures
        r@ == join_path(base@, p@),
{
    let pn = p.unicode_len();
    let bn = base.unicode_len();
    if (pn > 0 && p.get_char(0) == '/') || bn == 0 {
        return String::from_str(p);
    }
    let mut out = String::from_str(base);
    if base.get_char(bn - 1) != '/' {
        let sep = "/";
        proof {
            reveal_strlit("/");
        }
        out.append(sep);
    }
    out.append(p);
    out
}

} // verus!
