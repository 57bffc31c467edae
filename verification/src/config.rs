//! The credential parser for the local configuration file.
//!
//! The file is a line-based key-value text: blank lines and `#` comment lines
//! carry nothing, and a line assigns the credential when it holds `apikey`,
//! an equals sign and a quoted value, with nothing else but whitespace. The
//! first such line decides. Reading the file, and bootstrapping one when it
//! is absent, is the unverified binary's work; the parse itself is verified.

use vstd::prelude::*;

use crate::model::Credential;
use vstd::string::StrSliceExecFns;
use vstd::string::StringExecFns;

verus! {

/// Where the configuration directory stands: under the configuration-home
/// override when that is set, else under `.config` in the home directory;
/// nowhere when neither is known.
pub open spec fn config_directory_spec(
    xdg_config_home: Option<Seq<char>>,
    home_directory: Option<Seq<char>>,
) -> Option<Seq<char>> {
    match (xdg_config_home, home_directory) {
        (Some(x), _) => Some(x + "/snowman"@),
        (None, Some(h)) => Some(h + "/.config/snowman"@),
        (None, None) => None,
    }
}

/// Resolves the configuration directory from the two environment values.
pub fn config_directory(xdg_config_home: Option<String>, home_directory: Option<String>) -> (r:
    Option<String>)
    ensures
        match r {
            Some(d) => config_directory_spec(
                match xdg_config_home {
                    Some(x) => Some(x@),
                    None => None,
                },
                match home_directory {
                    Some(h) => Some(h@),
                    None => None,
                },
            ) == Some(d@),
            None => xdg_config_home is None && home_directory is None,
        },
{
    match xdg_config_home {
        Some(x) => {
            let mut d = x;
            d.append("/snowman");
            Some(d)
        },
        None => match home_directory {
            Some(h) => {
                let mut d = h;
                d.append("/.config/snowman");
                Some(d)
            },
            None => None,
        },
    }
}

/// The configuration file inside its directory.
pub fn config_file_path(directory: &str) -> (r: String)
    ensures
        r@ == directory@ + "/snowman.toml"@,
{
    let mut r = directory.to_owned();
    r.append("/snowman.toml");
    r
}

/// Whitespace inside a line.
pub open spec fn is_space(c: char) -> bool {
    c == ' ' || c == '\t' || c == '\r'
}

/// A quote character that may fence the credential value.
pub open spec fn is_quote(c: char) -> bool {
    c == '"' || c == '\''
}

/// The characters left after dropping leading whitespace.
pub open spec fn trim_start_spec(s: Seq<char>) -> Seq<char>
    decreases s.len(),
{
    if s.len() > 0 && is_space(s[0]) {
        trim_start_spec(s.skip(1))
    } else {
        s
    }
}

/// The characters left after dropping trailing whitespace.
pub open spec fn trim_end_spec(s: Seq<char>) -> Seq<char>
    decreases s.len(),
{
    if s.len() > 0 && is_space(s.last()) {
        trim_end_spec(s.drop_last())
    } else {
        s
    }
}

/// The credential a single line assigns, if the line is a well-formed
/// `apikey` assignment: the key, `=`, and a value fenced by one kind of
/// quote that does not occur inside it.
pub open spec fn line_credential(line: Seq<char>) -> Option<Seq<char>> {
    let t = trim_end_spec(trim_start_spec(line));
    if t.len() >= 6 && t.take(6) == "apikey"@ {
        let rest = trim_start_spec(t.skip(6));
        if rest.len() >= 1 && rest[0] == '=' {
            let v = trim_start_spec(rest.skip(1));
            if v.len() >= 2 && is_quote(v[0]) && v.last() == v[0] && (forall|i: int|
                0 < i < v.len() - 1 ==> #[trigger] v[i] != v[0]) {
                Some(v.subrange(1, v.len() - 1))
            } else {
                None
            }
        } else {
            None
        }
    } else {
        None
    }
}

/// The position of the first line break, or the text's length.
pub open spec fn line_end(s: Seq<char>) -> int
    decreases s.len(),
{
    if s.len() == 0 {
        0
    } else if s[0] == '\n' {
        0
    } else {
        1 + line_end(s.skip(1))
    }
}

/// The credential a configuration text resolves to: the first line that is
/// a well-formed `apikey` assignment decides; a text without one resolves to
/// nothing.
pub open spec fn credential_of(s: Seq<char>) -> Option<Seq<char>>
    decreases s.len(),
{
    let e = line_end(s);
    match line_credential(s.take(e)) {
        Some(k) => Some(k),
        None => if 0 <= e && e < s.len() {
            credential_of(s.skip(e + 1))
        } else {
            None
        },
    }
}

proof fn lemma_line_end_at(s: Seq<char>, q: int)
    requires
        0 <= q <= s.len(),
        forall|i: int| 0 <= i < q ==> s[i] != '\n',
        q < s.len() ==> s[q] == '\n',
    ensures
        line_end(s) == q,
    decreases q,
{
    if q == 0 {
    } else {
        lemma_line_end_at(s.skip(1), q - 1);
    }
}

proof fn lemma_trim_start_at(s: Seq<char>, j: int)
    requires
        0 <= j <= s.len(),
        forall|i: int| 0 <= i < j ==> is_space(s[i]),
        j < s.len() ==> !is_space(s[j]),
    ensures
        trim_start_spec(s) == s.skip(j),
    decreases j,
{
    if j == 0 {
        assert(s.skip(0) =~= s);
    } else {
        lemma_trim_start_at(s.skip(1), j - 1);
        assert(s.skip(1).skip(j - 1) =~= s.skip(j));
    }
}

proof fn lemma_trim_end_at(s: Seq<char>, j: int)
    requires
        0 <= j <= s.len(),
        forall|i: int| j <= i < s.len() ==> is_space(s[i]),
        j > 0 ==> !is_space(s[j - 1]),
    ensures
        trim_end_spec(s) == s.take(j),
    decreases s.len() - j,
{
    if j == s.len() {
        if s.len() > 0 && is_space(s.last()) {
            assert(false);
        }
        assert(s.take(j) =~= s);
    } else {
        lemma_trim_end_at(s.drop_last(), j);
        assert(s.drop_last().take(j) =~= s.take(j));
    }
}

/// Parses the span `[p, q)` of the text as one line.
#[verifier::rlimit(60)]
fn parse_line(text: &str, p: usize, q: usize) -> (r: Option<String>)
    requires
        p <= q <= text@.len(),
    ensures
        match r {
            Some(k) => line_credential(text@.subrange(p as int, q as int)) == Some(k@),
            None => line_credential(text@.subrange(p as int, q as int)) is None,
        },
{
    let ghost line = text@.subrange(p as int, q as int);
    let mut lo = p;
    while lo < q && (text.get_char(lo) == ' ' || text.get_char(lo) == '\t' || text.get_char(lo)
        == '\r')
        invariant
            p <= lo <= q <= text@.len(),
            forall|i: int| p <= i < lo ==> is_space(text@[i]),
        decreases q - lo,
    {
        lo += 1;
    }
    let mut hi = q;
    while hi > lo && (text.get_char(hi - 1) == ' ' || text.get_char(hi - 1) == '\t'
        || text.get_char(hi - 1) == '\r')
        invariant
            p <= lo <= hi <= q <= text@.len(),
            forall|i: int| p <= i < lo ==> is_space(text@[i]),
            lo < q ==> !is_space(text@[lo as int]),
            forall|i: int| hi <= i < q ==> is_space(text@[i]),
        decreases hi,
    {
        hi -= 1;
    }
    let ghost t = text@.subrange(lo as int, hi as int);
    proof {
        lemma_trim_start_at(line, lo - p);
        assert(line.skip(lo - p) =~= text@.subrange(lo as int, q as int));
        lemma_trim_end_at(text@.subrange(lo as int, q as int), hi - lo);
        assert(text@.subrange(lo as int, q as int).take(hi - lo) =~= t);
        assert(trim_end_spec(trim_start_spec(line)) == t);
    }
    if hi - lo < 6 {
        return None;
    }
    proof {
        reveal_strlit("apikey");
    }
    if !(text.get_char(lo) == 'a' && text.get_char(lo + 1) == 'p' && text.get_char(lo + 2) == 'i'
        && text.get_char(lo + 3) == 'k' && text.get_char(lo + 4) == 'e' && text.get_char(lo + 5)
        == 'y') {
        proof {
            if t.take(6) == "apikey"@ {
                assert(t.take(6)[0] == t[0] && t.take(6)[1] == t[1] && t.take(6)[2] == t[2]
                    && t.take(6)[3] == t[3] && t.take(6)[4] == t[4] && t.take(6)[5] == t[5]);
                assert(t[0] == 'a' && t[1] == 'p' && t[2] == 'i' && t[3] == 'k' && t[4] == 'e'
                    && t[5] == 'y');
            }
        }
        return None;
    }
    proof {
        assert(t.take(6) =~= "apikey"@);
    }
    let mut m = lo + 6;
    while m < hi && (text.get_char(m) == ' ' || text.get_char(m) == '\t' || text.get_char(m)
        == '\r')
        invariant
            lo + 6 <= m <= hi <= text@.len(),
            forall|i: int| lo + 6 <= i < m ==> is_space(text@[i]),
        decreases hi - m,
    {
        m += 1;
    }
    proof {
        lemma_trim_start_at(t.skip(6), m - lo - 6);
        assert(t.skip(6).skip(m - lo - 6) =~= text@.subrange(m as int, hi as int));
        assert(trim_start_spec(t.skip(6)) == text@.subrange(m as int, hi as int));
    }
    let ghost rest = text@.subrange(m as int, hi as int);
    if m >= hi {
        return None;
    }
    if text.get_char(m) != '=' {
        return None;
    }
    let mut w = m + 1;
    while w < hi && (text.get_char(w) == ' ' || text.get_char(w) == '\t' || text.get_char(w)
        == '\r')
        invariant
            m + 1 <= w <= hi <= text@.len(),
            forall|i: int| m + 1 <= i < w ==> is_space(text@[i]),
        decreases hi - w,
    {
        w += 1;
    }
    proof {
        lemma_trim_start_at(rest.skip(1), w - m - 1);
        assert(rest.skip(1).skip(w - m - 1) =~= text@.subrange(w as int, hi as int));
        assert(trim_start_spec(rest.skip(1)) == text@.subrange(w as int, hi as int));
    }
    let ghost v = text@.subrange(w as int, hi as int);
    if hi - w < 2 {
        return None;
    }
    let qc = text.get_char(w);
    if !(qc == '"' || qc == '\'') {
        return None;
    }
    if text.get_char(hi - 1) != qc {
        return None;
    }
    let mut i = w + 1;
    while i < hi - 1
        invariant
            w + 1 <= i <= hi - 1,
            p <= q <= text@.len(),
            p <= lo <= hi <= q,
            lo + 6 <= m < hi,
            m + 1 <= w,
            w + 2 <= hi,
            line == text@.subrange(p as int, q as int),
            t == text@.subrange(lo as int, hi as int),
            rest == text@.subrange(m as int, hi as int),
            v == text@.subrange(w as int, hi as int),
            trim_end_spec(trim_start_spec(line)) == t,
            t.len() >= 6 && t.take(6) == "apikey"@,
            trim_start_spec(t.skip(6)) == rest,
            rest.len() >= 1 && rest[0] == '=',
            trim_start_spec(rest.skip(1)) == v,
            v.len() >= 2 && is_quote(v[0]) && v.last() == v[0],
            qc == text@[w as int],
            forall|j: int| w < j < i ==> text@[j] != qc,
        decreases hi - 1 - i,
    {
        if text.get_char(i) == qc {
            proof {
                assert(v[i - w] == qc);
                assert(!(forall|j: int| 0 < j < v.len() - 1 ==> #[trigger] v[j] != v[0])) by {
                    assert(v[i - w] == v[0]);
                }
            }
            return None;
        }
        i += 1;
    }
    let k = text.substring_char(w + 1, hi - 1).to_owned();
    proof {
        assert(k@ =~= v.subrange(1, v.len() - 1));
    }
    Some(k)
}

/// Parses a configuration text into the credential it resolves to, failing
/// exactly when no line is a well-formed `apikey` assignment.
pub fn parse_credential(text: &str) -> (r: Option<Credential>)
    ensures
        match r {
            Some(c) => credential_of(text@) == Some(c@),
            None => credential_of(text@) is None,
        },
{
    let n = text.unicode_len();
    let mut p: usize = 0;
    proof {
        assert(text@.skip(0) =~= text@);
    }
    loop
        invariant
            p <= n,
            n == text@.len(),
            credential_of(text@) == credential_of(text@.skip(p as int)),
        decreases n - p,
    {
        let mut q = p;
        while q < n && text.get_char(q) != '\n'
            invariant
                p <= q <= n,
                n == text@.len(),
                forall|i: int| p <= i < q ==> text@[i] != '\n',
            decreases n - q,
        {
            q += 1;
        }
        let ghost sub = text@.skip(p as int);
        proof {
            lemma_line_end_at(sub, q - p);
            assert(sub.take(q - p) =~= text@.subrange(p as int, q as int));
        }
        match parse_line(text, p, q) {
            Some(k) => {
                return Some(Credential { apikey: k });
            },
            None => {},
        }
        if q == n {
            return None;
        }
        proof {
            assert(sub.skip(q - p + 1) =~= text@.skip(q + 1));
        }
        p = q + 1;
    }
}

} // verus!
