//! Credential resolution for the transcription sidecar.
//!
//! A bearer token is looked for in a process environment variable first,
//! then in an ordered list of candidate credential files. A credential
//! file is plain text whose lines may read `HF_TOKEN=<value>`, the value
//! optionally wrapped in double quotes; the first line with a non-empty
//! value wins within a file, and the first file that yields one wins over
//! the later candidates. Absence of a token is a normal outcome, never an
//! error. Reading the environment and the files happens outside this
//! crate; the functions here decide what a given environment value and
//! given file contents resolve to.

use vstd::prelude::*;
use vstd::string::StrSliceExecFns;

verus! {

/// The key that a credential line must start with.
pub open spec fn spec_token_prefix() -> Seq<char> {
    "HF_TOKEN="@
}

/// The index of the first newline in `s`, or `s.len()` if there is none.
pub open spec fn spec_line_end(s: Seq<char>) -> int
    decreases s.len(),
{
    if s.len() == 0 {
        0
    } else if s[0] == '\n' {
        0
    } else {
        1 + spec_line_end(s.skip(1))
    }
}

/// A line with its trailing carriage return removed, if it has one, so
/// that files with CRLF line endings read as files with LF endings.
pub open spec fn spec_strip_cr(line: Seq<char>) -> Seq<char> {
    if line.len() > 0 && line.last() == '\r' {
        line.drop_last()
    } else {
        line
    }
}

/// `s` with all leading and trailing double-quote characters removed.
pub open spec fn spec_trim_quotes(s: Seq<char>) -> Seq<char>
    decreases s.len(),
{
    if s.len() > 0 && s[0] == '"' {
        spec_trim_quotes(s.skip(1))
    } else if s.len() > 0 && s.last() == '"' {
        spec_trim_quotes(s.drop_last())
    } else {
        s
    }
}

/// The value a single line offers: for a line `HF_TOKEN=<value>`, the
/// value with surrounding double quotes stripped (possibly empty); `None`
/// for any other line.
pub open spec fn spec_line_value(line: Seq<char>) -> Option<Seq<char>> {
    if spec_token_prefix().is_prefix_of(line) {
        Some(spec_trim_quotes(line.skip(spec_token_prefix().len() as int)))
    } else {
        None
    }
}

/// The token a credential file's content yields: the value of the first
/// line whose stripped value is non-empty, or `None` if no line yields
/// one.
pub open spec fn spec_file_token(s: Seq<char>) -> Option<Seq<char>>
    decreases s.len(),
{
    let e = spec_line_end(s);
    let v = spec_line_value(spec_strip_cr(s.take(e)));
    if v is Some && v->Some_0.len() > 0 {
        v
    } else if 0 <= e && e < s.len() {
        spec_file_token(s.skip(e + 1))
    } else {
        None
    }
}

/// The token an ordered list of candidate files yields: the first
/// readable candidate whose content yields a token wins; unreadable
/// candidates (`None`) and candidates without a token are skipped.
pub open spec fn spec_files_token(files: Seq<Option<Seq<char>>>) -> Option<Seq<char>>
    decreases files.len(),
{
    if files.len() == 0 {
        None
    } else {
        let t = if files[0] is Some {
            spec_file_token(files[0]->Some_0)
        } else {
            None
        };
        if t is Some {
            t
        } else {
            spec_files_token(files.skip(1))
        }
    }
}

/// The resolved token: the environment value verbatim when the
/// environment variable is present, else the first token the candidate
/// files yield, else nothing.
pub open spec fn spec_resolve_token(
    env: Option<Seq<char>>,
    files: Seq<Option<Seq<char>>>,
) -> Option<Seq<char>> {
    if env is Some {
        env
    } else {
        spec_files_token(files)
    }
}

proof fn lemma_line_end_at(s: Seq<char>, i: int)
    requires
        0 <= i <= s.len(),
        forall|k: int| 0 <= k < i ==> s[k] != '\n',
        i == s.len() || s[i] == '\n',
    ensures
        spec_line_end(s) == i,
    decreases i,
{
    if i == 0 {
    } else {
        lemma_line_end_at(s.skip(1), i - 1);
    }
}

/// Extracts the token a credential file's content yields, if any: the
/// first `HF_TOKEN=` line whose value, stripped of surrounding double
/// quotes, is non-empty.
pub fn extract_file_token(content: &str) -> (r: Option<String>)
    ensures
        r is Some <==> spec_file_token(content@) is Some,
        r is Some ==> r->Some_0@ == spec_file_token(content@)->Some_0,
{
    let n = content.unicode_len();
    let mut start: usize = 0;
    proof {
        assert(content@.skip(0) =~= content@);
    }
    loop
        invariant
            n == content@.len(),
            0 <= start <= n,
            spec_file_token(content@) == spec_file_token(content@.skip(start as int)),
        decreases n - start,
    {
        let ghost s = content@.skip(start as int);
        // Find the end of the current line.
        let mut end: usize = start;
        while end < n && content.get_char(end) != '\n'
            invariant
                n == content@.len(),
                start <= end <= n,
                forall|k: int| start <= k < end ==> content@[k] != '\n',
            decreases n - end,
        {
            end = end + 1;
        }
        proof {
            assert forall|k: int| 0 <= k < end - start implies s[k] != '\n' by {
                assert(s[k] == content@[start + k]);
            }
            lemma_line_end_at(s, end - start);
        }
        // Remove a trailing carriage return.
        let mut cr_end = end;
        if cr_end > start && content.get_char(cr_end - 1) == '\r' {
            cr_end = cr_end - 1;
        }
        let ghost line = spec_strip_cr(s.take(end - start));
        proof {
            assert(s.take(end - start) =~= content@.subrange(start as int, end as int));
            assert(line =~= content@.subrange(start as int, cr_end as int));
        }
        // Does the line start with the key?
        let has_prefix = if cr_end - start >= 9 {
            let head = content.substring_char(start, start + 9).to_owned();
            let key = "HF_TOKEN=".to_owned();
            proof {
                reveal_strlit("HF_TOKEN=");
                assert(content@.subrange(start as int, start as int + 9) =~= line.take(9));
            }
            head == key
        } else {
            false
        };
        proof {
            reveal_strlit("HF_TOKEN=");
            assert(has_prefix == spec_token_prefix().is_prefix_of(line));
        }
        if has_prefix {
            // Strip surrounding double quotes from the value.
            let mut a = start + 9;
            let mut b = cr_end;
            proof {
                assert(line.skip(9) =~= content@.subrange(a as int, b as int));
            }
            while a < b && content.get_char(a) == '"'
                invariant
                    n == content@.len(),
                    start + 9 <= a <= b <= cr_end <= n,
                    spec_trim_quotes(line.skip(9)) == spec_trim_quotes(
                        content@.subrange(a as int, b as int),
                    ),
                decreases b - a,
            {
                proof {
                    let seg = content@.subrange(a as int, b as int);
                    assert(seg[0] == '"');
                    assert(seg.skip(1) =~= content@.subrange(a as int + 1, b as int));
                }
                a = a + 1;
            }
            while a < b && content.get_char(b - 1) == '"'
                invariant
                    n == content@.len(),
                    start + 9 <= a <= b <= cr_end <= n,
                    a == b || content@[a as int] != '"',
                    spec_trim_quotes(line.skip(9)) == spec_trim_quotes(
                        content@.subrange(a as int, b as int),
                    ),
                decreases b - a,
            {
                proof {
                    let seg = content@.subrange(a as int, b as int);
                    assert(seg[0] != '"');
                    assert(seg.last() == '"');
                    assert(seg.drop_last() =~= content@.subrange(a as int, b as int - 1));
                }
                b = b - 1;
            }
            proof {
                let seg = content@.subrange(a as int, b as int);
                if a < b {
                    assert(seg[0] != '"');
                    assert(seg.last() == content@[b as int - 1]);
                }
                assert(spec_trim_quotes(seg) == seg);
            }
            if b > a {
                let token = content.substring_char(a, b).to_owned();
                proof {
                    assert(token@ =~= content@.subrange(a as int, b as int));
                }
                return Some(token);
            }
        }
        // No token on this line; move to the next line, if any.
        if end == n {
            return None;
        }
        proof {
            assert(s.skip(end - start + 1) =~= content@.skip(end as int + 1));
        }
        start = end + 1;
    }
}

/// Scans the ordered candidate file contents (`None` standing for an
/// unreadable candidate) and yields the first token a candidate offers.
pub fn scan_files_token(files: &Vec<Option<String>>) -> (r: Option<String>)
    ensures
        r.deep_view() == spec_files_token(files.deep_view()),
{
    let mut i: usize = 0;
    proof {
        assert(files.deep_view().skip(0) =~= files.deep_view());
    }
    while i < files.len()
        invariant
            i <= files.len(),
            files.deep_view().len() == files@.len(),
            spec_files_token(files.deep_view()) == spec_files_token(
                files.deep_view().skip(i as int),
            ),
        decreases files.len() - i,
    {
        let ghost fs = files.deep_view().skip(i as int);
        proof {
            assert(fs[0] == files.deep_view()[i as int]);
        }
        if let Some(content) = &files[i] {
            proof {
                assert(fs[0] == Some(content@));
            }
            let t = extract_file_token(content.as_str());
            if let Some(token) = t {
                proof {
                    assert(spec_files_token(fs) == Some(token@));
                }
                return Some(token);
            }
        }
        proof {
            assert(fs.skip(1) =~= files.deep_view().skip(i as int + 1));
        }
        i = i + 1;
    }
    None
}

/// Resolves the bearer token from the environment value and the ordered
/// candidate file contents: the environment wins verbatim when present,
/// else the first candidate that yields a token, else nothing.
pub fn resolve_token(env_value: Option<String>, files: &Vec<Option<String>>) -> (r: Option<
    String,
>)
    ensures
        r.deep_view() == spec_resolve_token(env_value.deep_view(), files.deep_view()),
{
    match env_value {
        Some(t) => Some(t),
        None => scan_files_token(files),
    }
}

/// Law: when the environment provides a value, the resolver returns it
/// verbatim, and the candidate files play no part in the outcome.
pub proof fn lemma_env_token_wins(
    env: Seq<char>,
    files1: Seq<Option<Seq<char>>>,
    files2: Seq<Option<Seq<char>>>,
)
    ensures
        spec_resolve_token(Some(env), files1) == Some(env),
        spec_resolve_token(Some(env), files1) == spec_resolve_token(Some(env), files2),
{
}

/// Law: a value wrapped in double quotes yields the same stripped token
/// as the bare value, provided the bare value itself neither begins nor
/// ends with a double quote.
pub proof fn lemma_quoted_equals_unquoted(t: Seq<char>)
    requires
        t.len() > 0 ==> t[0] != '"',
        t.len() > 0 ==> t[t.len() - 1] != '"',
    ensures
        spec_trim_quotes(t) == t,
        spec_trim_quotes(seq!['"'] + t + seq!['"']) == t,
{
    assert(spec_trim_quotes(t) == t);
    let q = seq!['"'] + t + seq!['"'];
    let u = t + seq!['"'];
    assert(q.len() > 0 && q[0] == '"');
    assert(q.skip(1) =~= u);
    assert(spec_trim_quotes(q) == spec_trim_quotes(u));
    if t.len() == 0 {
        assert(u.len() > 0 && u[0] == '"');
        assert(u.skip(1) =~= t);
        assert(spec_trim_quotes(u) == spec_trim_quotes(t));
    } else {
        assert(u[0] == t[0] && u[0] != '"');
        assert(u.last() == '"');
        assert(u.drop_last() =~= t);
        assert(spec_trim_quotes(u) == spec_trim_quotes(t));
    }
}

/// Law: a candidate file that yields no token — an unreadable file, or
/// one without a non-empty `HF_TOKEN=` value — is skipped in favor of
/// the next candidate.
pub proof fn lemma_tokenless_candidate_skipped(files: Seq<Option<Seq<char>>>)
    requires
        files.len() > 0,
        files[0] is Some ==> spec_file_token(files[0]->Some_0) is None,
    ensures
        spec_files_token(files) == spec_files_token(files.skip(1)),
{
}

} // verus!
