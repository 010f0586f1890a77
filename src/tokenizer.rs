//! Recognises a command in the text of a message: a configured prefix, then a
//! command name, then the argument tail.
use vstd::prelude::*;
use crate::text::{
    chars_of, is_space, lower, lower_chars, occurs, occurs_at, slice_of, space, string_of,
};

verus! {

/// How command messages are recognised.
pub struct TokenizerConfig {
    /// Text that every command message starts with.
    pub prefix: String,
    /// Substrings that separate the command name from its arguments, tried in order.
    pub delimiters: Vec<String>,
    /// Whether whitespace after the prefix and at the end of the arguments is ignored.
    pub with_whitespace: bool,
}

/// A command found in a message: its lower-cased name and its argument tail.
pub struct Invocation {
    pub name: String,
    pub args: String,
}

impl View for Invocation {
    type V = (Seq<char>, Seq<char>);

    open spec fn view(&self) -> (Seq<char>, Seq<char>) {
        (self.name@, self.args@)
    }
}

/// Each vector of characters as a sequence.
pub open spec fn views(ds: Seq<Vec<char>>) -> Seq<Seq<char>> {
    ds.map_values(|d: Vec<char>| d@)
}

/// The delimiters of a configuration, as character sequences.
pub open spec fn delimiter_seqs(ds: Seq<String>) -> Seq<Seq<char>> {
    ds.map_values(|d: String| d@)
}

/// Length of the first non-empty delimiter among `ds[j..]` that occurs at `i`, or 0.
pub open spec fn delim_len_from(s: Seq<char>, ds: Seq<Seq<char>>, i: int, j: int) -> nat
    decreases ds.len() - j,
{
    if j < 0 || j >= ds.len() {
        0
    } else if ds[j].len() > 0 && occurs_at(s, ds[j], i) {
        ds[j].len()
    } else {
        delim_len_from(s, ds, i, j + 1)
    }
}

/// Length of the separator at `i`: one whitespace character, or a delimiter; 0 if none.
pub open spec fn sep_len(s: Seq<char>, ds: Seq<Seq<char>>, i: int) -> nat {
    if 0 <= i < s.len() && is_space(s[i]) {
        1
    } else {
        delim_len_from(s, ds, i, 0)
    }
}

/// First position from `i` on where a separator starts, or the end of `s`.
pub open spec fn name_end(s: Seq<char>, ds: Seq<Seq<char>>, i: int) -> int
    decreases s.len() - i,
{
    if i >= s.len() {
        s.len() as int
    } else if sep_len(s, ds, i) > 0 {
        i
    } else {
        name_end(s, ds, i + 1)
    }
}

/// First position from `i` on that is not inside a run of separators.
pub open spec fn skip_seps(s: Seq<char>, ds: Seq<Seq<char>>, i: int) -> int
    decreases s.len() - i,
{
    if 0 <= i < s.len() && 0 < sep_len(s, ds, i) && i + sep_len(s, ds, i) <= s.len() {
        skip_seps(s, ds, i + sep_len(s, ds, i))
    } else {
        i
    }
}

/// First position from `i` on that holds no whitespace.
pub open spec fn skip_spaces(s: Seq<char>, i: int) -> int
    decreases s.len() - i,
{
    if 0 <= i < s.len() && is_space(s[i]) {
        skip_spaces(s, i + 1)
    } else {
        i
    }
}

/// End of `s[lo..k]` once trailing whitespace is dropped.
pub open spec fn trim_end_at(s: Seq<char>, lo: int, k: int) -> int
    decreases k - lo,
{
    if lo < k && is_space(s[k - 1]) {
        trim_end_at(s, lo, k - 1)
    } else {
        k
    }
}

/// Name and argument tail of `t`, or `None` when `t` does not start with the prefix.
pub open spec fn split_command(
    prefix: Seq<char>,
    ds: Seq<Seq<char>>,
    with_whitespace: bool,
    t: Seq<char>,
) -> Option<(Seq<char>, Seq<char>)> {
    if !occurs_at(t, prefix, 0) {
        None
    } else {
        let r = t.subrange(prefix.len() as int, t.len() as int);
        let a = if with_whitespace { skip_spaces(r, 0) } else { 0 };
        let e = name_end(r, ds, a);
        let b = skip_seps(r, ds, e);
        let z = if with_whitespace { trim_end_at(r, b, r.len() as int) } else { r.len() as int };
        Some((lower(r.subrange(a, e)), r.subrange(b, z)))
    }
}

/// What the tokenizer makes of `t` under `config`.
pub open spec fn tokens(config: TokenizerConfig, t: Seq<char>) -> Option<(Seq<char>, Seq<char>)> {
    split_command(config.prefix@, delimiter_seqs(config.delimiters@), config.with_whitespace, t)
}

fn delimiter_chars(ds: &Vec<String>) -> (r: Vec<Vec<char>>)
    ensures
        views(r@) == delimiter_seqs(ds@),
{
    let mut r: Vec<Vec<char>> = Vec::new();
    let mut j: usize = 0;
    while j < ds.len()
        invariant
            j <= ds@.len(),
            r@.len() == j,
            forall|k: int| 0 <= k < j ==> #[trigger] r@[k]@ == ds@[k]@,
        decreases ds@.len() - j,
    {
        let d = chars_of(ds[j].as_str());
        r.push(d);
        j = j + 1;
    }
    proof {
        assert(views(r@) =~= delimiter_seqs(ds@));
    }
    r
}

fn delim_len(s: &Vec<char>, ds: &Vec<Vec<char>>, i: usize) -> (r: usize)
    ensures
        r == delim_len_from(s@, views(ds@), i as int, 0),
        r > 0 ==> i + r <= s@.len(),
{
    let mut j: usize = 0;
    while j < ds.len()
        invariant
            j <= ds@.len(),
            delim_len_from(s@, views(ds@), i as int, 0) == delim_len_from(s@, views(ds@), i as int, j as int),
        decreases ds@.len() - j,
    {
        assert(views(ds@)[j as int] == ds@[j as int]@);
        if ds[j].len() > 0 && occurs(s, &ds[j], i) {
            return ds[j].len();
        }
        j = j + 1;
    }
    0
}

fn separator_len(s: &Vec<char>, ds: &Vec<Vec<char>>, i: usize) -> (r: usize)
    ensures
        r == sep_len(s@, views(ds@), i as int),
        r > 0 ==> i + r <= s@.len(),
{
    if i < s.len() && space(s[i]) {
        1
    } else {
        delim_len(s, ds, i)
    }
}

/// Splits `text` into a command invocation, or returns `None` when it is an
/// ordinary message that does not start with the prefix.
pub fn tokenize(config: &TokenizerConfig, text: &str) -> (r: Option<Invocation>)
    ensures
        match r {
            None => tokens(*config, text@) is None,
            Some(inv) => tokens(*config, text@) == Some(inv@),
        },
{
    let t = chars_of(text);
    let p = chars_of(config.prefix.as_str());
    if !occurs(&t, &p, 0) {
        return None;
    }
    let ds = delimiter_chars(&config.delimiters);
    let ghost dv = views(ds@);
    let r = slice_of(&t, p.len(), t.len());
    let n = r.len();
    let mut a: usize = 0;
    if config.with_whitespace {
        while a < n && space(r[a])
            invariant
                a <= n == r@.len(),
                skip_spaces(r@, 0) == skip_spaces(r@, a as int),
            decreases n - a,
        {
            a = a + 1;
        }
    }
    let mut e: usize = a;
    while e < n && separator_len(&r, &ds, e) == 0
        invariant
            a <= e <= n == r@.len(),
            dv == views(ds@),
            name_end(r@, dv, a as int) == name_end(r@, dv, e as int),
        decreases n - e,
    {
        e = e + 1;
    }
    let mut b: usize = e;
    loop
        invariant
            e <= b <= n == r@.len(),
            dv == views(ds@),
            skip_seps(r@, dv, e as int) == skip_seps(r@, dv, b as int),
        ensures
            e <= b <= n,
            skip_seps(r@, dv, e as int) == b,
        decreases n - b,
    {
        if b >= n {
            break;
        }
        let k = separator_len(&r, &ds, b);
        if k == 0 {
            break;
        }
        b = b + k;
    }
    let mut z: usize = n;
    if config.with_whitespace {
        while b < z && space(r[z - 1])
            invariant
                b <= z <= n == r@.len(),
                trim_end_at(r@, b as int, n as int) == trim_end_at(r@, b as int, z as int),
            decreases z - b,
        {
            z = z - 1;
        }
    }
    let name = lower_chars(&slice_of(&r, a, e));
    let args = slice_of(&r, b, z);
    Some(Invocation { name: string_of(name.as_slice()), args: string_of(args.as_slice()) })
}

} // verus!
