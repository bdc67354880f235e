use vstd::prelude::*;
use vstd::string::*;
use crate::zone::TzError;

verus! {

/// Position of the last '/' among the first `n` characters of `s`, or -1.
pub open spec fn last_slash(s: Seq<char>, n: int) -> int
    decreases n,
{
    if n <= 0 {
        -1
    } else if s[n - 1] == '/' {
        n - 1
    } else {
        last_slash(s, n - 1)
    }
}

pub open spec fn zoneinfo_dir() -> Seq<char> {
    seq!['z', 'o', 'n', 'e', 'i', 'n', 'f', 'o']
}

/// The display name of a zone identifier split at '/': the last two segments
/// joined by '/', or the last one alone where the one before it is `zoneinfo`;
/// `None` where there are fewer than three segments.
pub open spec fn display_name(s: Seq<char>) -> Option<Seq<char>> {
    let p1 = last_slash(s, s.len() as int);
    let p2 = last_slash(s, p1);
    if p1 < 0 || p2 < 0 {
        None
    } else {
        let last = s.subrange(p1 + 1, s.len() as int);
        let prev = s.subrange(p2 + 1, p1);
        if prev == zoneinfo_dir() {
            Some(last)
        } else {
            Some(prev + seq!['/'] + last)
        }
    }
}

proof fn lemma_last_slash_bounds(s: Seq<char>, n: int)
    ensures
        -1 <= last_slash(s, n) < if n > 0 { n } else { 0 },
    decreases n,
{
    if n > 0 {
        lemma_last_slash_bounds(s, n - 1);
    }
}

fn find_last_slash(s: &str, n: usize) -> (r: usize)
    requires
        n <= s@.len(),
    ensures
        r as int == last_slash(s@, n as int) + 1,
{
    let mut i: usize = n;
    while i > 0
        invariant
            i <= n <= s@.len(),
            last_slash(s@, n as int) == last_slash(s@, i as int),
        decreases i,
    {
        if s.get_char(i - 1) == '/' {
            return i;
        }
        i -= 1;
    }
    0
}

fn is_zoneinfo_dir(seg: &str) -> (r: bool)
    ensures
        r == (seg@ == zoneinfo_dir()),
{
    let word = "zoneinfo";
    proof {
        reveal_strlit("zoneinfo");
        assert(word@ =~= zoneinfo_dir());
    }
    let n = seg.unicode_len();
    if n != 8 {
        return false;
    }
    let mut i: usize = 0;
    while i < 8
        invariant
            i <= 8,
            n == 8,
            seg@.len() == 8,
            word@ == zoneinfo_dir(),
            forall|j: int| 0 <= j < i ==> seg@[j] == word@[j],
        decreases 8 - i,
    {
        if seg.get_char(i) != word.get_char(i) {
            return false;
        }
        i += 1;
    }
    assert(seg@ =~= zoneinfo_dir());
    true
}

/// The display name of a zone identifier such as `/usr/share/zoneinfo/Europe/Paris`
/// (`Europe/Paris`) or `/usr/share/zoneinfo/UTC` (`UTC`). Fails with
/// `InvalidTimezone` where the identifier has fewer than three '/'-separated segments.
pub fn timezone_name(requested: &str) -> (r: Result<String, TzError>)
    ensures
        match display_name(requested@) {
            None => r == Err::<String, TzError>(TzError::InvalidTimezone),
            Some(name) => r matches Ok(s) && s@ == name,
        },
{
    let len = requested.unicode_len();
    let e1 = find_last_slash(requested, len);
    proof {
        lemma_last_slash_bounds(requested@, len as int);
    }
    if e1 == 0 {
        return Err(TzError::InvalidTimezone);
    }
    let e2 = find_last_slash(requested, e1 - 1);
    proof {
        lemma_last_slash_bounds(requested@, e1 - 1);
    }
    if e2 == 0 {
        return Err(TzError::InvalidTimezone);
    }
    let last = requested.substring_char(e1, len);
    let prev = requested.substring_char(e2, e1 - 1);
    if is_zoneinfo_dir(prev) {
        Ok(String::from_str(last))
    } else {
        let mut name = String::from_str(prev);
        let sep = "/";
        proof {
            reveal_strlit("/");
        }
        name.append(sep);
        name.append(last);
        assert(name@ =~= prev@ + seq!['/'] + last@);
        Ok(name)
    }
}

} // verus!
