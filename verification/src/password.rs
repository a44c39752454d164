//! Resolving the vault passphrase out of a passphrase file's contents: the
//! first line is the passphrase, trailing lines are ignored, and a file with
//! no contents at all yields no passphrase.

use vstd::prelude::*;

use crate::error::SshInitError;

verus! {

/// The position of the first line break in `s`, or `s.len()` if there is none.
pub open spec fn first_newline(s: Seq<char>) -> int
    decreases s.len(),
{
    if s.len() == 0 {
        0
    } else if s[0] == '\n' {
        0
    } else {
        1 + first_newline(s.subrange(1, s.len() as int))
    }
}

/// The first line of `s`: everything before the first line break, with one
/// trailing carriage return removed so that both line-terminator conventions
/// resolve to the same passphrase. This is deliberate for a lone carriage
/// return at the end of the input too: it is read as half a line terminator,
/// never as part of the passphrase.
pub open spec fn first_line(s: Seq<char>) -> Seq<char> {
    let line = s.subrange(0, first_newline(s));
    if line.len() > 0 && line[line.len() - 1] == '\r' {
        line.drop_last()
    } else {
        line
    }
}

proof fn lemma_first_newline_at(s: Seq<char>, i: int)
    requires
        0 <= i <= s.len(),
        forall|j: int| 0 <= j < i ==> s[j] != '\n',
        i < s.len() ==> s[i] == '\n',
    ensures
        first_newline(s) == i,
    decreases i,
{
    if s.len() == 0 {
    } else if s[0] == '\n' {
        assert(i == 0);
    } else {
        let tail = s.subrange(1, s.len() as int);
        assert(forall|j: int| 0 <= j < i - 1 ==> tail[j] == s[j + 1] && tail[j] != '\n');
        lemma_first_newline_at(tail, i - 1);
    }
}

/// Resolve the passphrase from the contents of a passphrase file: the first
/// line, exactly. Empty contents are the one rejected input.
pub fn get_password(file_contents: &str) -> (r: Result<String, SshInitError>)
    ensures
        r matches Ok(p) ==> p@ == first_line(file_contents@),
        r is Ok <==> file_contents@.len() > 0,
        r matches Err(e) ==> e is EmptyInput,
{
    let len = file_contents.unicode_len();
    if len == 0 {
        return Err(SshInitError::EmptyInput);
    }
    let mut i: usize = 0;
    while i < len && file_contents.get_char(i) != '\n'
        invariant
            0 <= i <= len,
            len == file_contents@.len(),
            forall|j: int| 0 <= j < i ==> file_contents@[j] != '\n',
        decreases len - i,
    {
        i += 1;
    }
    proof {
        lemma_first_newline_at(file_contents@, i as int);
    }
    let mut end = i;
    if end > 0 && file_contents.get_char(end - 1) == '\r' {
        end -= 1;
    }
    let line = file_contents.substring_char(0, end);
    proof {
        assert(line@ =~= first_line(file_contents@));
    }
    Ok(String::from_str(line))
}

/// Law: for a passphrase file whose first line is `p`, followed by any
/// trailing lines, the resolved passphrase is exactly `p`. The line may be
/// terminated by a line feed or by a carriage return and line feed; a line
/// whose own last character is a carriage return is outside the law, since
/// that character is read as part of the line terminator.
pub proof fn lemma_resolves_first_line(p: Seq<char>, rest: Seq<char>)
    requires
        forall|j: int| 0 <= j < p.len() ==> p[j] != '\n',
        p.len() > 0 ==> p[p.len() - 1] != '\r',
        rest.len() > 0 ==> rest[0] == '\n' || (rest.len() >= 2 && rest[0] == '\r' && rest[1]
            == '\n'),
    ensures
        first_line(p + rest) == p,
{
    let s = p + rest;
    if rest.len() > 0 && rest[0] == '\n' {
        lemma_first_newline_at(s, p.len() as int);
        assert(s.subrange(0, p.len() as int) =~= p);
    } else if rest.len() > 0 {
        // rest starts with a carriage return and line feed
        assert(forall|j: int| 0 <= j < p.len() + 1 ==> s[j] != '\n');
        lemma_first_newline_at(s, (p.len() + 1) as int);
        let line = s.subrange(0, (p.len() + 1) as int);
        assert(line[line.len() - 1] == '\r');
        assert(line.drop_last() =~= p);
    } else {
        assert(s =~= p);
        lemma_first_newline_at(s, p.len() as int);
        assert(s.subrange(0, p.len() as int) =~= p);
    }
}

} // verus!
