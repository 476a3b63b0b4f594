//! Finding and killing the processes on a port: the commands to run, and
//! the reading of the listing that comes back.

use vstd::prelude::*;
use crate::platform::OsKind;
use crate::text::decimal;
use crate::text::decimal_digits;
use crate::text::texts;

verus! {

/// The shell command that lists the processes on a port.
pub open spec fn listing_command_of(os: OsKind, port: u16) -> Seq<char> {
    match os {
        OsKind::Windows => "netstat -ano | findstr :"@ + decimal_digits(port as nat),
        _ => "lsof -t -i :"@ + decimal_digits(port as nat),
    }
}

/// The shell command that lists the processes on a port.
pub fn listing_command(os: OsKind, port: u16) -> (r: String)
    ensures
        r@ == listing_command_of(os, port),
{
    let mut r = match os {
        OsKind::Windows => String::from_str("netstat -ano | findstr :"),
        _ => String::from_str("lsof -t -i :"),
    };
    let digits = decimal(port as u64);
    r.append(digits.as_str());
    r
}

/// The command that kills the process `pid` by force, with its arguments.
pub open spec fn kill_command_of(os: OsKind, pid: Seq<char>) -> Seq<Seq<char>> {
    match os {
        OsKind::Windows => seq!["taskkill"@, "/PID"@, pid, "/F"@],
        _ => seq!["kill"@, "-9"@, pid],
    }
}

/// The command that kills the process `pid` by force: the program first,
/// then its arguments.
pub fn kill_command(os: OsKind, pid: &str) -> (r: Vec<String>)
    ensures
        texts(r@) == kill_command_of(os, pid@),
{
    let mut r: Vec<String> = Vec::new();
    match os {
        OsKind::Windows => {
            r.push(String::from_str("taskkill"));
            r.push(String::from_str("/PID"));
            r.push(String::from_str(pid));
            r.push(String::from_str("/F"));
            assert(texts(r@) =~= seq!["taskkill"@, "/PID"@, pid@, "/F"@]);
        },
        _ => {
            r.push(String::from_str("kill"));
            r.push(String::from_str("-9"));
            r.push(String::from_str(pid));
            assert(texts(r@) =~= seq!["kill"@, "-9"@, pid@]);
        },
    }
    r
}

/// The byte is a line feed.
pub open spec fn is_line_feed(b: u8) -> bool {
    b == 0x0A
}

/// The byte is ASCII whitespace: a space, a tab, a line feed, a vertical
/// tab, a form feed or a carriage return.
pub open spec fn is_space(b: u8) -> bool {
    b == 0x20 || (0x09 <= b && b <= 0x0D)
}

/// How many bytes stand before the first line feed; the length of the text
/// where it has none.
pub open spec fn line_len(text: Seq<u8>) -> int
    decreases text.len(),
{
    if text.len() == 0 || is_line_feed(text[0]) {
        0
    } else {
        1 + line_len(text.skip(1))
    }
}

/// The line without the carriage return at its end, if it has one.
pub open spec fn without_cr(line: Seq<u8>) -> Seq<u8> {
    if line.len() > 0 && line.last() == 0x0D {
        line.drop_last()
    } else {
        line
    }
}

/// The lines of a text. A line ends at a line feed, or at a carriage
/// return followed by one; neither belongs to the line. The last line need
/// not have an ending, and what follows the last ending is a line only if it
/// is not empty.
pub open spec fn lines_of(text: Seq<u8>) -> Seq<Seq<u8>>
    decreases text.len(),
{
    if text.len() == 0 {
        Seq::empty()
    } else {
        let n = line_len(text);
        if n < 0 || n >= text.len() {
            seq![text]
        } else {
            seq![without_cr(text.take(n))] + lines_of(text.skip(n + 1))
        }
    }
}

/// The length of the line once the whitespace at its end is taken away.
pub open spec fn trimmed_len(line: Seq<u8>) -> int
    decreases line.len(),
{
    if line.len() == 0 {
        0
    } else if is_space(line.last()) {
        trimmed_len(line.drop_last())
    } else {
        line.len() as int
    }
}

/// Where the word that ends before `end` starts.
pub open spec fn word_start(line: Seq<u8>, end: int) -> int
    decreases end,
{
    if end <= 0 || end > line.len() || is_space(line[end - 1]) {
        end
    } else {
        word_start(line, end - 1)
    }
}

/// The last word of a line: the longest run without whitespace that ends
/// where the line's trailing whitespace begins. A line of whitespace alone
/// has none.
pub open spec fn last_word(line: Seq<u8>) -> Option<Seq<u8>> {
    let end = trimmed_len(line);
    if end <= 0 {
        None
    } else {
        Some(line.subrange(word_start(line, end), end))
    }
}

/// The process that one line of a listing names: on Windows its last word,
/// if it has one; elsewhere the whole line.
pub open spec fn pid_of(os: OsKind, line: Seq<u8>) -> Option<Seq<u8>> {
    match os {
        OsKind::Windows => last_word(line),
        _ => Some(line),
    }
}

/// The processes that the lines of a listing name, in the order of the
/// lines; a line that names none is passed over.
pub open spec fn pids_of(os: OsKind, lines: Seq<Seq<u8>>) -> Seq<Seq<u8>>
    decreases lines.len(),
{
    if lines.len() == 0 {
        Seq::empty()
    } else {
        let before = pids_of(os, lines.drop_last());
        match pid_of(os, lines.last()) {
            Some(pid) => before.push(pid),
            None => before,
        }
    }
}

/// The contents of a list of byte strings.
pub open spec fn contents(v: Seq<Vec<u8>>) -> Seq<Seq<u8>> {
    Seq::new(v.len(), |i: int| v[i]@)
}

/// The contents of an optional byte string.
pub open spec fn content(o: Option<Vec<u8>>) -> Option<Seq<u8>> {
    match o {
        Some(v) => Some(v@),
        None => None,
    }
}

/// The lines of a text.
pub fn split_lines(text: &Vec<u8>) -> (lines: Vec<Vec<u8>>)
    ensures
        contents(lines@) == lines_of(text@),
{
    let mut lines: Vec<Vec<u8>> = Vec::new();
    let n: usize = text.len();
    let mut start: usize = 0;
    assert(text@.skip(0) =~= text@);
    assert(contents(lines@) + lines_of(text@) =~= lines_of(text@));
    while start < n
        invariant
            n == text.len(),
            start <= n,
            lines_of(text@) == contents(lines@) + lines_of(text@.skip(start as int)),
        decreases n - start,
    {
        let ghost done = contents(lines@);
        let ghost rest = text@.skip(start as int);
        let mut line: Vec<u8> = Vec::new();
        let mut j: usize = start;
        assert(line@ =~= text@.subrange(start as int, j as int));
        while j < n && text[j] != 0x0A
            invariant
                n == text.len(),
                start <= j <= n,
                line@ == text@.subrange(start as int, j as int),
                line_len(text@.skip(start as int)) == (j - start) + line_len(text@.skip(j as int)),
            decreases n - j,
        {
            proof {
                assert(text@.skip(j as int)[0] == text@[j as int]);
                assert(text@.skip(j as int).skip(1) =~= text@.skip(j as int + 1));
            }
            line.push(text[j]);
            j += 1;
            assert(line@ =~= text@.subrange(start as int, j as int));
        }
        if j == n {
            proof {
                assert(text@.skip(n as int).len() == 0);
                assert(line_len(rest) == rest.len());
                assert(line@ =~= rest);
                assert(lines_of(rest) =~= seq![rest]);
                assert(lines_of(text@.skip(n as int)) =~= Seq::<Seq<u8>>::empty());
            }
            lines.push(line);
            start = n;
            assert(contents(lines@) =~= done.push(rest));
            assert(lines_of(text@) =~= contents(lines@) + lines_of(text@.skip(start as int)));
        } else {
            proof {
                assert(text@.skip(j as int)[0] == text@[j as int]);
                assert(line_len(text@.skip(j as int)) == 0);
                assert(rest.take(j - start) =~= line@);
                assert(rest.skip(j - start + 1) =~= text@.skip(j as int + 1));
            }
            let ghost whole = line@;
            let len: usize = line.len();
            if len > 0 && line[len - 1] == 0x0D {
                line.pop();
                assert(line@ =~= whole.drop_last());
            }
            assert(line@ == without_cr(whole));
            let ghost kept = line@;
            lines.push(line);
            start = j + 1;
            assert(contents(lines@) =~= done.push(kept));
            assert(lines_of(text@) =~= contents(lines@) + lines_of(text@.skip(start as int)));
        }
    }
    proof {
        assert(text@.skip(start as int).len() == 0);
        assert(contents(lines@) + Seq::<Seq<u8>>::empty() =~= contents(lines@));
    }
    lines
}

/// Whether a byte is ASCII whitespace.
pub fn is_space_byte(b: u8) -> (r: bool)
    ensures
        r == is_space(b),
{
    b == 0x20 || (0x09 <= b && b <= 0x0D)
}

/// The last word of a line, if it has one.
pub fn last_word_of(line: &Vec<u8>) -> (r: Option<Vec<u8>>)
    ensures
        content(r) == last_word(line@),
{
    let mut end: usize = line.len();
    assert(line@.take(end as int) =~= line@);
    while end > 0 && is_space_byte(line[end - 1])
        invariant
            end <= line.len(),
            trimmed_len(line@) == trimmed_len(line@.take(end as int)),
        decreases end,
    {
        proof {
            assert(line@.take(end as int).last() == line@[end - 1]);
            assert(line@.take(end as int).drop_last() =~= line@.take(end - 1));
        }
        end -= 1;
    }
    proof {
        if end > 0 {
            assert(line@.take(end as int).last() == line@[end - 1]);
        }
        assert(trimmed_len(line@) == end);
    }
    if end == 0 {
        return None;
    }
    let mut start: usize = end;
    while start > 0 && !is_space_byte(line[start - 1])
        invariant
            start <= end <= line.len(),
            word_start(line@, end as int) == word_start(line@, start as int),
        decreases start,
    {
        start -= 1;
    }
    let mut word: Vec<u8> = Vec::new();
    let mut k: usize = start;
    assert(word@ =~= line@.subrange(start as int, k as int));
    while k < end
        invariant
            start <= k <= end <= line.len(),
            word@ == line@.subrange(start as int, k as int),
        decreases end - k,
    {
        word.push(line[k]);
        k += 1;
        assert(word@ =~= line@.subrange(start as int, k as int));
    }
    Some(word)
}

/// The process that one line of a listing names.
pub fn pid_in_line(os: OsKind, line: &Vec<u8>) -> (r: Option<Vec<u8>>)
    ensures
        content(r) == pid_of(os, line@),
{
    match os {
        OsKind::Windows => last_word_of(line),
        _ => Some(line.clone()),
    }
}

/// The processes that a listing names: one for each of its lines on
/// systems that list bare process ids, the last word of each line that has
/// one on Windows.
pub fn listing_pids(os: OsKind, listing: &Vec<u8>) -> (pids: Vec<Vec<u8>>)
    ensures
        contents(pids@) == pids_of(os, lines_of(listing@)),
{
    let lines = split_lines(listing);
    let mut pids: Vec<Vec<u8>> = Vec::new();
    let mut i: usize = 0;
    assert(contents(lines@).take(0) =~= Seq::<Seq<u8>>::empty());
    assert(contents(pids@) =~= Seq::<Seq<u8>>::empty());
    while i < lines.len()
        invariant
            i <= lines.len(),
            contents(pids@) == pids_of(os, contents(lines@).take(i as int)),
        decreases lines.len() - i,
    {
        let ghost before = contents(pids@);
        proof {
            let all = contents(lines@);
            assert(all.take(i as int + 1).drop_last() =~= all.take(i as int));
            assert(all.take(i as int + 1).last() == lines[i as int]@);
        }
        match pid_in_line(os, &lines[i]) {
            Some(pid) => {
                let ghost bytes = pid@;
                pids.push(pid);
                assert(contents(pids@) =~= before.push(bytes));
            },
            None => {},
        }
        i += 1;
    }
    assert(contents(lines@).take(i as int) =~= contents(lines@));
    pids
}

} // verus!
