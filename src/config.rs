use vstd::prelude::*;
use vstd::utf8::{decode_utf8, valid_utf8};

verus! {

/// Everything needed to reach the mailbox and to keep the local store in sync.
pub struct Config {
    pub host: String,
    pub port: u16,
    pub user: String,
    /// Command whose standard output is the password, split at whitespace.
    pub pass_cmd: String,
    pub mailbox: String,
    pub maildir: String,
    pub mbsync_path: String,
    /// Path of the synchronizer's configuration file; empty for its default.
    pub mbsync_conf: String,
}

/// Why the password command gave no password.
#[derive(Debug, Clone, Copy, PartialEq, Eq, Structural)]
pub enum PasswordError {
    /// The command ran but did not exit with status zero (`None`: killed by a signal).
    Exited { code: Option<i32> },
    /// The command's output is not UTF-8 text.
    NotUtf8,
}

/// The characters of Unicode's White_Space property, the ones that
/// `char::is_whitespace` accepts.
pub open spec fn is_white(c: char) -> bool {
    let u = c as u32;
    ||| 9 <= u <= 13
    ||| u == 32
    ||| u == 0x85
    ||| u == 0xa0
    ||| u == 0x1680
    ||| 0x2000 <= u <= 0x200a
    ||| u == 0x2028
    ||| u == 0x2029
    ||| u == 0x202f
    ||| u == 0x205f
    ||| u == 0x3000
}

/// `is_white`, computed.
pub fn is_white_char(c: char) -> (r: bool)
    ensures
        r == is_white(c),
{
    let u = c as u32;
    (9 <= u && u <= 13) || u == 32 || u == 0x85 || u == 0xa0 || u == 0x1680 || (0x2000 <= u && u
        <= 0x200a) || u == 0x2028 || u == 0x2029 || u == 0x202f || u == 0x205f || u == 0x3000
}

/// The pieces of a command line between whitespace characters, one piece
/// after each of them (so two in a row leave an empty piece between).
pub open spec fn split_white(line: Seq<char>) -> Seq<Seq<char>>
    decreases line.len(),
{
    if line.len() == 0 {
        seq![Seq::empty()]
    } else if is_white(line.last()) {
        split_white(line.drop_last()).push(Seq::empty())
    } else {
        let r = split_white(line.drop_last());
        r.update(r.len() - 1, r.last().push(line.last()))
    }
}

/// `s` without whitespace at its start.
pub open spec fn trim_start(s: Seq<char>) -> Seq<char>
    decreases s.len(),
{
    if s.len() > 0 && is_white(s[0]) {
        trim_start(s.drop_first())
    } else {
        s
    }
}

/// `s` without whitespace at its end.
pub open spec fn trim_end(s: Seq<char>) -> Seq<char>
    decreases s.len(),
{
    if s.len() > 0 && is_white(s.last()) {
        trim_end(s.drop_last())
    } else {
        s
    }
}

/// `s` without whitespace at either end.
pub open spec fn trimmed(s: Seq<char>) -> Seq<char> {
    trim_end(trim_start(s))
}

/// What the password command's exit code and output yield.
pub open spec fn password_of(code: Option<i32>, out: Seq<u8>) -> Result<Seq<char>, PasswordError> {
    if code != Some(0i32) {
        Err(PasswordError::Exited { code })
    } else if !valid_utf8(out) {
        Err(PasswordError::NotUtf8)
    } else {
        Ok(trimmed(decode_utf8(out)))
    }
}

/// `s` with whitespace taken off both ends.
pub fn trim_white(s: &str) -> (r: String)
    ensures
        r@ == trimmed(s@),
{
    let n = s.unicode_len();
    let mut i: usize = 0;
    assert(s@.subrange(0, n as int) =~= s@);
    while i < n && is_white_char(s.get_char(i))
        invariant
            i <= n,
            n == s@.len(),
            trim_start(s@) == trim_start(s@.subrange(i as int, n as int)),
        decreases n - i,
    {
        assert(s@.subrange(i as int + 1, n as int) =~= s@.subrange(i as int, n as int).drop_first());
        i = i + 1;
    }
    let mut j: usize = n;
    while j > i && is_white_char(s.get_char(j - 1))
        invariant
            i <= j <= n,
            n == s@.len(),
            trim_start(s@) == s@.subrange(i as int, n as int),
            trim_end(s@.subrange(i as int, n as int)) == trim_end(s@.subrange(i as int, j as int)),
        decreases j,
    {
        assert(s@.subrange(i as int, j as int - 1) =~= s@.subrange(i as int, j as int).drop_last());
        j = j - 1;
    }
    s.substring_char(i, j).to_owned()
}

/// Relies on `String::from_utf8`, which succeeds exactly on valid UTF-8 and then
/// holds the text that the bytes encode.
#[verifier::external_body]
fn text_from_utf8(bytes: Vec<u8>) -> (r: Option<String>)
    ensures
        r is Some <==> valid_utf8(bytes@),
        r matches Some(s) ==> s@ == decode_utf8(bytes@),
{
    String::from_utf8(bytes).ok()
}

/// Turns what the password command reported into the password: the command
/// must have exited with status zero and printed UTF-8 text, which is taken
/// without whitespace at either end.
pub fn resolve_password(code: Option<i32>, stdout: Vec<u8>) -> (r: Result<String, PasswordError>)
    ensures
        match (r, password_of(code, stdout@)) {
            (Ok(p), Ok(q)) => p@ == q,
            (Err(e), Err(f)) => e == f,
            _ => false,
        },
{
    if code != Some(0i32) {
        return Err(PasswordError::Exited { code });
    }
    match text_from_utf8(stdout) {
        Some(s) => Ok(trim_white(s.as_str())),
        None => Err(PasswordError::NotUtf8),
    }
}

impl Config {
    /// The password command cut at each whitespace character: the program
    /// first, then its arguments. No quoting is understood.
    pub fn password_argv(&self) -> (argv: Vec<String>)
        ensures
            argv@.map_values(|a: String| a@) == split_white(self.pass_cmd@),
    {
        let line = self.pass_cmd.as_str();
        let n = line.unicode_len();
        let mut argv: Vec<String> = Vec::new();
        let mut start: usize = 0;
        let mut i: usize = 0;
        assert(line@.subrange(0, 0) =~= Seq::<char>::empty());
        assert(argv@.map_values(|a: String| a@).push(line@.subrange(0, 0)) =~= seq![Seq::<char>::empty()]);
        while i < n
            invariant
                n == line@.len(),
                line@ == self.pass_cmd@,
                start <= i <= n,
                argv@.map_values(|a: String| a@).push(line@.subrange(start as int, i as int))
                    == split_white(line@.subrange(0, i as int)),
            decreases n - i,
        {
            let c = line.get_char(i);
            let ghost before = argv@.map_values(|a: String| a@);
            let ghost piece = line@.subrange(start as int, i as int);
            let ghost upto = line@.subrange(0, i as int + 1);
            assert(upto.drop_last() =~= line@.subrange(0, i as int));
            assert(upto.last() == c);
            if is_white_char(c) {
                let arg = line.substring_char(start, i).to_owned();
                argv.push(arg);
                proof {
                    assert(argv@.map_values(|a: String| a@) =~= before.push(piece));
                    assert(line@.subrange(i as int + 1, i as int + 1) =~= Seq::<char>::empty());
                }
                start = i + 1;
            } else {
                proof {
                    let ps = before.push(piece);
                    assert(line@.subrange(start as int, i as int + 1) =~= piece.push(c));
                    assert(ps.update(ps.len() - 1, ps.last().push(c))
                        =~= before.push(line@.subrange(start as int, i as int + 1)));
                }
            }
            i = i + 1;
        }
        let last = line.substring_char(start, n).to_owned();
        let ghost before = argv@.map_values(|a: String| a@);
        argv.push(last);
        proof {
            assert(argv@.map_values(|a: String| a@) =~= before.push(line@.subrange(start as int, n as int)));
            assert(line@.subrange(0, n as int) =~= line@);
        }
        argv
    }
}

} // verus!
