//! Local operations: `init` key derivation, log tail, shell completions, and
//! the event-stream framing of `watch`.
use vstd::prelude::*;
use crate::cli::{CliError, cli_error, is_cli_error};
use crate::json::{Json, decode_json, decoded_json};
use crate::ssot::{spec_member, find_member};
use crate::text::{spec_is_ascii_alnum, is_ascii_alnum, chars_of, str_eq, owned, concat2, spec_starts_with, starts_with_chars, first_index_of, lemma_first_index_bounds, find_char, copy_range, string_of};

verus! {

/// ASCII upper-casing of one character.
pub open spec fn ascii_upper(c: char) -> char {
    if 'a' <= c && c <= 'z' {
        ((c as u32) - 32) as char
    } else {
        c
    }
}

/// The ASCII letters and digits of `s`, in order.
pub open spec fn alnum_only(s: Seq<char>) -> Seq<char>
    decreases s.len(),
{
    if s.len() == 0 {
        Seq::empty()
    } else if spec_is_ascii_alnum(s.last()) {
        alnum_only(s.drop_last()).push(s.last())
    } else {
        alnum_only(s.drop_last())
    }
}

/// The project key derived from a directory name: its ASCII letters and
/// digits, upper-cased, at most eight; `PROJ` when none remain.
pub open spec fn spec_slug_to_key(s: Seq<char>) -> Seq<char> {
    let k = alnum_only(s).map_values(|c: char| ascii_upper(c));
    if k.len() == 0 {
        "PROJ"@
    } else if k.len() <= 8 {
        k
    } else {
        k.take(8)
    }
}

fn upper(c: char) -> (r: char)
    ensures
        r == ascii_upper(c),
{
    if 'a' <= c && c <= 'z' {
        let b: u8 = c as u8;
        (b - 32) as char
    } else {
        c
    }
}

/// A project key from a directory name.
pub fn slug_to_key(s: &str) -> (r: String)
    ensures
        r@ == spec_slug_to_key(s@),
{
    let v = chars_of(s);
    let mut k: Vec<char> = Vec::new();
    let mut i: usize = 0;
    while i < v.len()
        invariant
            v@ == s@,
            i <= v@.len(),
            k@ == alnum_only(v@.take(i as int)).map_values(|c: char| ascii_upper(c)),
        decreases v@.len() - i,
    {
        proof {
            assert(v@.take(i + 1).drop_last() =~= v@.take(i as int));
            assert(v@.take(i + 1).last() == v@[i as int]);
        }
        if is_ascii_alnum(v[i]) {
            k.push(upper(v[i]));
            assert(k@ =~= alnum_only(v@.take(i + 1)).map_values(|c: char| ascii_upper(c)));
        }
        i += 1;
    }
    assert(v@.take(v@.len() as int) =~= v@);
    if k.len() == 0 {
        return owned("PROJ");
    }
    let mut out = String::new();
    let mut j: usize = 0;
    while j < k.len() && j < 8
        invariant
            j <= k@.len(),
            j <= 8,
            out@ == k@.take(j as int),
        decreases k@.len() - j,
    {
        out.push(k[j]);
        j += 1;
        assert(out@ =~= k@.take(j as int));
    }
    if k.len() <= 8 {
        assert(k@.take(k@.len() as int) =~= k@);
    }
    out
}

/// `sdi init` arguments.
#[derive(Debug, Clone)]
pub struct InitArgs {
    pub key: Option<String>,
    pub name: Option<String>,
}

impl InitArgs {
    /// The project name and key: the given ones, else the directory name and
    /// the key derived from it.
    pub fn resolve(&self, basename: &str) -> (r: (String, String))
        ensures
            r.0@ == match self.name {
                Some(n) => n@,
                None => basename@,
            },
            r.1@ == match self.key {
                Some(k) => k@,
                None => spec_slug_to_key(basename@),
            },
    {
        let name = match &self.name {
            Some(n) => n.clone(),
            None => owned(basename),
        };
        let key = match &self.key {
            Some(k) => k.clone(),
            None => slug_to_key(basename),
        };
        (name, key)
    }
}

/// `sdi log` arguments.
#[derive(Debug, Clone)]
pub struct LogArgs {
    pub follow: bool,
    pub lines: usize,
}

impl LogArgs {
    /// Index of the first of the last `lines` lines of a `total`-line log.
    pub fn tail_start(&self, total: usize) -> (r: usize)
        ensures
            r == if total >= self.lines { total - self.lines } else { 0 },
    {
        if total >= self.lines {
            total - self.lines
        } else {
            0
        }
    }
}

/// The shells completions are generated for.
#[derive(Debug, Clone, Copy, PartialEq, Eq, Structural)]
pub enum CompletionShell {
    Bash,
    Zsh,
    Fish,
    PowerShell,
    Elvish,
}

/// The shell a name selects, if any (`pwsh` is PowerShell too).
pub open spec fn spec_shell(name: Seq<char>) -> Option<CompletionShell> {
    if name == "bash"@ {
        Some(CompletionShell::Bash)
    } else if name == "zsh"@ {
        Some(CompletionShell::Zsh)
    } else if name == "fish"@ {
        Some(CompletionShell::Fish)
    } else if name == "powershell"@ || name == "pwsh"@ {
        Some(CompletionShell::PowerShell)
    } else if name == "elvish"@ {
        Some(CompletionShell::Elvish)
    } else {
        None
    }
}

/// `sdi completions` arguments.
#[derive(Debug, Clone)]
pub struct CompletionsArgs {
    pub shell: String,
}

impl CompletionsArgs {
    /// The selected shell, or the usage error for an unsupported one.
    pub fn shell(&self) -> (r: Result<CompletionShell, CliError>)
        ensures
            match spec_shell(self.shell@) {
                Some(s) => r == Ok::<CompletionShell, CliError>(s),
                None => r matches Err(e) && is_cli_error(e, "unsupported shell: "@ + self.shell@),
            },
    {
        let s = self.shell.as_str();
        if str_eq(s, "bash") {
            Ok(CompletionShell::Bash)
        } else if str_eq(s, "zsh") {
            Ok(CompletionShell::Zsh)
        } else if str_eq(s, "fish") {
            Ok(CompletionShell::Fish)
        } else if str_eq(s, "powershell") || str_eq(s, "pwsh") {
            Ok(CompletionShell::PowerShell)
        } else if str_eq(s, "elvish") {
            Ok(CompletionShell::Elvish)
        } else {
            Err(cli_error(concat2("unsupported shell: ", s)))
        }
    }
}

/// Whether an event separator (`\n\n`) starts at position `i` of `buf`.
pub open spec fn separator_at(buf: Seq<u8>, i: int) -> bool {
    0 <= i && i + 1 < buf.len() && buf[i] == 10 && buf[i + 1] == 10
}

/// Events of a server-sent stream are separated by `\n\n`: the position of
/// the first separator.
pub fn find_event_boundary(buf: &[u8]) -> (r: Option<usize>)
    ensures
        match r {
            Some(i) => separator_at(buf@, i as int) && forall|j: int|
                0 <= j < i ==> !#[trigger] separator_at(buf@, j),
            None => forall|j: int| !#[trigger] separator_at(buf@, j),
        },
{
    let n = buf.len();
    if n < 2 {
        return None;
    }
    let mut i: usize = 0;
    while i + 1 < n
        invariant
            n == buf@.len(),
            n >= 2,
            i + 1 <= n,
            forall|j: int| 0 <= j < i ==> !#[trigger] separator_at(buf@, j),
        decreases n - i,
    {
        if buf[i] == 10 && buf[i + 1] == 10 {
            return Some(i);
        }
        i += 1;
    }
    None
}

/// The next event of a stream: what precedes the first separator, which is
/// taken off the buffer together with it; nothing while no separator came.
pub fn take_event(buf: &mut Vec<u8>) -> (r: Option<Vec<u8>>)
    ensures
        match r {
            Some(raw) => separator_at(old(buf)@, raw@.len() as int) && (forall|j: int|
                0 <= j < raw@.len() ==> !#[trigger] separator_at(old(buf)@, j)) && raw@ == old(buf)@.take(
                raw@.len() as int,
            ) && final(buf)@ == old(buf)@.skip(raw@.len() as int + 2),
            None => (forall|j: int| !#[trigger] separator_at(old(buf)@, j)) && final(buf)@ == old(buf)@,
        },
{
    match find_event_boundary(buf.as_slice()) {
        None => None,
        Some(pos) => {
            let n = buf.len();
            let mut raw: Vec<u8> = Vec::new();
            let mut i: usize = 0;
            while i < pos
                invariant
                    i <= pos,
                    pos + 1 < n,
                    n == buf@.len(),
                    raw@ == buf@.take(i as int),
                decreases pos - i,
            {
                raw.push(buf[i]);
                i += 1;
                assert(raw@ =~= buf@.take(i as int));
            }
            let mut rest: Vec<u8> = Vec::new();
            let mut j: usize = pos + 2;
            while j < n
                invariant
                    pos + 2 <= j <= n,
                    n == buf@.len(),
                    rest@ == buf@.subrange(pos + 2, j as int),
                decreases n - j,
            {
                rest.push(buf[j]);
                j += 1;
                assert(rest@ =~= buf@.subrange(pos + 2, j as int));
            }
            assert(rest@ =~= buf@.skip(pos + 2));
            *buf = rest;
            Some(raw)
        },
    }
}

/// A line without the `\r` of a `\r\n` ending.
pub open spec fn strip_cr(l: Seq<char>) -> Seq<char> {
    if l.len() > 0 && l.last() == '\r' {
        l.drop_last()
    } else {
        l
    }
}

/// The lines of a text (`str::lines`): split at each `\n`, a `\r` before it
/// dropped; a final line ending adds no empty line.
pub open spec fn lines_of(s: Seq<char>) -> Seq<Seq<char>>
    decreases s.len(),
{
    if s.len() == 0 {
        Seq::empty()
    } else {
        match first_index_of(s, '\n') {
            None => seq![s],
            Some(i) => {
                proof {
                    lemma_first_index_bounds(s, '\n');
                }
                seq![strip_cr(s.take(i))] + lines_of(s.skip(i + 1))
            },
        }
    }
}

/// What follows `data: ` on the last line of `ls` that starts with it.
pub open spec fn last_data(ls: Seq<Seq<char>>) -> Option<Seq<char>>
    decreases ls.len(),
{
    if ls.len() == 0 {
        None
    } else if spec_starts_with(ls.last(), "data: "@) {
        Some(ls.last().skip("data: "@.len() as int))
    } else {
        last_data(ls.drop_last())
    }
}

/// The view of an optional string.
pub open spec fn opt_view(o: Option<String>) -> Option<Seq<char>> {
    match o {
        Some(s) => Some(s@),
        None => None,
    }
}

/// The payload of an event: the text after `data: ` on its last line that
/// starts so.
pub fn event_data(text: &str) -> (r: Option<String>)
    ensures
        opt_view(r) == last_data(lines_of(text@)),
{
    let v = chars_of(text);
    let prefix = chars_of("data: ");
    let n = v.len();
    let mut p: usize = 0;
    let mut found: Option<String> = None;
    let ghost mut done: Seq<Seq<char>> = Seq::empty();
    assert(v@.skip(0) =~= v@);
    while p < n
        invariant
            p <= n,
            n == v@.len(),
            v@ == text@,
            prefix@ == "data: "@,
            lines_of(v@) == done + lines_of(v@.skip(p as int)),
            opt_view(found) == last_data(done),
        decreases n - p,
    {
        let rest = copy_range(&v, p, n);
        assert(rest@ =~= v@.skip(p as int));
        let (end, next) = match find_char(&rest, '\n') {
            Some(i) => {
                proof {
                    lemma_first_index_bounds(rest@, '\n');
                }
                (p + i, p + i + 1)
            },
            None => (n, n),
        };
        let raw = copy_range(&v, p, end);
        let line = if end < n && raw.len() > 0 && raw[raw.len() - 1] == '\r' {
            copy_range(&raw, 0, raw.len() - 1)
        } else {
            raw
        };
        proof {
            if end < n {
                assert(v@.subrange(p as int, end as int) =~= rest@.take(end - p));
                assert(v@.skip(next as int) =~= rest@.skip(end - p + 1));
                assert(line@ == strip_cr(rest@.take(end - p)));
            } else {
                assert(line@ =~= rest@);
                assert(v@.skip(next as int) =~= Seq::<char>::empty());
            }
            assert(lines_of(rest@) == seq![line@] + lines_of(v@.skip(next as int)));
            assert(done.push(line@) + lines_of(v@.skip(next as int)) =~= done + lines_of(rest@));
            assert(done.push(line@).drop_last() =~= done);
        }
        if starts_with_chars(&line, &prefix) {
            let d = string_of(&line, prefix.len(), line.len());
            found = Some(d);
        }
        proof {
            done = done.push(line@);
        }
        p = next;
    }
    proof {
        assert(v@.skip(n as int) =~= Seq::<char>::empty());
        assert(done + Seq::<Seq<char>>::empty() =~= done);
    }
    found
}

/// The `kind` of a decoded event: the text of its `kind` member where the
/// event is an object whose `kind` is a string, else empty.
pub open spec fn json_kind(j: Json) -> Seq<char> {
    match j {
        Json::Object(m) => match spec_member(m@, "kind"@) {
            Some(Json::Str(k)) => k@,
            _ => Seq::empty(),
        },
        _ => Seq::empty(),
    }
}

/// The kind of an event whose payload is `data`: `None` when the payload
/// does not decode as JSON (such an event is skipped), else its `kind` text
/// (empty where it has none).
pub fn event_kind(data: &str) -> (r: Option<String>)
    ensures
        match decoded_json(data@) {
            Err(_) => r is None,
            Ok(j) => r matches Some(k) && k@ == json_kind(j),
        },
{
    match decode_json(data) {
        Err(_) => None,
        Ok(Json::Object(m)) => match find_member(&m, "kind") {
            Some(i) => match &m[i].1 {
                Json::Str(k) => Some(owned(k.as_str())),
                _ => Some(String::new()),
            },
            None => Some(String::new()),
        },
        Ok(_) => Some(String::new()),
    }
}

/// `sdi watch` arguments.
#[derive(Debug, Clone)]
pub struct WatchArgs {
    pub kind: Option<String>,
    pub count: usize,
}

impl WatchArgs {
    /// An event of kind `kind` is shown when no filter is set or the kind
    /// starts with the filter.
    pub fn accepts(&self, kind: &str) -> (r: bool)
        ensures
            r == match self.kind {
                Some(p) => spec_starts_with(kind@, p@),
                None => true,
            },
    {
        match &self.kind {
            Some(p) => {
                let k = chars_of(kind);
                let pv = chars_of(p.as_str());
                starts_with_chars(&k, &pv)
            },
            None => true,
        }
    }

    /// The stream stops once `count` events were shown (0 = never).
    pub fn is_done(&self, emitted: usize) -> (r: bool)
        ensures
            r == (self.count > 0 && emitted >= self.count),
    {
        self.count > 0 && emitted >= self.count
    }
}

} // verus!
