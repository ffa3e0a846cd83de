//! The command line of the updater that replaces OBS after a download.
use vstd::prelude::*;

use crate::utils::decimal::{format_u64, spec_decimal};
use crate::utils::text::{push_char, spec_texts};

verus! {

/// `s` with every double quote preceded by a backtick, PowerShell's escape.
pub open spec fn spec_escape_quotes(s: Seq<char>) -> Seq<char>
    decreases s.len(),
{
    if s.len() == 0 {
        Seq::<char>::empty()
    } else if s.last() == '"' {
        spec_escape_quotes(s.drop_last()) + seq!['`', '"']
    } else {
        spec_escape_quotes(s.drop_last()).push(s.last())
    }
}

/// The pieces joined with `sep` between them, as `[String]::join` does.
pub open spec fn spec_join(parts: Seq<Seq<char>>, sep: char) -> Seq<char>
    decreases parts.len(),
{
    if parts.len() == 0 {
        Seq::<char>::empty()
    } else if parts.len() == 1 {
        parts[0]
    } else {
        spec_join(parts.drop_last(), sep).push(sep) + parts.last()
    }
}

/// The arguments of a process without its first one, the binary.
pub open spec fn spec_app_args(process_args: Seq<String>) -> Seq<Seq<char>> {
    if process_args.len() == 0 {
        Seq::<Seq<char>>::empty()
    } else {
        spec_texts(process_args).skip(1)
    }
}

/// The argument list that the updater receives for the application's own
/// arguments: joined by commas, quotes escaped, in parentheses.
pub open spec fn spec_argument_list(args: Seq<Seq<char>>) -> Seq<char> {
    seq!['('] + spec_escape_quotes(spec_join(args, ',')) + seq![')']
}

/// The arguments with which PowerShell is started to run the updater script:
/// the script, the id of the running process, its binary, `-restart` when the
/// application should start again, and the application's arguments when there
/// are any.
pub open spec fn spec_updater_args(
    script: Seq<char>,
    pid: u32,
    binary: Seq<char>,
    restart: bool,
    app_args: Seq<Seq<char>>,
) -> Seq<Seq<char>> {
    let base = seq![
        "-ExecutionPolicy"@,
        "Bypass"@,
        "-NoProfile"@,
        "-WindowStyle"@,
        "Hidden"@,
        "-File"@,
        script,
        "-processPid"@,
        spec_decimal(pid as nat),
        "-binary"@,
        binary,
    ];
    let with_restart = if restart {
        base.push("-restart"@)
    } else {
        base
    };
    if app_args.len() == 0 {
        with_restart
    } else {
        with_restart.push("-arguments"@).push(spec_argument_list(app_args))
    }
}

/// Escaping works piece by piece.
pub proof fn lemma_escape_concat(a: Seq<char>, b: Seq<char>)
    ensures
        spec_escape_quotes(a + b) == spec_escape_quotes(a) + spec_escape_quotes(b),
    decreases b.len(),
{
    if b.len() == 0 {
        assert(a + b =~= a);
        assert(spec_escape_quotes(a) + spec_escape_quotes(b) =~= spec_escape_quotes(a));
    } else {
        lemma_escape_concat(a, b.drop_last());
        assert((a + b).drop_last() =~= a + b.drop_last());
        assert((a + b).last() == b.last());
        if b.last() == '"' {
            assert(spec_escape_quotes(a) + spec_escape_quotes(b) =~= spec_escape_quotes(a)
                + spec_escape_quotes(b.drop_last()) + seq!['`', '"']);
        } else {
            assert(spec_escape_quotes(a) + spec_escape_quotes(b) =~= (spec_escape_quotes(a)
                + spec_escape_quotes(b.drop_last())).push(b.last()));
        }
    }
}

/// Appends `t` to `out` with every double quote escaped.
fn append_escaped(out: &mut String, t: &str)
    ensures
        final(out)@ == old(out)@ + spec_escape_quotes(t@),
{
    let n = t.unicode_len();
    let mut j: usize = 0;
    let ghost base = out@;
    while j < n
        invariant
            n == t@.len(),
            j <= n,
            out@ == base + spec_escape_quotes(t@.take(j as int)),
        decreases n - j,
    {
        let c = t.get_char(j);
        let ghost pre = t@.take(j as int);
        assert(t@.take(j as int + 1).drop_last() =~= pre);
        assert(t@.take(j as int + 1).last() == c);
        if c == '"' {
            push_char(out, '`');
            push_char(out, '"');
            assert(out@ =~= base + spec_escape_quotes(t@.take(j as int + 1)));
        } else {
            push_char(out, c);
            assert(out@ =~= base + spec_escape_quotes(t@.take(j as int + 1)));
        }
        j = j + 1;
    }
    assert(t@.take(n as int) =~= t@);
}

/// Builds the argument list for the application's arguments `args[start..]`.
pub fn argument_list(args: &Vec<String>, start: usize) -> (r: String)
    requires
        start <= args@.len(),
    ensures
        r@ == spec_argument_list(spec_texts(args@).skip(start as int)),
{
    let ghost texts = spec_texts(args@);
    let mut out = String::new();
    push_char(&mut out, '(');
    let mut i: usize = start;
    while i < args.len()
        invariant
            start <= i <= args@.len(),
            texts == spec_texts(args@),
            out@ == seq!['('] + spec_escape_quotes(spec_join(texts.subrange(start as int, i as int), ',')),
        decreases args@.len() - i,
    {
        let ghost prev = texts.subrange(start as int, i as int);
        let ghost next = texts.subrange(start as int, i as int + 1);
        assert(next.drop_last() =~= prev);
        assert(next.last() == args@[i as int]@);
        if i == start {
            assert(prev =~= Seq::<Seq<char>>::empty());
            assert(spec_escape_quotes(spec_join(prev, ',')) =~= Seq::<char>::empty()) by {
                assert(spec_join(prev, ',') =~= Seq::<char>::empty());
            }
            append_escaped(&mut out, args[i].as_str());
            assert(spec_join(next, ',') == next[0]);
            assert(out@ =~= seq!['('] + spec_escape_quotes(spec_join(next, ',')));
        } else {
            push_char(&mut out, ',');
            append_escaped(&mut out, args[i].as_str());
            proof {
                let j = spec_join(prev, ',');
                lemma_escape_concat(j.push(','), args@[i as int]@);
                lemma_escape_concat(j, seq![',']);
                assert(j + seq![','] =~= j.push(','));
                assert(seq![','].drop_last() =~= Seq::<char>::empty());
                assert(spec_escape_quotes(Seq::<char>::empty()) =~= Seq::<char>::empty());
                assert(spec_escape_quotes(seq![',']) =~= seq![',']);
                assert(spec_join(next, ',') == j.push(',') + args@[i as int]@);
                assert(out@ =~= seq!['('] + spec_escape_quotes(spec_join(next, ',')));
            }
        }
        i = i + 1;
    }
    push_char(&mut out, ')');
    assert(texts.subrange(start as int, args@.len() as int) =~= texts.skip(start as int));
    out
}

/// Builds the arguments with which PowerShell runs the updater script.
/// `process_args` are the arguments of the running process, its binary first;
/// that first one is left out.
pub fn updater_command_args(
    script: &str,
    pid: u32,
    binary: &str,
    restart: bool,
    process_args: &Vec<String>,
) -> (r: Vec<String>)
    ensures
        r@.len() == spec_updater_args(
            script@,
            pid,
            binary@,
            restart,
            spec_app_args(process_args@),
        ).len(),
        forall|i: int|
            0 <= i < r@.len() ==> #[trigger] r@[i]@ == spec_updater_args(
                script@,
                pid,
                binary@,
                restart,
                spec_app_args(process_args@),
            )[i],
{
    let ghost app_args = spec_app_args(process_args@);
    let ghost expected = spec_updater_args(script@, pid, binary@, restart, app_args);
    let mut r: Vec<String> = Vec::new();
    r.push("-ExecutionPolicy".to_owned());
    r.push("Bypass".to_owned());
    r.push("-NoProfile".to_owned());
    r.push("-WindowStyle".to_owned());
    r.push("Hidden".to_owned());
    r.push("-File".to_owned());
    r.push(script.to_owned());
    r.push("-processPid".to_owned());
    r.push(format_u64(pid as u64));
    r.push("-binary".to_owned());
    r.push(binary.to_owned());
    if restart {
        r.push("-restart".to_owned());
    }
    if process_args.len() > 1 {
        r.push("-arguments".to_owned());
        r.push(argument_list(process_args, 1));
    }
    assert(app_args.len() == 0 <==> process_args@.len() <= 1);
    assert(r@.len() == expected.len());
    r
}

} // verus!
