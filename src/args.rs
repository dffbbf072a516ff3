use vstd::prelude::*;
use vstd::string::*;

verus! {

/// Why the command line cannot drive the supervisor.
#[derive(Debug, Clone, Copy, PartialEq, Eq, Structural)]
pub enum UsageError {
    /// No `--parent-pid` flag followed by a value was given.
    MissingParentPid,
    /// The value after `--parent-pid` is not a decimal `u32`.
    InvalidParentPid,
}

/// The flag that asks for the dependency bootstrap.
pub open spec fn init_flag() -> Seq<char> {
    "--init"@
}

/// The flag whose value names the parent process.
pub open spec fn parent_pid_flag() -> Seq<char> {
    "--parent-pid"@
}

/// The command-line arguments as character sequences.
pub open spec fn arg_views(args: Seq<String>) -> Seq<Seq<char>> {
    args.map_values(|s: String| s@)
}

pub open spec fn is_decimal_digit(c: char) -> bool {
    '0' <= c && c <= '9'
}

pub open spec fn digit_value(c: char) -> int {
    c as int - '0' as int
}

pub open spec fn all_digits(s: Seq<char>) -> bool {
    forall|i: int| 0 <= i < s.len() ==> is_decimal_digit(#[trigger] s[i])
}

/// The number that a string of decimal digits denotes.
pub open spec fn digits_value(s: Seq<char>) -> int
    decreases s.len(),
{
    if s.len() == 0 {
        0
    } else {
        digits_value(s.drop_last()) * 10 + digit_value(s.last())
    }
}

/// The digits of an unsigned number, after an optional leading `+`.
pub open spec fn unsigned_digits(s: Seq<char>) -> Seq<char> {
    if s.len() > 0 && s[0] == '+' {
        s.drop_first()
    } else {
        s
    }
}

/// What `u32`'s `from_str` yields: an optional `+`, then at least one
/// decimal digit, denoting a value that fits in 32 bits.
pub open spec fn parse_u32_spec(s: Seq<char>) -> Option<u32> {
    let d = unsigned_digits(s);
    if d.len() > 0 && all_digits(d) && digits_value(d) <= u32::MAX {
        Some(digits_value(d) as u32)
    } else {
        None
    }
}

/// Whether the flag `--init` is among the arguments.
pub open spec fn has_init_flag(args: Seq<Seq<char>>) -> bool {
    exists|i: int| 0 <= i < args.len() && args[i] == init_flag()
}

/// The argument after the first `--parent-pid` that has one.
pub open spec fn parent_pid_arg(args: Seq<Seq<char>>) -> Option<Seq<char>>
    decreases args.len(),
{
    if args.len() < 2 {
        None
    } else if args[0] == parent_pid_flag() {
        Some(args[1])
    } else {
        parent_pid_arg(args.drop_first())
    }
}

/// The parent process id that the arguments give, or why they give none:
/// a process id is a positive number, so `0` is no id.
pub open spec fn parent_pid_spec(args: Seq<Seq<char>>) -> Result<u32, UsageError> {
    match parent_pid_arg(args) {
        None => Err(UsageError::MissingParentPid),
        Some(v) => match parse_u32_spec(v) {
            Some(n) => if n >= 1 {
                Ok(n)
            } else {
                Err(UsageError::InvalidParentPid)
            },
            None => Err(UsageError::InvalidParentPid),
        },
    }
}

/// Without any `--parent-pid` among them, the arguments hold no value for it.
pub proof fn lemma_parent_pid_arg_needs_flag(args: Seq<Seq<char>>)
    requires
        forall|i: int| 0 <= i < args.len() ==> args[i] != parent_pid_flag(),
    ensures
        parent_pid_arg(args) is None,
    decreases args.len(),
{
    if args.len() >= 2 {
        let rest = args.drop_first();
        assert(args[0] != parent_pid_flag());
        assert forall|i: int| 0 <= i < rest.len() implies rest[i] != parent_pid_flag() by {
            assert(rest[i] == args[i + 1]);
        }
        lemma_parent_pid_arg_needs_flag(rest);
    }
}

/// Where the first `--parent-pid` stands at `i` and is followed by a
/// positive decimal id, that id is read, whatever the other arguments are.
pub proof fn lemma_valid_parent_pid_is_read(args: Seq<Seq<char>>, i: int, id: u32)
    requires
        0 <= i,
        i + 1 < args.len(),
        args[i] == parent_pid_flag(),
        forall|j: int| 0 <= j < i ==> args[j] != parent_pid_flag(),
        parse_u32_spec(args[i + 1]) == Some(id),
        id >= 1,
    ensures
        parent_pid_spec(args) == Ok::<u32, UsageError>(id),
{
    lemma_first_flag_value(args, i);
}

proof fn lemma_first_flag_value(args: Seq<Seq<char>>, i: int)
    requires
        0 <= i,
        i + 1 < args.len(),
        args[i] == parent_pid_flag(),
        forall|j: int| 0 <= j < i ==> args[j] != parent_pid_flag(),
    ensures
        parent_pid_arg(args) == Some(args[i + 1]),
    decreases i,
{
    if i > 0 {
        let rest = args.drop_first();
        assert(args[0] != parent_pid_flag());
        assert forall|j: int| 0 <= j < i - 1 implies rest[j] != parent_pid_flag() by {
            assert(rest[j] == args[j + 1]);
        }
        assert(rest[i - 1] == args[i]);
        assert(rest[i] == args[i + 1]);
        lemma_first_flag_value(rest, i - 1);
    }
}

proof fn lemma_digits_value_nonneg(s: Seq<char>)
    requires
        all_digits(s),
    ensures
        digits_value(s) >= 0,
    decreases s.len(),
{
    if s.len() > 0 {
        assert(all_digits(s.drop_last()));
        lemma_digits_value_nonneg(s.drop_last());
    }
}

/// Parses a decimal `u32` as `u32`'s `from_str` does.
pub fn parse_u32(s: &str) -> (r: Option<u32>)
    ensures
        r == parse_u32_spec(s@),
{
    let n = s.unicode_len();
    let mut start: usize = 0;
    if n > 0 && s.get_char(0) == '+' {
        start = 1;
    }
    let ghost d = unsigned_digits(s@);
    assert(d =~= s@.subrange(start as int, n as int));
    if start == n {
        return None;
    }
    let mut acc: u64 = 0;
    let mut overflow: bool = false;
    let mut i: usize = start;
    while i < n
        invariant
            start <= i <= n,
            n == s@.len(),
            d == s@.subrange(start as int, n as int),
            d == unsigned_digits(s@),
            all_digits(s@.subrange(start as int, i as int)),
            !overflow ==> acc as int == digits_value(s@.subrange(start as int, i as int)),
            !overflow ==> acc <= u32::MAX,
            overflow ==> digits_value(s@.subrange(start as int, i as int)) > u32::MAX,
        decreases n - i,
    {
        let c = s.get_char(i);
        let ghost prev = s@.subrange(start as int, i as int);
        let ghost next = s@.subrange(start as int, i + 1);
        assert(next.drop_last() =~= prev);
        assert(next.last() == c);
        if !('0' <= c && c <= '9') {
            assert(d[i - start] == c);
            assert(!is_decimal_digit(d[i - start]));
            assert(!all_digits(d));
            return None;
        }
        assert(all_digits(next)) by {
            assert forall|k: int| 0 <= k < next.len() implies is_decimal_digit(#[trigger] next[k]) by {
                if k < prev.len() {
                    assert(next[k] == prev[k]);
                }
            }
        }
        let dv: u64 = (c as u64) - ('0' as u64);
        if !overflow {
            let v: u64 = acc * 10 + dv;
            if v > u32::MAX as u64 {
                overflow = true;
            } else {
                acc = v;
            }
        } else {
            proof { lemma_digits_value_nonneg(prev); }
        }
        i = i + 1;
    }
    assert(s@.subrange(start as int, n as int) =~= d);
    if overflow {
        None
    } else {
        Some(acc as u32)
    }
}

/// Whether the supervisor was asked to bootstrap its dependency first.
pub fn is_init(args: &Vec<String>) -> (r: bool)
    ensures
        r == has_init_flag(arg_views(args@)),
{
    let flag = String::from_str("--init");
    let mut i: usize = 0;
    while i < args.len()
        invariant
            i <= args@.len(),
            flag@ == init_flag(),
            forall|j: int| 0 <= j < i ==> arg_views(args@)[j] != init_flag(),
        decreases args@.len() - i,
    {
        if args[i] == flag {
            assert(arg_views(args@)[i as int] == init_flag());
            return true;
        }
        i = i + 1;
    }
    false
}

/// The id of the process whose liveness gates the supervisor, read from
/// the value after the first `--parent-pid` flag that has one.
pub fn get_parent_process_id_from_args(args: &Vec<String>) -> (r: Result<u32, UsageError>)
    ensures
        r == parent_pid_spec(arg_views(args@)),
        r matches Ok(v) ==> v >= 1,
{
    let ghost views = arg_views(args@);
    let flag = String::from_str("--parent-pid");
    let mut i: usize = 0;
    assert(views.subrange(0, views.len() as int) =~= views);
    while i < args.len() && args.len() - i >= 2
        invariant
            i <= args@.len(),
            views == arg_views(args@),
            flag@ == parent_pid_flag(),
            parent_pid_arg(views) == parent_pid_arg(views.subrange(i as int, views.len() as int)),
        decreases args@.len() - i,
    {
        let ghost rest = views.subrange(i as int, views.len() as int);
        assert(rest.drop_first() =~= views.subrange(i + 1, views.len() as int));
        if args[i] == flag {
            assert(rest[0] == views[i as int]);
            assert(rest[1] == views[i + 1]);
            return match parse_u32(args[i + 1].as_str()) {
                Some(n) => if n >= 1 {
                    Ok(n)
                } else {
                    Err(UsageError::InvalidParentPid)
                },
                None => Err(UsageError::InvalidParentPid),
            };
        }
        i = i + 1;
    }
    assert(views.subrange(i as int, views.len() as int).len() < 2);
    Err(UsageError::MissingParentPid)
}

} // verus!
