//! Command-line parsing: `<program> [--runs N] <filename>`.
//!
//! Arguments are handed over as byte strings; the parser scans them exactly
//! as the original grammar does, left to right from the argument after the
//! program name: a literal `--runs` takes the following argument as a
//! positive run count, any other argument starting with `--` is unknown, and
//! anything else is the (single) filename.

use vstd::prelude::*;

verus! {

/// Why the command line was rejected; every rejection exits with code 1.
#[derive(Clone, Copy, Debug, PartialEq, Eq, Structural)]
pub enum UsageError {
    /// `--runs` was the last argument.
    MissingRunsValue,
    /// The value after `--runs` is not a number that fits the machine.
    RunsNotNumber,
    /// The value after `--runs` is zero; at least one run is required.
    RunsZero,
    /// An argument starting with `--` other than `--runs`, at the given
    /// position, so the message can name it.
    UnknownOption(usize),
    /// More than one filename was given.
    MultipleFilenames,
    /// No filename was given.
    MissingFilename,
}

/// A parsed command line: which argument is the filename, and how many timed
/// runs each codec performs per chunk.
#[derive(Clone, Copy, Debug, PartialEq, Eq, Structural)]
pub struct CliConfig {
    pub filename_index: usize,
    pub num_runs: usize,
}

/// The bytes of the literal `--runs`.
pub open spec fn runs_flag() -> Seq<u8> {
    seq![45u8, 45u8, 114u8, 117u8, 110u8, 115u8]
}

/// An argument that names an option rather than a file.
pub open spec fn is_option_like(a: Seq<u8>) -> bool {
    a.len() >= 2 && a[0] == 45u8 && a[1] == 45u8
}

pub open spec fn is_ascii_digit(b: u8) -> bool {
    48 <= b <= 57
}

/// The value of a string of decimal digits.
pub open spec fn digits_value(s: Seq<u8>) -> nat
    decreases s.len(),
{
    if s.len() == 0 {
        0
    } else {
        (digits_value(s.drop_last()) * 10 + (s.last() - 48)) as nat
    }
}

/// The digits of a run-count argument: a single leading `+` is accepted,
/// as the machine's unsigned parser does.
pub open spec fn numeric_body(s: Seq<u8>) -> Seq<u8> {
    if s.len() >= 1 && s[0] == 43u8 {
        s.drop_first()
    } else {
        s
    }
}

/// A run-count argument that parses: at least one digit, digits only, and a
/// value that fits the machine.
pub open spec fn is_valid_count(s: Seq<u8>) -> bool {
    &&& numeric_body(s).len() >= 1
    &&& forall|i: int|
        0 <= i < numeric_body(s).len() ==> is_ascii_digit(#[trigger] numeric_body(s)[i])
    &&& digits_value(numeric_body(s)) <= usize::MAX
}

pub open spec fn count_value(s: Seq<u8>) -> nat {
    digits_value(numeric_body(s))
}

/// The left-to-right scan of the argument list, from position `i`, with the
/// filename seen so far (by position) and the run count in force.
pub open spec fn spec_parse(args: Seq<Seq<u8>>, i: int, file: Option<int>, runs: nat) -> Result<
    (int, nat),
    UsageError,
>
    decreases args.len() - i,
{
    if i >= args.len() {
        match file {
            Some(f) => Ok((f, runs)),
            None => Err(UsageError::MissingFilename),
        }
    } else {
        let a = args[i];
        if a == runs_flag() {
            if i + 1 >= args.len() {
                Err(UsageError::MissingRunsValue)
            } else if !is_valid_count(args[i + 1]) {
                Err(UsageError::RunsNotNumber)
            } else if count_value(args[i + 1]) == 0 {
                Err(UsageError::RunsZero)
            } else {
                spec_parse(args, i + 2, file, count_value(args[i + 1]))
            }
        } else if is_option_like(a) {
            Err(UsageError::UnknownOption(i as usize))
        } else if file is Some {
            Err(UsageError::MultipleFilenames)
        } else {
            spec_parse(args, i + 1, Some(i), runs)
        }
    }
}

/// A zero run count is always rejected: whatever the arguments, a scan that
/// starts with a positive run count in force never yields a configuration
/// with zero runs.
pub proof fn lemma_parse_runs_positive(args: Seq<Seq<u8>>, i: int, file: Option<int>, runs: nat)
    requires
        runs >= 1,
    ensures
        spec_parse(args, i, file, runs) matches Ok(c) ==> c.1 >= 1,
    decreases args.len() - i,
{
    if i < args.len() {
        let a = args[i];
        if a == runs_flag() {
            if i + 1 < args.len() && is_valid_count(args[i + 1]) && count_value(args[i + 1])
                != 0 {
                lemma_parse_runs_positive(args, i + 2, file, count_value(args[i + 1]));
            }
        } else if !is_option_like(a) && file is None {
            lemma_parse_runs_positive(args, i + 1, Some(i), runs);
        }
    }
}

/// Appending digits never shrinks the value.
proof fn lemma_digits_value_prefix(s: Seq<u8>, j: int)
    requires
        0 <= j <= s.len(),
        forall|k: int| 0 <= k < s.len() ==> is_ascii_digit(#[trigger] s[k]),
    ensures
        digits_value(s.take(j)) <= digits_value(s),
    decreases s.len() - j,
{
    if j < s.len() {
        lemma_digits_value_prefix(s, j + 1);
        assert(s.take(j + 1).drop_last() =~= s.take(j));
        assert(s.take(j + 1).last() == s[j]);
        assert(digits_value(s.take(j + 1)) == digits_value(s.take(j)) * 10 + (s[j] - 48));
    } else {
        assert(s.take(j) =~= s);
    }
}

fn is_runs_flag(a: &Vec<u8>) -> (r: bool)
    ensures
        r == (a@ == runs_flag()),
{
    if a.len() != 6 {
        return false;
    }
    let r = a[0] == 45 && a[1] == 45 && a[2] == 114 && a[3] == 117 && a[4] == 110 && a[5] == 115;
    proof {
        if r {
            assert(a@ =~= runs_flag());
        }
    }
    r
}

fn starts_with_dashes(a: &Vec<u8>) -> (r: bool)
    ensures
        r == is_option_like(a@),
{
    a.len() >= 2 && a[0] == 45 && a[1] == 45
}

/// Parses a run-count argument exactly as the machine's unsigned decimal
/// parser does: `None` when a non-digit appears, no digit appears, or the
/// value does not fit.
#[verifier::loop_isolation(false)]
fn parse_count(a: &Vec<u8>) -> (r: Option<usize>)
    ensures
        r is Some <==> is_valid_count(a@),
        r matches Some(v) ==> v == count_value(a@),
{
    let start: usize = if a.len() >= 1 && a[0] == 43 {
        1
    } else {
        0
    };
    proof {
        if start == 1 {
            assert(numeric_body(a@) =~= a@.drop_first());
        } else {
            assert(numeric_body(a@) =~= a@);
        }
    }
    let ghost body = numeric_body(a@);
    if a.len() == start {
        return None;
    }
    let mut value: usize = 0;
    let mut i: usize = start;
    while i < a.len()
        invariant
            start <= i <= a@.len(),
            body == numeric_body(a@),
            body.len() == a@.len() - start,
            forall|k: int| 0 <= k < body.len() ==> body[k] == a@[k + start],
            forall|k: int| 0 <= k < i - start ==> is_ascii_digit(#[trigger] body[k]),
            value == digits_value(body.take(i - start)),
        decreases a@.len() - i,
    {
        let b = a[i];
        if b < 48 || b > 57 {
            proof {
                assert(body[i - start] == a@[i as int]);
                assert(!is_ascii_digit(numeric_body(a@)[i - start]));
            }
            return None;
        }
        let d = (b - 48) as usize;
        proof {
            assert(body.take(i - start + 1).drop_last() =~= body.take(i - start));
            assert(body.take(i - start + 1).last() == body[i - start]);
        }
        if value > (usize::MAX - d) / 10 {
            proof {
                if is_valid_count(a@) {
                    lemma_digits_value_prefix(body, i - start + 1);
                    assert(digits_value(body.take(i - start + 1)) == value * 10 + d);
                    vstd::arithmetic::div_mod::lemma_fundamental_div_mod(
                        (usize::MAX - d) as int,
                        10,
                    );
                    assert(value * 10 + d > usize::MAX);
                }
            }
            return None;
        }
        value = value * 10 + d;
        i = i + 1;
    }
    proof {
        assert(body.take(a@.len() - start) =~= body);
    }
    Some(value)
}

/// Parses the whole argument list (the program name at position 0 included)
/// and yields either the filename's position with the run count in force, or
/// the usage error that the scan stops on.
#[verifier::loop_isolation(false)]
pub fn parse_args(args: &Vec<Vec<u8>>) -> (r: Result<CliConfig, UsageError>)
    ensures
        r matches Ok(c) ==> {
            &&& spec_parse(args.deep_view(), 1, None, 1) == Ok::<(int, nat), UsageError>(
                (c.filename_index as int, c.num_runs as nat),
            )
            &&& c.num_runs >= 1
            &&& c.filename_index < args@.len()
        },
        r matches Err(e) ==> spec_parse(args.deep_view(), 1, None, 1) == Err::<
            (int, nat),
            UsageError,
        >(e),
{
    let ghost v = args.deep_view();
    proof {
        assert(v.len() == args@.len());
        assert(forall|k: int| 0 <= k < v.len() ==> v[k] == args@[k]@);
    }
    let mut filename: Option<usize> = None;
    let mut num_runs: usize = 1;
    let mut i: usize = 1;
    while i < args.len()
        invariant
            1 <= i,
            num_runs >= 1,
            filename matches Some(f) ==> f < args@.len(),
            spec_parse(v, 1, None, 1) == spec_parse(
                v,
                i as int,
                match filename {
                    Some(f) => Some(f as int),
                    None => None,
                },
                num_runs as nat,
            ),
        decreases args@.len() - i,
    {
        let arg = &args[i];
        proof {
            assert(v[i as int] == args@[i as int]@);
        }
        if is_runs_flag(arg) {
            if i + 1 >= args.len() {
                return Err(UsageError::MissingRunsValue);
            }
            let value_arg = &args[i + 1];
            proof {
                assert(v[i + 1] == args@[i + 1]@);
            }
            match parse_count(value_arg) {
                None => {
                    return Err(UsageError::RunsNotNumber);
                },
                Some(value) => {
                    if value == 0 {
                        return Err(UsageError::RunsZero);
                    }
                    num_runs = value;
                    i = i + 2;
                },
            }
        } else if starts_with_dashes(arg) {
            return Err(UsageError::UnknownOption(i));
        } else {
            match filename {
                Some(_) => {
                    return Err(UsageError::MultipleFilenames);
                },
                None => {
                    filename = Some(i);
                    i = i + 1;
                },
            }
        }
    }
    match filename {
        Some(f) => Ok(CliConfig { filename_index: f, num_runs }),
        None => Err(UsageError::MissingFilename),
    }
}

} // verus!
