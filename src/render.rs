use vstd::prelude::*;
use vstd::string::*;

verus! {

/// Whether a token holds a double-quote character.
pub open spec fn has_quote(s: Seq<char>) -> bool {
    s.contains('"')
}

/// The escaped, quoted form that Rust's `Debug` formatting gives a string.
pub uninterp spec fn debug_quoted(s: Seq<char>) -> Seq<char>;

/// Relies on `<str as Debug>::fmt`: the escaped form depends on the characters
/// alone.
#[verifier::external_body]
fn debug_quote(s: &str) -> (r: String)
    ensures
        r@ == debug_quoted(s@),
{
    format!("{:?}", s)
}

/// How one token of a command line is displayed: escaped and quoted when it
/// holds a double quote, as it is otherwise.
pub open spec fn render_token(s: Seq<char>) -> Seq<char> {
    if has_quote(s) {
        debug_quoted(s)
    } else {
        s
    }
}

/// The arguments, each rendered and preceded by a single space.
pub open spec fn render_args(args: Seq<Seq<char>>) -> Seq<char>
    decreases args.len(),
{
    if args.len() == 0 {
        Seq::empty()
    } else {
        render_args(args.drop_last()) + " "@ + render_token(args.last())
    }
}

/// The display form of a command: the program, then each argument after a
/// single space.
pub open spec fn render_command(program: Seq<char>, args: Seq<Seq<char>>) -> Seq<char> {
    render_token(program) + render_args(args)
}

/// The views of a list of strings.
pub open spec fn views(args: Seq<String>) -> Seq<Seq<char>> {
    args.map_values(|a: String| a@)
}

/// Whether `s` holds a double quote.
pub fn contains_quote(s: &str) -> (r: bool)
    ensures
        r == has_quote(s@),
{
    let n = s.unicode_len();
    let mut i: usize = 0;
    while i < n
        invariant
            n == s@.len(),
            i <= n,
            forall|j: int| 0 <= j < i ==> s@[j] != '"',
        decreases n - i,
    {
        if s.get_char(i) == '"' {
            assert(s@[i as int] == '"');
            return true;
        }
        i = i + 1;
    }
    false
}

/// Renders one token for display.
pub fn display_token(s: &str) -> (r: String)
    ensures
        r@ == render_token(s@),
{
    if contains_quote(s) {
        debug_quote(s)
    } else {
        String::from_str(s)
    }
}

/// Renders a program and its arguments as one human-readable line: tokens
/// separated by single spaces, a token quoted and escaped only when it holds
/// a double quote. The result is for diagnostics and is not shell-safe.
pub fn shlex_join(program: &str, args: &Vec<String>) -> (r: String)
    ensures
        r@ == render_command(program@, views(args@)),
{
    let mut out = display_token(program);
    let mut i: usize = 0;
    while i < args.len()
        invariant
            i <= args.len(),
            out@ == render_command(program@, views(args@.take(i as int))),
        decreases args.len() - i,
    {
        out.append(" ");
        let tok = display_token(args[i].as_str());
        out.append(tok.as_str());
        proof {
            let a = views(args@.take(i as int + 1));
            assert(a.drop_last() =~= views(args@.take(i as int)));
            assert(a.last() == args@[i as int]@);
        }
        i = i + 1;
    }
    assert(args@.take(args.len() as int) =~= args@);
    out
}

/// The one-character string of a decimal digit.
pub open spec fn digit(d: nat) -> Seq<char> {
    "0123456789"@.subrange(d as int, d as int + 1)
}

/// The decimal digits of a natural number.
pub open spec fn decimal_nat(n: nat) -> Seq<char>
    decreases n,
{
    if n < 10 {
        digit(n)
    } else {
        decimal_nat(n / 10) + digit(n % 10)
    }
}

/// The decimal form of an integer, with a leading minus sign when negative.
pub open spec fn decimal(n: int) -> Seq<char> {
    if n < 0 {
        "-"@ + decimal_nat((-n) as nat)
    } else {
        decimal_nat(n as nat)
    }
}

/// Appends the decimal digits of `n` to `out`.
fn push_decimal_nat(out: &mut String, n: u32)
    ensures
        final(out)@ == old(out)@ + decimal_nat(n as nat),
    decreases n,
{
    proof {
        reveal_strlit("0123456789");
    }
    if n >= 10 {
        push_decimal_nat(out, n / 10);
    }
    let d: usize = (n % 10) as usize;
    let digit = "0123456789".substring_char(d, d + 1);
    out.append(digit);
    assert(final(out)@ == old(out)@ + decimal_nat(n as nat)) by {
        if n >= 10 {
            assert(old(out)@ + decimal_nat(n as nat) =~= old(out)@ + decimal_nat((n / 10) as nat)
                + digit@);
        }
    }
}

/// Appends the decimal form of `n` to `out`.
pub fn push_decimal(out: &mut String, n: i32)
    ensures
        final(out)@ == old(out)@ + decimal(n as int),
{
    if n < 0 {
        out.append("-");
        let m: u32 = (0i64 - n as i64) as u32;
        push_decimal_nat(out, m);
        assert(final(out)@ =~= old(out)@ + decimal(n as int));
    } else {
        push_decimal_nat(out, n as u32);
    }
}

} // verus!
