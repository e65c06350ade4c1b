//! Text renderings of values for debugging.
use vstd::prelude::*;
use vstd::string::StringExecFns;

use crate::arch::StateTag;

verus! {

/// What `format!("{:?}", s)` renders a string as: quoted, with escapes.
pub uninterp spec fn spec_str_debug(s: Seq<char>) -> Seq<char>;

/// `<str as Debug>::fmt` through `format!("{:?}", s)`: the quoted, escaped string.
#[verifier::external_body]
fn str_debug(s: &str) -> (r: String)
    ensures
        r@ == spec_str_debug(s@),
{
    format!("{:?}", s)
}

/// The decimal digit character of `d`.
pub open spec fn spec_digit_char(d: nat) -> char {
    if d == 0 {
        '0'
    } else if d == 1 {
        '1'
    } else if d == 2 {
        '2'
    } else if d == 3 {
        '3'
    } else if d == 4 {
        '4'
    } else if d == 5 {
        '5'
    } else if d == 6 {
        '6'
    } else if d == 7 {
        '7'
    } else if d == 8 {
        '8'
    } else {
        '9'
    }
}

/// The decimal representation of `n`, without leading zeros.
pub open spec fn spec_decimal(n: nat) -> Seq<char>
    decreases n,
{
    if n < 10 {
        seq![spec_digit_char(n)]
    } else {
        spec_decimal(n / 10) + seq![spec_digit_char(n % 10)]
    }
}

/// The one-character string of the decimal digit `d`.
fn digit_str(d: usize) -> (r: &'static str)
    requires
        d < 10,
    ensures
        r@ == seq![spec_digit_char(d as nat)],
{
    proof {
        reveal_strlit("0");
        reveal_strlit("1");
        reveal_strlit("2");
        reveal_strlit("3");
        reveal_strlit("4");
        reveal_strlit("5");
        reveal_strlit("6");
        reveal_strlit("7");
        reveal_strlit("8");
        reveal_strlit("9");
    }
    if d == 0 {
        "0"
    } else if d == 1 {
        "1"
    } else if d == 2 {
        "2"
    } else if d == 3 {
        "3"
    } else if d == 4 {
        "4"
    } else if d == 5 {
        "5"
    } else if d == 6 {
        "6"
    } else if d == 7 {
        "7"
    } else if d == 8 {
        "8"
    } else {
        "9"
    }
}

/// Append the decimal representation of `n`.
pub fn push_decimal(out: &mut String, n: usize)
    ensures
        final(out)@ == old(out)@ + spec_decimal(n as nat),
    decreases n,
{
    if n >= 10 {
        push_decimal(out, n / 10);
    }
    out.append(digit_str(n % 10));
    proof {
        assert(old(out)@ + spec_decimal(n as nat) =~= if n < 10 {
            old(out)@ + seq![spec_digit_char(n as nat)]
        } else {
            old(out)@ + spec_decimal((n / 10) as nat) + seq![spec_digit_char((n % 10) as nat)]
        });
    }
}

/// The lowercase hexadecimal digit character of `d`.
pub open spec fn spec_hex_digit_char(d: nat) -> char {
    if d < 10 {
        spec_digit_char(d)
    } else if d == 10 {
        'a'
    } else if d == 11 {
        'b'
    } else if d == 12 {
        'c'
    } else if d == 13 {
        'd'
    } else if d == 14 {
        'e'
    } else {
        'f'
    }
}

/// The lowercase hexadecimal representation of `n`, without leading zeros.
pub open spec fn spec_hex(n: nat) -> Seq<char>
    decreases n,
{
    if n < 16 {
        seq![spec_hex_digit_char(n)]
    } else {
        spec_hex(n / 16) + seq![spec_hex_digit_char(n % 16)]
    }
}

/// The one-character string of the hexadecimal digit `d`.
fn hex_digit_str(d: usize) -> (r: &'static str)
    requires
        d < 16,
    ensures
        r@ == seq![spec_hex_digit_char(d as nat)],
{
    proof {
        reveal_strlit("a");
        reveal_strlit("b");
        reveal_strlit("c");
        reveal_strlit("d");
        reveal_strlit("e");
        reveal_strlit("f");
    }
    if d < 10 {
        digit_str(d)
    } else if d == 10 {
        "a"
    } else if d == 11 {
        "b"
    } else if d == 12 {
        "c"
    } else if d == 13 {
        "d"
    } else if d == 14 {
        "e"
    } else {
        "f"
    }
}

/// Append the lowercase hexadecimal representation of `n`.
pub fn push_hex(out: &mut String, n: usize)
    ensures
        final(out)@ == old(out)@ + spec_hex(n as nat),
    decreases n,
{
    if n >= 16 {
        push_hex(out, n / 16);
    }
    out.append(hex_digit_str(n % 16));
    proof {
        assert(old(out)@ + spec_hex(n as nat) =~= if n < 16 {
            old(out)@ + seq![spec_hex_digit_char(n as nat)]
        } else {
            old(out)@ + spec_hex((n / 16) as nat) + seq![spec_hex_digit_char((n % 16) as nat)]
        });
    }
}

/// The last `digits` lowercase hexadecimal digits of `n`, with leading zeros.
pub open spec fn spec_hex_fixed(n: nat, digits: nat) -> Seq<char>
    decreases digits,
{
    if digits == 0 {
        Seq::empty()
    } else {
        spec_hex_fixed(n / 16, (digits - 1) as nat) + seq![spec_hex_digit_char(n % 16)]
    }
}

/// Append the last `digits` hexadecimal digits of `n`, zero-padded.
pub fn push_hex_fixed(out: &mut String, n: usize, digits: usize)
    ensures
        final(out)@ == old(out)@ + spec_hex_fixed(n as nat, digits as nat),
    decreases digits,
{
    if digits > 0 {
        push_hex_fixed(out, n / 16, digits - 1);
        out.append(hex_digit_str(n % 16));
        proof {
            assert(old(out)@ + spec_hex_fixed(n as nat, digits as nat) =~= old(out)@
                + spec_hex_fixed((n / 16) as nat, (digits - 1) as nat) + seq![
                spec_hex_digit_char((n % 16) as nat),
            ]);
        }
    }
}

/// The name of a storage state.
pub open spec fn spec_state_name(state: StateTag) -> Seq<char> {
    match state {
        StateTag::Borrowed => "Borrowed"@,
        StateTag::Shared => "Shared"@,
        StateTag::Inline => "Inline"@,
    }
}

/// The debug rendering of a string value: `Name("value")`, or in the
/// alternate form a struct rendering with the state, the length and the value.
pub open spec fn spec_debug_render(
    name: Seq<char>,
    state: StateTag,
    len: nat,
    value: Seq<char>,
    alternate: bool,
) -> Seq<char> {
    if alternate {
        name + " {\n    state: \""@ + spec_state_name(state) + "\",\n    len: "@ + spec_decimal(len)
            + ",\n    value: "@ + spec_str_debug(value) + ",\n}"@
    } else {
        name + "("@ + spec_str_debug(value) + ")"@
    }
}

/// Law: the alternate rendering carries the decimal of `len` right after
/// the name, the state field and the `len: ` label, and the plain rendering
/// starts with the name and ends with the rendered value in brackets.
pub proof fn law_debug_render_fields(name: Seq<char>, state: StateTag, len: nat, value: Seq<char>)
    ensures
        ({
            let head = name + " {\n    state: \""@ + spec_state_name(state) + "\",\n    len: "@;
            spec_debug_render(name, state, len, value, true).subrange(
                head.len() as int,
                (head.len() + spec_decimal(len).len()) as int,
            ) == spec_decimal(len)
        }),
        spec_debug_render(name, state, len, value, true).subrange(0, name.len() as int) == name,
        spec_debug_render(name, state, len, value, false) == name + "("@ + spec_str_debug(value)
            + ")"@,
{
    let head = name + " {\n    state: \""@ + spec_state_name(state) + "\",\n    len: "@;
    let r = spec_debug_render(name, state, len, value, true);
    let tail = ",\n    value: "@ + spec_str_debug(value) + ",\n}"@;
    assert(r =~= head + spec_decimal(len) + tail);
    assert(r.subrange(head.len() as int, (head.len() + spec_decimal(len).len()) as int) =~= spec_decimal(len));
    assert(r.subrange(0, name.len() as int) =~= name);
}

/// Render a string value for debugging.
pub fn debug_render(name: &str, state: StateTag, len: usize, value: &str, alternate: bool) -> (r:
    String)
    ensures
        r@ == spec_debug_render(name@, state, len as nat, value@, alternate),
{
    let mut out = name.to_owned();
    if alternate {
        out.append(" {\n    state: \"");
        match state {
            StateTag::Borrowed => out.append("Borrowed"),
            StateTag::Shared => out.append("Shared"),
            StateTag::Inline => out.append("Inline"),
        }
        out.append("\",\n    len: ");
        push_decimal(&mut out, len);
        out.append(",\n    value: ");
        out.append(str_debug(value).as_str());
        out.append(",\n}");
    } else {
        out.append("(");
        out.append(str_debug(value).as_str());
        out.append(")");
    }
    out
}

} // verus!
