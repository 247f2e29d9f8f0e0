//! The wording of error descriptions.
use vstd::prelude::*;

verus! {

/// The decimal digit for `d`.
pub open spec fn digit(d: int) -> char {
    if d == 0 {
        '0'
    } else if d == 1 {
        '1'
    } else if d == 2 {
        '2'
    } else if d == 3 {
        '3'
    } else if d == 4 {
        '4'
    } else if d == 5 {
        '5'
    } else if d == 6 {
        '6'
    } else if d == 7 {
        '7'
    } else if d == 8 {
        '8'
    } else {
        '9'
    }
}

/// `n` in decimal, without leading zeros.
pub open spec fn decimal(n: nat) -> Seq<char>
    decreases n,
{
    if n < 10 {
        seq![digit(n as int)]
    } else {
        decimal(n / 10).push(digit((n % 10) as int))
    }
}

/// A failed operation, followed by what went wrong: `what: cause`.
pub open spec fn failure(what: Seq<char>, cause: Seq<char>) -> Seq<char> {
    what + ": "@ + cause
}

/// A call on a device node: `call("devnode")`.
pub open spec fn node_call(call: Seq<char>, devnode: Seq<char>) -> Seq<char> {
    call + "(\""@ + devnode + "\")"@
}

/// A number below ten is written as one character, and every other number as what
/// it is without its last digit, followed by that digit. The characters for the
/// digits follow one another from `0`.
pub proof fn law_decimal(n: nat)
    ensures
        n < 10 ==> decimal(n).len() == 1,
        n >= 10 ==> decimal(n).len() > 1 && decimal(n).drop_last() == decimal(n / 10),
        decimal(n).last() as int == '0' as int + n % 10,
    decreases n,
{
    if n >= 10 {
        law_decimal(n / 10);
        assert(decimal(n).drop_last() =~= decimal(n / 10));
    }
}

/// A failure is what failed, a colon and a space, and the cause.
pub proof fn law_failure(what: Seq<char>, cause: Seq<char>)
    ensures
        failure(what, cause) == what + seq![':', ' '] + cause,
{
    reveal_strlit(": ");
    assert(": "@ =~= seq![':', ' ']);
}

/// A failed call on a device node is the name of the call, the device node in round
/// brackets and double quotes, a colon and a space, and the cause.
pub proof fn law_node_failure(call: Seq<char>, devnode: Seq<char>, cause: Seq<char>)
    ensures
        failure(node_call(call, devnode), cause) == call + seq!['(', '"'] + devnode + seq![
            '"',
            ')',
            ':',
            ' ',
        ] + cause,
{
    reveal_strlit(": ");
    reveal_strlit("(\"");
    reveal_strlit("\")");
    assert(failure(node_call(call, devnode), cause) =~= call + seq!['(', '"'] + devnode + seq![
        '"',
        ')',
        ':',
        ' ',
    ] + cause);
}

/// The digit `d` as text.
fn digit_text(d: u32) -> (s: &'static str)
    requires
        d < 10,
    ensures
        s@ == seq![digit(d as int)],
{
    proof {
        reveal_strlit("0");
        reveal_strlit("1");
        reveal_strlit("2");
        reveal_strlit("3");
        reveal_strlit("4");
        reveal_strlit("5");
        reveal_strlit("6");
        reveal_strlit("7");
        reveal_strlit("8");
        reveal_strlit("9");
    }
    match d {
        0 => "0",
        1 => "1",
        2 => "2",
        3 => "3",
        4 => "4",
        5 => "5",
        6 => "6",
        7 => "7",
        8 => "8",
        _ => "9",
    }
}

/// Writes `n` in decimal.
pub fn decimal_text(n: u32) -> (s: String)
    ensures
        s@ == decimal(n as nat),
    decreases n,
{
    if n < 10 {
        digit_text(n).to_owned()
    } else {
        let front = decimal_text(n / 10);
        let s = front.concat(digit_text(n % 10));
        assert(s@ =~= decimal((n / 10) as nat).push(digit((n % 10) as int)));
        s
    }
}

/// Words a failure as `what: cause`.
pub fn failure_text(what: &str, cause: &str) -> (s: String)
    ensures
        s@ == failure(what@, cause@),
{
    what.to_owned().concat(": ").concat(cause)
}

/// Words a failure of a call on a device node as `call("devnode"): cause`.
pub fn node_failure_text(call: &str, devnode: &str, cause: &str) -> (s: String)
    ensures
        s@ == failure(node_call(call@, devnode@), cause@),
{
    let what = call.to_owned().concat("(\"").concat(devnode).concat("\")");
    failure_text(what.as_str(), cause)
}

} // verus!
