use vstd::prelude::*;

verus! {

// ------------------------------------------------------------------
// Decimal rendering of unsigned amounts.
// ------------------------------------------------------------------

/// The character for one decimal digit.
pub open spec fn dec_digit(d: nat) -> char {
    if d == 0 {
        '0'
    } else if d == 1 {
        '1'
    } else if d == 2 {
        '2'
    } else if d == 3 {
        '3'
    } else if d == 4 {
        '4'
    } else if d == 5 {
        '5'
    } else if d == 6 {
        '6'
    } else if d == 7 {
        '7'
    } else if d == 8 {
        '8'
    } else {
        '9'
    }
}

/// The usual decimal text of `n`: most significant digit first, no
/// leading zeros (a lone `'0'` for zero).
pub open spec fn dec_text(n: nat) -> Seq<char>
    decreases n,
{
    if n < 10 {
        seq![dec_digit(n)]
    } else {
        dec_text(n / 10).push(dec_digit(n % 10))
    }
}

fn digit_str(d: u64) -> (r: &'static str)
    requires
        d < 10,
    ensures
        r@ == seq![dec_digit(d as nat)],
{
    if d == 0 {
        proof { reveal_strlit("0"); }
        proof { assert("0"@ =~= seq![dec_digit(0)]); }
        "0"
    } else if d == 1 {
        proof { reveal_strlit("1"); }
        proof { assert("1"@ =~= seq![dec_digit(1)]); }
        "1"
    } else if d == 2 {
        proof { reveal_strlit("2"); }
        proof { assert("2"@ =~= seq![dec_digit(2)]); }
        "2"
    } else if d == 3 {
        proof { reveal_strlit("3"); }
        proof { assert("3"@ =~= seq![dec_digit(3)]); }
        "3"
    } else if d == 4 {
        proof { reveal_strlit("4"); }
        proof { assert("4"@ =~= seq![dec_digit(4)]); }
        "4"
    } else if d == 5 {
        proof { reveal_strlit("5"); }
        proof { assert("5"@ =~= seq![dec_digit(5)]); }
        "5"
    } else if d == 6 {
        proof { reveal_strlit("6"); }
        proof { assert("6"@ =~= seq![dec_digit(6)]); }
        "6"
    } else if d == 7 {
        proof { reveal_strlit("7"); }
        proof { assert("7"@ =~= seq![dec_digit(7)]); }
        "7"
    } else if d == 8 {
        proof { reveal_strlit("8"); }
        proof { assert("8"@ =~= seq![dec_digit(8)]); }
        "8"
    } else {
        proof { reveal_strlit("9"); }
        proof { assert("9"@ =~= seq![dec_digit(9)]); }
        "9"
    }
}

/// Decimal text of a `u64`, exactly as the chain's log lines carry amounts.
pub fn u64_text(n: u64) -> (r: String)
    ensures
        r@ == dec_text(n as nat),
    decreases n,
{
    if n < 10 {
        String::from_str(digit_str(n))
    } else {
        let mut s = u64_text(n / 10);
        s.append(digit_str(n % 10));
        proof {
            assert(s@ =~= dec_text(n as nat));
        }
        s
    }
}

// ------------------------------------------------------------------
// The literal tokens of the log grammar.
// ------------------------------------------------------------------

/// Text of a boolean, as `format!` would print it.
pub open spec fn bool_text_spec(b: bool) -> Seq<char> {
    if b {
        "true"@
    } else {
        "false"@
    }
}

pub fn bool_text(b: bool) -> (r: &'static str)
    ensures
        r@ == bool_text_spec(b),
{
    if b {
        "true"
    } else {
        "false"
    }
}

/// `head` followed by each field, single-space separated.
pub open spec fn spaced(head: Seq<char>, field: Seq<char>) -> Seq<char> {
    head + " "@ + field
}

/// Append one space-separated field to a line under construction.
pub fn push_field(line: &mut String, field: &str)
    ensures
        final(line)@ == spaced(old(line)@, field@),
{
    line.append(" ");
    line.append(field);
}

// ------------------------------------------------------------------
// One event line per completed movement, consumed verbatim by the
// off-chain relayers: field order and literal tokens are a contract.
// ------------------------------------------------------------------

/// `"<name> <a> <b> <amount> <chainid>"` — the shared shape of the four
/// token-movement lines and the native lines.
pub open spec fn movement_event(
    name: Seq<char>,
    a: Seq<char>,
    b: Seq<char>,
    amount: u64,
    chainid: u64,
) -> Seq<char> {
    spaced(spaced(spaced(spaced(name, a), b), dec_text(amount as nat)), dec_text(chainid as nat))
}

pub fn movement_event_text(name: &str, a: &str, b: &str, amount: u64, chainid: u64) -> (r: String)
    ensures
        r@ == movement_event(name@, a@, b@, amount, chainid),
{
    let mut line = String::from_str(name);
    push_field(&mut line, a);
    push_field(&mut line, b);
    let amount_text = u64_text(amount);
    push_field(&mut line, amount_text.as_str());
    let chain_text = u64_text(chainid);
    push_field(&mut line, chain_text.as_str());
    line
}

/// `"ApplyNewMpc transfer from <old> to <new>"`.
pub open spec fn apply_mpc_event(old_mpc: Seq<char>, new_mpc: Seq<char>) -> Seq<char> {
    spaced(spaced(spaced(spaced("ApplyNewMpc transfer"@, "from"@), old_mpc), "to"@), new_mpc)
}

pub fn apply_mpc_event_text(old_mpc: &str, new_mpc: &str) -> (r: String)
    ensures
        r@ == apply_mpc_event(old_mpc@, new_mpc@),
{
    let mut line = String::from_str("ApplyNewMpc transfer");
    push_field(&mut line, "from");
    push_field(&mut line, old_mpc);
    push_field(&mut line, "to");
    push_field(&mut line, new_mpc);
    line
}

/// `"set paused to <bool>"`.
pub open spec fn set_paused_event(enable: bool) -> Seq<char> {
    spaced(spaced(spaced("set"@, "paused"@), "to"@), bool_text_spec(enable))
}

pub fn set_paused_event_text(enable: bool) -> (r: String)
    ensures
        r@ == set_paused_event(enable),
{
    let mut line = String::from_str("set");
    push_field(&mut line, "paused");
    push_field(&mut line, "to");
    push_field(&mut line, bool_text(enable));
    line
}

} // verus!
