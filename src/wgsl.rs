use vstd::prelude::*;
use vstd::string::StringExecFns;

verus! {

/// The decimal digit character for `d < 10`.
pub open spec fn digit_char(d: nat) -> char {
    if d == 0 {
        '0'
    } else if d == 1 {
        '1'
    } else if d == 2 {
        '2'
    } else if d == 3 {
        '3'
    } else if d == 4 {
        '4'
    } else if d == 5 {
        '5'
    } else if d == 6 {
        '6'
    } else if d == 7 {
        '7'
    } else if d == 8 {
        '8'
    } else {
        '9'
    }
}

/// The decimal text of a natural number, without leading zeros.
pub open spec fn decimal(n: nat) -> Seq<char>
    decreases n,
{
    if n < 10 {
        seq![digit_char(n)]
    } else {
        decimal(n / 10).push(digit_char(n % 10))
    }
}

/// One line of shader source declaring a 32-bit integer uniform:
/// `@group(<g>) @binding(<b>) var<uniform> <name>: i32;` and a line feed.
pub open spec fn declaration(group: nat, binding: nat, name: Seq<char>) -> Seq<char> {
    "@group("@ + decimal(group) + ") @binding("@ + decimal(binding) + ") var<uniform> "@ + name
        + ": i32;\n"@
}

fn digit_str(d: u32) -> (r: &'static str)
    requires
        d < 10,
    ensures
        r@ == seq![digit_char(d as nat)],
{
    proof {
        reveal_strlit("0");
        reveal_strlit("1");
        reveal_strlit("2");
        reveal_strlit("3");
        reveal_strlit("4");
        reveal_strlit("5");
        reveal_strlit("6");
        reveal_strlit("7");
        reveal_strlit("8");
        reveal_strlit("9");
    }
    let r = if d == 0 {
        "0"
    } else if d == 1 {
        "1"
    } else if d == 2 {
        "2"
    } else if d == 3 {
        "3"
    } else if d == 4 {
        "4"
    } else if d == 5 {
        "5"
    } else if d == 6 {
        "6"
    } else if d == 7 {
        "7"
    } else if d == 8 {
        "8"
    } else {
        "9"
    };
    assert(r@ =~= seq![digit_char(d as nat)]);
    r
}

/// Appends the decimal text of `n` to `s`.
pub fn push_decimal(s: &mut String, n: u32)
    ensures
        final(s)@ == old(s)@ + decimal(n as nat),
    decreases n,
{
    if n >= 10 {
        push_decimal(s, n / 10);
    }
    s.append(digit_str(n % 10));
    assert(s@ =~= old(s)@ + decimal(n as nat));
}

/// Appends one uniform declaration line to `s`.
pub fn push_declaration(s: &mut String, group: u32, binding: u32, name: &str)
    ensures
        final(s)@ == old(s)@ + declaration(group as nat, binding as nat, name@),
{
    s.append("@group(");
    push_decimal(s, group);
    s.append(") @binding(");
    push_decimal(s, binding);
    s.append(") var<uniform> ");
    s.append(name);
    s.append(": i32;\n");
    assert(s@ =~= old(s)@ + declaration(group as nat, binding as nat, name@));
}

/// `s` holds no line feed.
pub open spec fn no_line_feed(s: Seq<char>) -> bool {
    forall|i: int| 0 <= i < s.len() ==> s[i] != '\n'
}

proof fn lemma_decimal_no_line_feed(n: nat)
    ensures
        no_line_feed(decimal(n)),
    decreases n,
{
    if n >= 10 {
        lemma_decimal_no_line_feed(n / 10);
    }
}

/// A declaration of a name without line feeds is exactly one line: it ends in
/// a line feed and holds no other.
pub proof fn lemma_declaration_is_one_line(group: nat, binding: nat, name: Seq<char>)
    requires
        no_line_feed(name),
    ensures
        declaration(group, binding, name).len() > 0,
        declaration(group, binding, name).last() == '\n',
        no_line_feed(declaration(group, binding, name).drop_last()),
{
    reveal_strlit("@group(");
    reveal_strlit(") @binding(");
    reveal_strlit(") var<uniform> ");
    reveal_strlit(": i32;\n");
    lemma_decimal_no_line_feed(group);
    lemma_decimal_no_line_feed(binding);
    let head = "@group("@ + decimal(group) + ") @binding("@ + decimal(binding) + ") var<uniform> "@
        + name;
    let d = declaration(group, binding, name);
    assert(d == head + ": i32;\n"@);
    assert(no_line_feed(head));
    assert(d.drop_last() =~= head + seq![':', ' ', 'i', '3', '2', ';']);
}

} // verus!
