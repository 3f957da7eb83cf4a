//! Short aliases for selected columns and joined tables, written with the letters `a` to `z`.
use vstd::prelude::*;

verus! {

/// The letter used for the digit `d`: `a` for 0 up to `z` for 25.
pub open spec fn az_letter(d: nat) -> char {
    ((97 + d) as u32) as char
}

/// The alias of `n`: its base-26 digits, least significant first, each written as a letter.
///
/// Digits are split off while the rest is larger than 26, so the last letter stands for
/// whatever is left (which is 26 itself for some numbers; see [`az_valid`]).
pub open spec fn az_alias(n: nat) -> Seq<char>
    decreases n,
{
    if n <= 26 {
        seq![az_letter(n)]
    } else {
        seq![az_letter(n % 26)] + az_alias(n / 26)
    }
}

/// Numbers whose alias can be written: those for which no digit of 26 is left at the end.
pub open spec fn az_valid(n: nat) -> bool
    decreases n,
{
    if n <= 26 {
        n < 26
    } else {
        az_valid(n / 26)
    }
}

proof fn lemma_az_letter_injective(a: nat, b: nat)
    requires
        a < 26,
        b < 26,
        az_letter(a) == az_letter(b),
    ensures
        a == b,
{
    assert((az_letter(a) as u32) == 97 + a);
    assert((az_letter(b) as u32) == 97 + b);
}

/// Different numbers that have an alias get different aliases.
pub proof fn lemma_az_alias_injective(a: nat, b: nat)
    requires
        az_valid(a),
        az_valid(b),
        az_alias(a) == az_alias(b),
    ensures
        a == b,
    decreases a,
{
    if a <= 26 && b <= 26 {
        assert(az_alias(a)[0] == az_letter(a));
        assert(az_alias(b)[0] == az_letter(b));
        lemma_az_letter_injective(a, b);
    } else if a <= 26 {
        assert(az_alias(b).len() == 1 + az_alias(b / 26).len());
        assert(az_alias(b / 26).len() > 0);
    } else if b <= 26 {
        assert(az_alias(a).len() == 1 + az_alias(a / 26).len());
        assert(az_alias(a / 26).len() > 0);
    } else {
        assert(az_alias(a)[0] == az_letter(a % 26));
        assert(az_alias(b)[0] == az_letter(b % 26));
        lemma_az_letter_injective(a % 26, b % 26);
        assert(az_alias(a).drop_first() =~= az_alias(a / 26));
        assert(az_alias(b).drop_first() =~= az_alias(b / 26));
        lemma_az_alias_injective(a / 26, b / 26);
    }
}

/// Write `n` using the alphabet as digits.
pub fn number_as_az(n: usize) -> (s: String)
    requires
        az_valid(n as nat),
    ensures
        s@ == az_alias(n as nat),
{
    let alphabet = "abcdefghijklmnopqrstuvwxyz";
    proof {
        reveal_strlit("abcdefghijklmnopqrstuvwxyz");
    }
    assert(alphabet.is_ascii());
    let mut out = String::new();
    let mut x = n;
    if x < 26 {
        let letter = alphabet.substring_ascii(x, x + 1);
        assert(letter@ =~= seq![az_letter(x as nat)]);
        out.append(letter);
        assert(out@ =~= az_alias(n as nat));
        return out;
    }
    while x > 26
        invariant
            az_valid(x as nat),
            alphabet@ == "abcdefghijklmnopqrstuvwxyz"@,
            alphabet.is_ascii(),
            out@ + az_alias(x as nat) == az_alias(n as nat),
        decreases x,
    {
        proof {
            reveal_strlit("abcdefghijklmnopqrstuvwxyz");
        }
        let digit = x % 26;
        let letter = alphabet.substring_ascii(digit, digit + 1);
        assert(letter@ =~= seq![az_letter(digit as nat)]);
        let ghost before = out@;
        out.append(letter);
        assert(az_alias(x as nat) =~= seq![az_letter(digit as nat)] + az_alias((x / 26) as nat));
        assert(out@ + az_alias((x / 26) as nat) =~= before + az_alias(x as nat));
        x = x / 26;
    }
    proof {
        reveal_strlit("abcdefghijklmnopqrstuvwxyz");
    }
    let letter = alphabet.substring_ascii(x, x + 1);
    assert(letter@ =~= seq![az_letter(x as nat)]);
    let ghost before = out@;
    out.append(letter);
    assert(out@ =~= before + az_alias(x as nat));
    out
}

} // verus!
