use vstd::prelude::*;

verus! {

/// A published release of the application.
#[derive(Debug, Clone)]
pub struct Release {
    pub tag_name: String,
    pub prerelease: bool,
    pub assets: Vec<ReleaseAsset>,
    pub body: String,
}

/// A downloadable file of a release.
#[derive(Debug, Clone)]
pub struct ReleaseAsset {
    pub name: String,
    pub download_url: String,
}

pub open spec fn is_digit(c: char) -> bool {
    '0' <= c && c <= '9'
}

pub open spec fn digit_value(c: char) -> nat {
    (c as u32 - '0' as u32) as nat
}

/// Value of a run of decimal digits.
pub open spec fn digits_value(s: Seq<char>) -> nat
    decreases s.len(),
{
    if s.len() == 0 {
        0
    } else {
        digits_value(s.drop_last()) * 10 + digit_value(s.last())
    }
}

pub open spec fn all_digits(s: Seq<char>) -> bool {
    forall|i: int| 0 <= i < s.len() ==> is_digit(#[trigger] s[i])
}

/// The digits of a number, without its optional leading `+`.
pub open spec fn unsigned_part(s: Seq<char>) -> Seq<char> {
    if s.len() > 0 && s[0] == '+' {
        s.drop_first()
    } else {
        s
    }
}

/// What parsing `s` as a `u8` yields: an optional `+`, then one or more
/// decimal digits whose value fits in a byte.
pub open spec fn parse_u8(s: Seq<char>) -> Option<nat> {
    let d = unsigned_part(s);
    if d.len() > 0 && all_digits(d) && digits_value(d) <= 255 {
        Some(digits_value(d))
    } else {
        None
    }
}

pub open spec fn digit_char(d: nat) -> char {
    seq!['0', '1', '2', '3', '4', '5', '6', '7', '8', '9'][d as int]
}

/// Decimal digits of `n`, without leading zeros.
pub open spec fn decimal(n: nat) -> Seq<char>
    decreases n,
{
    if n < 10 {
        seq![digit_char(n)]
    } else {
        decimal(n / 10).push(digit_char(n % 10))
    }
}

/// A five-character interface number `MNNPP` read as the version `M.N.P`;
/// any other text is kept as it is.
pub open spec fn game_version(s: Seq<char>) -> Seq<char> {
    let major = parse_u8(s.subrange(0, 1));
    let minor = parse_u8(s.subrange(1, 3));
    let patch = parse_u8(s.subrange(3, 5));
    if s.len() == 5 && major is Some && minor is Some && patch is Some {
        decimal(major->Some_0) + seq!['.'] + decimal(minor->Some_0) + seq!['.'] + decimal(
            patch->Some_0,
        )
    } else {
        s
    }
}

fn digit_of(c: char) -> (r: Option<u8>)
    ensures
        r is Some <==> is_digit(c),
        r is Some ==> r->Some_0 as nat == digit_value(c) && r->Some_0 < 10,
{
    if c >= '0' && c <= '9' {
        Some((c as u32 - '0' as u32) as u8)
    } else {
        None
    }
}

fn parse_one(c: char) -> (r: Option<u8>)
    ensures
        r is Some <==> parse_u8(seq![c]) is Some,
        r is Some ==> r->Some_0 as nat == parse_u8(seq![c])->Some_0 && r->Some_0 < 100,
{
    let ghost s = seq![c];
    proof {
        reveal_with_fuel(digits_value, 2);
        assert(s[0] == c);
        assert(s.drop_last() =~= Seq::<char>::empty());
        assert(s.drop_first() =~= Seq::<char>::empty());
        if is_digit(c) {
            assert(c != '+');
            assert(forall|i: int| 0 <= i < s.len() ==> is_digit(#[trigger] s[i]));
            assert(digits_value(s) == digit_value(c));
            assert(parse_u8(s) == Some(digit_value(c)));
        } else if c == '+' {
            assert(parse_u8(s) is None);
        } else {
            assert(unsigned_part(s) == s);
            assert(!is_digit(s[0]));
            assert(!all_digits(s));
        }
    }
    digit_of(c)
}

fn parse_two(a: char, b: char) -> (r: Option<u8>)
    ensures
        r is Some <==> parse_u8(seq![a, b]) is Some,
        r is Some ==> r->Some_0 as nat == parse_u8(seq![a, b])->Some_0 && r->Some_0 < 100,
{
    let ghost s = seq![a, b];
    proof {
        reveal_with_fuel(digits_value, 3);
        assert(s[0] == a && s[1] == b);
        assert(s.drop_last() =~= seq![a]);
        assert(seq![a].drop_last() =~= Seq::<char>::empty());
        assert(s.drop_first() =~= seq![b]);
        assert(seq![b].drop_last() =~= Seq::<char>::empty());
    }
    if a == '+' {
        let r = digit_of(b);
        proof {
            let d = s.drop_first();
            if is_digit(b) {
                assert(forall|i: int| 0 <= i < d.len() ==> is_digit(#[trigger] d[i]));
            } else {
                assert(!is_digit(d[0]));
            }
        }
        r
    } else {
        match (digit_of(a), digit_of(b)) {
            (Some(x), Some(y)) => {
                assert(forall|i: int| 0 <= i < s.len() ==> is_digit(#[trigger] s[i]));
                Some(x * 10 + y)
            },
            (None, _) => {
                assert(!is_digit(s[0]));
                None
            },
            (_, None) => {
                assert(!is_digit(s[1]));
                None
            },
        }
    }
}

fn digit_text(d: u128) -> (r: &'static str)
    requires
        d < 10,
    ensures
        r@ == seq![digit_char(d as nat)],
{
    proof {
        reveal_strlit("0");
        reveal_strlit("1");
        reveal_strlit("2");
        reveal_strlit("3");
        reveal_strlit("4");
        reveal_strlit("5");
        reveal_strlit("6");
        reveal_strlit("7");
        reveal_strlit("8");
        reveal_strlit("9");
    }
    if d == 0 {
        "0"
    } else if d == 1 {
        "1"
    } else if d == 2 {
        "2"
    } else if d == 3 {
        "3"
    } else if d == 4 {
        "4"
    } else if d == 5 {
        "5"
    } else if d == 6 {
        "6"
    } else if d == 7 {
        "7"
    } else if d == 8 {
        "8"
    } else {
        "9"
    }
}

/// Appends the decimal digits of `n`.
pub(crate) fn append_decimal(out: &mut String, n: u128)
    ensures
        final(out)@ == old(out)@ + decimal(n as nat),
    decreases n,
{
    if n >= 10 {
        append_decimal(out, n / 10);
    }
    append_decimal_digit(out, n % 10);
    proof {
        if n >= 10 {
            assert(decimal(n as nat) == decimal((n / 10) as nat).push(digit_char((n % 10) as nat)));
        }
    }
}

fn append_decimal_digit(out: &mut String, d: u128)
    requires
        d < 10,
    ensures
        final(out)@ == old(out)@ + seq![digit_char(d as nat)],
{
    out.append(digit_text(d));
}

/// Formats a five-digit interface number as a game version: `90001` becomes
/// `9.0.1`, `11305` becomes `1.13.5`. Text of another length, or whose
/// parts are not numbers, is returned unchanged.
pub fn format_interface_into_game_version(interface: &str) -> (r: String)
    ensures
        r@ == game_version(interface@),
{
    let ghost s = interface@;
    if interface.unicode_len() == 5 {
        let c0 = interface.get_char(0);
        let c1 = interface.get_char(1);
        let c2 = interface.get_char(2);
        let c3 = interface.get_char(3);
        let c4 = interface.get_char(4);
        assert(s.subrange(0, 1) =~= seq![c0]);
        assert(s.subrange(1, 3) =~= seq![c1, c2]);
        assert(s.subrange(3, 5) =~= seq![c3, c4]);
        match (parse_one(c0), parse_two(c1, c2), parse_two(c3, c4)) {
            (Some(major), Some(minor), Some(patch)) => {
                let dot = ".";
                proof {
                    reveal_strlit(".");
                }
                let mut out = String::new();
                append_decimal(&mut out, major as u128);
                out.append(dot);
                append_decimal(&mut out, minor as u128);
                out.append(dot);
                append_decimal(&mut out, patch as u128);
                assert(out@ =~= game_version(s));
                return out;
            },
            _ => {},
        }
    }
    interface.to_owned()
}

/// The first `max_chars` characters of `s`, or all of `s` if it is shorter.
pub fn truncate(s: &str, max_chars: usize) -> (r: &str)
    ensures
        r@ == if s@.len() > max_chars {
            s@.subrange(0, max_chars as int)
        } else {
            s@
        },
{
    if s.unicode_len() > max_chars {
        s.substring_char(0, max_chars)
    } else {
        s
    }
}

} // verus!
