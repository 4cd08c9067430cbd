use vstd::prelude::*;

use vstd::relations::injective_on;
use vstd::seq_lib::seq_to_set_is_finite;
use vstd::set_lib::{lemma_int_range, lemma_len_subset, lemma_map_size, set_int_range};

use crate::chain::ChainType;
use crate::utility::{append_decimal, decimal, digit_char};

verus! {

/// Settings of one wallet known to the application.
#[derive(Debug, Clone)]
pub struct Wallet {
    /// Top-level directory, which should hold the wallet's configuration file.
    pub tld: Option<String>,
    /// Name shown in the wallet selection.
    pub display_name: String,
    /// Use the embedded node instead of the one the wallet configures.
    pub use_embedded_node: bool,
    pub chain_type: ChainType,
}

impl Wallet {
    /// A wallet that uses the embedded node.
    pub fn new(tld: Option<String>, display_name: String, chain_type: ChainType) -> (r: Self)
        ensures
            r.tld == tld,
            r.display_name == display_name,
            r.use_embedded_node,
            r.chain_type == chain_type,
    {
        Wallet { tld, display_name, use_embedded_node: true, chain_type }
    }
}

impl Default for Wallet {
    fn default() -> (r: Self)
        ensures
            r.tld is None,
            r.display_name@ == "Default"@,
            r.use_embedded_node,
            r.chain_type == ChainType::Mainnet,
    {
        Wallet {
            tld: None,
            display_name: "Default".to_owned(),
            use_embedded_node: true,
            chain_type: ChainType::Mainnet,
        }
    }
}

pub open spec fn display_names(ws: Seq<Wallet>) -> Seq<Seq<char>> {
    ws.map_values(|w: Wallet| w.display_name@)
}

/// The `k`-th display name tried for a new wallet: the base name itself,
/// then the base name followed by a space and 1, 2, ...
pub open spec fn numbered_name(base: Seq<char>, k: nat) -> Seq<char> {
    if k == 0 {
        base
    } else {
        base + seq![' '] + decimal(k)
    }
}

/// `s` with every space replaced by an underscore.
pub open spec fn underscored(s: Seq<char>) -> Seq<char> {
    s.map_values(|c: char| if c == ' ' { '_' } else { c })
}

/// What `str::to_lowercase` makes of a text.
pub uninterp spec fn lower_of(s: Seq<char>) -> Seq<char>;

proof fn lemma_digit_char_code(d: nat)
    requires
        d < 10,
    ensures
        digit_char(d) as u32 == d + 48,
{
    if d == 0 {
        assert(digit_char(0) == '0');
    } else if d == 1 {
        assert(digit_char(1) == '1');
    } else if d == 2 {
        assert(digit_char(2) == '2');
    } else if d == 3 {
        assert(digit_char(3) == '3');
    } else if d == 4 {
        assert(digit_char(4) == '4');
    } else if d == 5 {
        assert(digit_char(5) == '5');
    } else if d == 6 {
        assert(digit_char(6) == '6');
    } else if d == 7 {
        assert(digit_char(7) == '7');
    } else if d == 8 {
        assert(digit_char(8) == '8');
    } else {
        assert(digit_char(9) == '9');
    }
}

proof fn lemma_decimal_len(n: nat)
    ensures
        decimal(n).len() >= 1,
        n >= 10 ==> decimal(n).len() >= 2,
    decreases n,
{
    if n >= 10 {
        lemma_decimal_len(n / 10);
    }
}

proof fn lemma_decimal_injective(a: nat, b: nat)
    requires
        decimal(a) == decimal(b),
    ensures
        a == b,
    decreases a,
{
    lemma_decimal_len(a);
    lemma_decimal_len(b);
    if a < 10 && b < 10 {
        lemma_digit_char_code(a);
        lemma_digit_char_code(b);
        assert(decimal(a)[0] == digit_char(a));
        assert(decimal(b)[0] == digit_char(b));
    } else if a >= 10 && b >= 10 {
        lemma_digit_char_code(a % 10);
        lemma_digit_char_code(b % 10);
        assert(decimal(a).last() == digit_char(a % 10));
        assert(decimal(b).last() == digit_char(b % 10));
        assert(decimal(a).drop_last() =~= decimal(a / 10));
        assert(decimal(b).drop_last() =~= decimal(b / 10));
        lemma_decimal_injective(a / 10, b / 10);
        assert(a == 10 * (a / 10) + a % 10);
        assert(b == 10 * (b / 10) + b % 10);
    }
}

proof fn lemma_numbered_name_injective(base: Seq<char>, a: nat, b: nat)
    requires
        numbered_name(base, a) == numbered_name(base, b),
    ensures
        a == b,
{
    lemma_decimal_len(a);
    lemma_decimal_len(b);
    if a != 0 && b != 0 {
        let na = numbered_name(base, a);
        let nb = numbered_name(base, b);
        assert(na.subrange(base.len() + 1 as int, na.len() as int) =~= decimal(a));
        assert(nb.subrange(base.len() + 1 as int, nb.len() as int) =~= decimal(b));
        lemma_decimal_injective(a, b);
    } else if a != 0 {
        assert(numbered_name(base, a).len() > base.len());
    } else if b != 0 {
        assert(numbered_name(base, b).len() > base.len());
    }
}

/// The names numbered 0 to `k` are all different, so if all of them are
/// taken there are more than `k` names.
proof fn lemma_taken_names_bounded(base: Seq<char>, names: Seq<Seq<char>>, k: nat)
    requires
        forall|j: nat| j <= k ==> names.contains(#[trigger] numbered_name(base, j)),
    ensures
        k < names.len(),
{
    let dom = set_int_range(0, k as int + 1);
    lemma_int_range(0, k as int + 1);
    let f = |j: int| numbered_name(base, j as nat);
    let img = dom.map(f);
    assert(injective_on(f, dom)) by {
        assert forall|x: int, y: int|
            dom.contains(x) && dom.contains(y) && #[trigger] f(x) == #[trigger] f(y) implies x
            == y by {
            lemma_numbered_name_injective(base, x as nat, y as nat);
        }
    }
    lemma_map_size(dom, img, f);
    assert(img.subset_of(names.to_set())) by {
        assert forall|n: Seq<char>| img.contains(n) implies names.to_set().contains(n) by {
            let j = choose|j: int| dom.contains(j) && f(j) == n;
            assert(names.contains(numbered_name(base, j as nat)));
        }
    }
    names.lemma_cardinality_of_set();
    seq_to_set_is_finite(names);
    lemma_len_subset(img, names.to_set());
}

fn name_taken(wallets: &Vec<Wallet>, name: &String) -> (r: bool)
    ensures
        r == display_names(wallets@).contains(name@),
{
    let mut i: usize = 0;
    while i < wallets.len()
        invariant
            i <= wallets@.len(),
            forall|j: int| 0 <= j < i ==> wallets@[j].display_name@ != name@,
        decreases wallets@.len() - i,
    {
        if wallets[i].display_name == *name {
            assert(display_names(wallets@)[i as int] == name@);
            return true;
        }
        i = i + 1;
    }
    proof {
        if display_names(wallets@).contains(name@) {
            let j = choose|j: int|
                0 <= j < display_names(wallets@).len() && display_names(wallets@)[j] == name@;
            assert(wallets@[j].display_name@ == name@);
        }
    }
    false
}

/// A display name that no wallet has yet: `base` if it is free, otherwise
/// `base 1`, `base 2`, ..., the first one that is free.
pub fn unique_display_name(base: &str, wallets: &Vec<Wallet>) -> (r: String)
    ensures
        exists|k: nat|
            {
                &&& r@ == numbered_name(base@, k)
                &&& !display_names(wallets@).contains(numbered_name(base@, k))
                &&& forall|j: nat|
                    j < k ==> display_names(wallets@).contains(#[trigger] numbered_name(base@, j))
            },
{
    let ghost names = display_names(wallets@);
    let sep = " ";
    proof {
        reveal_strlit(" ");
    }
    let mut name = base.to_owned();
    let mut k: usize = 0;
    let n = wallets.len();
    while name_taken(wallets, &name)
        invariant
            n == wallets@.len(),
            sep@ == seq![' '],
            name@ == numbered_name(base@, k as nat),
            k <= wallets@.len(),
            names == display_names(wallets@),
            forall|j: nat| j < k ==> names.contains(#[trigger] numbered_name(base@, j)),
        decreases wallets@.len() - k,
    {
        proof {
            assert forall|j: nat| j <= k implies names.contains(#[trigger] numbered_name(base@, j)) by {
                if j == k {
                    assert(names.contains(name@));
                }
            }
            lemma_taken_names_bounded(base@, names, k as nat);
            assert(names.len() == wallets@.len());
        }
        k = k + 1;
        let mut next = base.to_owned();
        next.append(sep);
        append_decimal(&mut next, k as u128);
        name = next;
        assert(name@ =~= numbered_name(base@, k as nat));
    }
    assert(name@ == numbered_name(base@, k as nat));
    name
}

/// Relies on str::to_lowercase: the lower-case form depends on the text alone.
#[verifier::external_body]
fn lowercase(s: &str) -> (r: String)
    ensures
        r@ == lower_of(s@),
{
    s.to_lowercase()
}

/// Relies on str::replace with the pattern " " and the replacement "_": every
/// space becomes an underscore, every other character stays.
#[verifier::external_body]
fn spaces_to_underscores(s: &str) -> (r: String)
    ensures
        r@ == underscored(s@),
{
    s.replace(" ", "_")
}

/// Directory name of a wallet whose display name is already in lower case:
/// spaces become underscores.
pub fn dir_name_of_lowercase(lowered: &str) -> (r: String)
    ensures
        r@ == underscored(lowered@),
{
    spaces_to_underscores(lowered)
}

/// Directory name of a wallet: its display name in lower case, with
/// underscores for spaces (`Default 1` gives `default_1`).
pub fn wallet_dir_name(display_name: &str) -> (r: String)
    ensures
        r@ == underscored(lower_of(display_name@)),
{
    let lowered = lowercase(display_name);
    dir_name_of_lowercase(lowered.as_str())
}

} // verus!
