use vstd::prelude::*;

verus! {

/// The character of a decimal digit.
pub open spec fn digit_char(d: nat) -> char
    recommends
        d < 10,
{
    if d == 0 { '0' }
    else if d == 1 { '1' }
    else if d == 2 { '2' }
    else if d == 3 { '3' }
    else if d == 4 { '4' }
    else if d == 5 { '5' }
    else if d == 6 { '6' }
    else if d == 7 { '7' }
    else if d == 8 { '8' }
    else { '9' }
}

/// The decimal notation of `n`, without leading zeros.
pub open spec fn decimal(n: nat) -> Seq<char>
    decreases n,
{
    if n < 10 {
        seq![digit_char(n)]
    } else {
        decimal(n / 10).push(digit_char(n % 10))
    }
}

/// What the score label shows for a score of `n`.
pub open spec fn score_label(n: nat) -> Seq<char> {
    "Score: "@ + decimal(n)
}

/// What the high-score label shows for a high score of `n`.
pub open spec fn high_score_label(n: nat) -> Seq<char> {
    "High Score: "@ + decimal(n)
}

/// The identifier of the obstacle made from counter value `n`.
pub open spec fn obstacle_label(n: nat) -> Seq<char> {
    "car"@ + decimal(n)
}

/// A decimal notation has at least one digit.
pub proof fn lemma_decimal_nonempty(n: nat)
    ensures
        decimal(n).len() >= 1,
    decreases n,
{
    if n >= 10 {
        lemma_decimal_nonempty(n / 10);
    }
}

/// Different digits have different characters.
pub proof fn lemma_digit_char_injective(x: nat, y: nat)
    requires
        x < 10,
        y < 10,
        digit_char(x) == digit_char(y),
    ensures
        x == y,
{
}

/// Numbers with the same decimal notation are equal.
pub proof fn lemma_decimal_injective(a: nat, b: nat)
    requires
        decimal(a) == decimal(b),
    ensures
        a == b,
    decreases a,
{
    if a < 10 && b < 10 {
        assert(decimal(a) == seq![digit_char(a)]);
        assert(decimal(b) == seq![digit_char(b)]);
        assert(seq![digit_char(a)][0] == digit_char(a));
        assert(seq![digit_char(b)][0] == digit_char(b));
        lemma_digit_char_injective(a, b);
    } else if a < 10 {
        lemma_decimal_nonempty(b / 10);
        assert(decimal(b).len() >= 2);
    } else if b < 10 {
        lemma_decimal_nonempty(a / 10);
        assert(decimal(a).len() >= 2);
    } else {
        let da = decimal(a);
        let db = decimal(b);
        assert(da.drop_last() =~= decimal(a / 10));
        assert(db.drop_last() =~= decimal(b / 10));
        assert(da.last() == digit_char(a % 10));
        assert(db.last() == digit_char(b % 10));
        lemma_digit_char_injective(a % 10, b % 10);
        lemma_decimal_injective(a / 10, b / 10);
    }
}

/// Obstacles made from different counter values have different identifiers.
pub proof fn lemma_obstacle_labels_distinct(i: nat, j: nat)
    requires
        i != j,
    ensures
        obstacle_label(i) != obstacle_label(j),
{
    reveal_strlit("car");
    if obstacle_label(i) == obstacle_label(j) {
        assert(obstacle_label(i).subrange(3, obstacle_label(i).len() as int) =~= decimal(i));
        assert(obstacle_label(j).subrange(3, obstacle_label(j).len() as int) =~= decimal(j));
        lemma_decimal_injective(i, j);
    }
}

/// The identifiers of the obstacles made from counter values `0..n`.
pub open spec fn spawned_labels(n: nat) -> Set<Seq<char>> {
    Set::new(|l: Seq<char>| exists|i: nat| i < n && l == obstacle_label(i))
}

/// An obstacle made from counter value `n` gets an identifier that none of
/// the obstacles made before it had, even those removed since; after it, the
/// identifiers used are those of `0..n + 1`.
pub proof fn lemma_spawn_label_fresh(n: nat)
    ensures
        !spawned_labels(n).contains(obstacle_label(n)),
        spawned_labels(n).insert(obstacle_label(n)) == spawned_labels(n + 1),
{
    if spawned_labels(n).contains(obstacle_label(n)) {
        let i = choose|i: nat| i < n && obstacle_label(n) == obstacle_label(i);
        lemma_obstacle_labels_distinct(i, n);
    }
    assert forall|l: Seq<char>|
        spawned_labels(n).insert(obstacle_label(n)).contains(l) <==> spawned_labels(n + 1).contains(l) by {
        if spawned_labels(n + 1).contains(l) {
            let i = choose|i: nat| i < n + 1 && l == obstacle_label(i);
            if i < n {
                assert(spawned_labels(n).contains(l));
            }
        }
        if spawned_labels(n).contains(l) {
            let i = choose|i: nat| i < n && l == obstacle_label(i);
            assert(i < n + 1 && l == obstacle_label(i));
        }
        if l == obstacle_label(n) {
            assert(n < n + 1 && l == obstacle_label(n));
        }
    }
    assert(spawned_labels(n).insert(obstacle_label(n)) =~= spawned_labels(n + 1));
}

fn digit_str(d: u32) -> (r: &'static str)
    requires
        d < 10,
    ensures
        r@ == seq![digit_char(d as nat)],
{
    proof {
        reveal_strlit("0");
        reveal_strlit("1");
        reveal_strlit("2");
        reveal_strlit("3");
        reveal_strlit("4");
        reveal_strlit("5");
        reveal_strlit("6");
        reveal_strlit("7");
        reveal_strlit("8");
        reveal_strlit("9");
    }
    match d {
        0 => "0",
        1 => "1",
        2 => "2",
        3 => "3",
        4 => "4",
        5 => "5",
        6 => "6",
        7 => "7",
        8 => "8",
        _ => "9",
    }
}

/// Appends the decimal notation of `n` to `s`.
pub fn push_decimal(s: &mut String, n: u32)
    ensures
        final(s)@ == old(s)@ + decimal(n as nat),
    decreases n,
{
    if n >= 10 {
        push_decimal(s, n / 10);
    }
    s.append(digit_str(n % 10));
    proof {
        if n >= 10 {
            assert(decimal(n as nat) == decimal((n / 10) as nat).push(digit_char((n % 10) as nat)));
        }
    }
    assert(final(s)@ =~= old(s)@ + decimal(n as nat));
}

/// The decimal notation of `n`.
pub fn decimal_string(n: u32) -> (r: String)
    ensures
        r@ == decimal(n as nat),
{
    let mut s = String::new();
    push_decimal(&mut s, n);
    assert(s@ =~= decimal(n as nat));
    s
}

/// The text of the score label for score `n`.
pub fn score_text(n: u32) -> (r: String)
    ensures
        r@ == score_label(n as nat),
{
    let mut s = String::from_str("Score: ");
    push_decimal(&mut s, n);
    s
}

/// The text of the high-score label for high score `n`.
pub fn high_score_text(n: u32) -> (r: String)
    ensures
        r@ == high_score_label(n as nat),
{
    let mut s = String::from_str("High Score: ");
    push_decimal(&mut s, n);
    s
}

/// The identifier of the obstacle made from counter value `n`.
pub fn obstacle_id(n: u32) -> (r: String)
    ensures
        r@ == obstacle_label(n as nat),
{
    let mut s = String::from_str("car");
    push_decimal(&mut s, n);
    s
}

} // verus!
