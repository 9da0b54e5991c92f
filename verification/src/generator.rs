//! Password generation from configurable character classes.
use vstd::prelude::*;

use rand::seq::{IndexedRandom, SliceRandom};

use crate::text::push_char;

verus! {

/// Shortest password the generator produces.
pub const MIN_LENGTH: usize = 8;

/// Longest password the generator produces.
pub const MAX_LENGTH: usize = 128;

/// How passwords are generated. Both modes currently produce random character passwords.
#[derive(Debug, Clone, Copy, PartialEq, Eq, Structural)]
pub enum GeneratorMode {
    Random,
    Passphrase,
}

/// Generator settings: the target length and which character classes to draw from.
#[derive(Debug, Clone, Copy, PartialEq, Eq, Structural)]
pub struct GeneratorConfig {
    pub length: usize,
    pub uppercase: bool,
    pub lowercase: bool,
    pub digits: bool,
    pub symbols: bool,
    pub exclude_ambiguous: bool,
    pub mode: GeneratorMode,
}

impl Default for GeneratorConfig {
    /// 24 characters from all four classes, ambiguous characters allowed, random mode.
    fn default() -> (r: Self)
        ensures
            r.length == 24,
            r.uppercase,
            r.lowercase,
            r.digits,
            r.symbols,
            !r.exclude_ambiguous,
            r.mode == GeneratorMode::Random,
    {
        GeneratorConfig {
            length: 24,
            uppercase: true,
            lowercase: true,
            digits: true,
            symbols: true,
            exclude_ambiguous: false,
            mode: GeneratorMode::Random,
        }
    }
}

/// The uppercase class `A`..`Z`.
pub open spec fn upper_chars() -> Seq<char> {
    seq![
        'A', 'B', 'C', 'D', 'E', 'F', 'G', 'H', 'I', 'J', 'K', 'L', 'M', 'N', 'O', 'P', 'Q',
        'R', 'S', 'T', 'U', 'V', 'W', 'X', 'Y', 'Z',
    ]
}

/// The lowercase class `a`..`z`.
pub open spec fn lower_chars() -> Seq<char> {
    seq![
        'a', 'b', 'c', 'd', 'e', 'f', 'g', 'h', 'i', 'j', 'k', 'l', 'm', 'n', 'o', 'p', 'q',
        'r', 's', 't', 'u', 'v', 'w', 'x', 'y', 'z',
    ]
}

/// The digit class `0`..`9`.
pub open spec fn digit_chars() -> Seq<char> {
    seq!['0', '1', '2', '3', '4', '5', '6', '7', '8', '9']
}

/// The symbol class.
pub open spec fn symbol_chars() -> Seq<char> {
    seq![
        '!', '@', '#', '$', '%', '^', '&', '*', '(', ')', '-', '_', '=', '+', '[', ']', '{', '}',
        ':', ';', ',', '.', '?',
    ]
}

/// Characters that are easy to confuse with one another.
pub open spec fn ambiguous_chars() -> Seq<char> {
    seq!['0', 'O', '1', 'l', 'I']
}

/// The predicate "not an ambiguous character".
pub open spec fn unambiguous_pred() -> spec_fn(char) -> bool {
    |c: char| !ambiguous_chars().contains(c)
}

/// A class, without its ambiguous characters when `exclude` is set.
pub open spec fn class_chars(base: Seq<char>, exclude: bool) -> Seq<char> {
    if exclude {
        base.filter(unambiguous_pred())
    } else {
        base
    }
}

/// The one-element list holding `set` when it is enabled and non-empty, else nothing.
pub open spec fn include_set(enabled: bool, set: Seq<char>) -> Seq<Seq<char>> {
    if enabled && set.len() > 0 {
        seq![set]
    } else {
        Seq::empty()
    }
}

/// The enabled, non-empty character classes in the order uppercase, lowercase, digits,
/// symbols.
pub open spec fn enabled_sets(c: GeneratorConfig) -> Seq<Seq<char>> {
    include_set(c.uppercase, class_chars(upper_chars(), c.exclude_ambiguous)) + include_set(
        c.lowercase,
        class_chars(lower_chars(), c.exclude_ambiguous),
    ) + include_set(c.digits, class_chars(digit_chars(), c.exclude_ambiguous)) + include_set(
        c.symbols,
        class_chars(symbol_chars(), c.exclude_ambiguous),
    )
}

/// All characters the generator may draw from: the enabled classes concatenated.
pub open spec fn full_charset(c: GeneratorConfig) -> Seq<char> {
    enabled_sets(c).flatten()
}

/// The requested length clamped to `[MIN_LENGTH, MAX_LENGTH]`.
pub open spec fn clamp_length(length: usize) -> nat {
    if length < MIN_LENGTH {
        MIN_LENGTH as nat
    } else if length > MAX_LENGTH {
        MAX_LENGTH as nat
    } else {
        length as nat
    }
}

/// Whether `password` is a valid output of the generator for `c`: empty when no class is
/// enabled; otherwise of the clamped length, drawn from the enabled classes only, and holding
/// at least one character of every enabled class.
pub open spec fn is_generated_password(c: GeneratorConfig, password: Seq<char>) -> bool {
    if enabled_sets(c).len() == 0 {
        password.len() == 0
    } else {
        &&& password.len() == clamp_length(c.length)
        &&& forall|i: int| 0 <= i < password.len() ==> full_charset(c).contains(#[trigger] password[i])
        &&& forall|k: int|
            0 <= k < enabled_sets(c).len() ==> exists|i: int|
                0 <= i < password.len() && (#[trigger] enabled_sets(c)[k]).contains(password[i])
    }
}

/// Trusted: `rand::rng()`, the thread-local random generator.
#[verifier::external_type_specification]
#[verifier::external_body]
pub struct ExThreadRng(rand::rngs::ThreadRng);

/// Trusted: `rand::rng()`, a handle to the thread-local cryptographically secure generator.
#[verifier::external_body]
fn thread_rng() -> (r: rand::rngs::ThreadRng) {
    rand::rng()
}

/// Trusted: `IndexedRandom::choose` on a character list: `None` exactly for an empty list,
/// otherwise one of the list's characters (chosen at random).
#[verifier::external_body]
fn choose_char(set: &Vec<char>, rng: &mut rand::rngs::ThreadRng) -> (r: Option<char>)
    ensures
        set@.len() == 0 <==> r is None,
        r matches Some(c) ==> set@.contains(c),
{
    set.choose(rng).copied()
}

/// Trusted: `SliceRandom::shuffle` on a character list, which permutes the characters in
/// place (Fisher-Yates swaps): the result holds the same characters with the same
/// multiplicities.
#[verifier::external_body]
fn shuffle_chars(chars: &mut Vec<char>, rng: &mut rand::rngs::ThreadRng)
    ensures
        final(chars)@.to_multiset() == old(chars)@.to_multiset(),
{
    chars.shuffle(rng)
}

fn uppercase_class() -> (r: Vec<char>)
    ensures
        r@ == upper_chars(),
{
    let r = vec![
        'A', 'B', 'C', 'D', 'E', 'F', 'G', 'H', 'I', 'J', 'K', 'L', 'M', 'N', 'O', 'P', 'Q',
        'R', 'S', 'T', 'U', 'V', 'W', 'X', 'Y', 'Z',
    ];
    assert(r@ =~= upper_chars());
    r
}

fn lowercase_class() -> (r: Vec<char>)
    ensures
        r@ == lower_chars(),
{
    let r = vec![
        'a', 'b', 'c', 'd', 'e', 'f', 'g', 'h', 'i', 'j', 'k', 'l', 'm', 'n', 'o', 'p', 'q',
        'r', 's', 't', 'u', 'v', 'w', 'x', 'y', 'z',
    ];
    assert(r@ =~= lower_chars());
    r
}

fn digit_class() -> (r: Vec<char>)
    ensures
        r@ == digit_chars(),
{
    let r = vec!['0', '1', '2', '3', '4', '5', '6', '7', '8', '9'];
    assert(r@ =~= digit_chars());
    r
}

fn symbol_class() -> (r: Vec<char>)
    ensures
        r@ == symbol_chars(),
{
    let r = vec![
        '!', '@', '#', '$', '%', '^', '&', '*', '(', ')', '-', '_', '=', '+', '[', ']', '{', '}',
        ':', ';', ',', '.', '?',
    ];
    assert(r@ =~= symbol_chars());
    r
}

/// Whether `c` is one of the ambiguous characters `0 O 1 l I`.
fn is_ambiguous(c: char) -> (r: bool)
    ensures
        r == ambiguous_chars().contains(c),
{
    let r = c == '0' || c == 'O' || c == '1' || c == 'l' || c == 'I';
    proof {
        let a = ambiguous_chars();
        if r {
            if c == '0' {
                assert(a[0] == c);
            } else if c == 'O' {
                assert(a[1] == c);
            } else if c == '1' {
                assert(a[2] == c);
            } else if c == 'l' {
                assert(a[3] == c);
            } else {
                assert(a[4] == c);
            }
        } else {
            assert forall|i: int| 0 <= i < a.len() implies a[i] != c by {}
        }
    }
    r
}

/// A class, without its ambiguous characters when `exclude_ambiguous` is set.
fn filter_ambiguous(charset: Vec<char>, exclude_ambiguous: bool) -> (r: Vec<char>)
    ensures
        r@ == class_chars(charset@, exclude_ambiguous),
{
    if !exclude_ambiguous {
        return charset;
    }
    let mut out: Vec<char> = Vec::new();
    let mut i: usize = 0;
    while i < charset.len()
        invariant
            i <= charset.len(),
            out@ == charset@.take(i as int).filter(unambiguous_pred()),
        decreases charset.len() - i,
    {
        let c = charset[i];
        let skip = is_ambiguous(c);
        proof {
            reveal_with_fuel(Seq::<_>::filter, 1);
            assert(charset@.take(i + 1).drop_last() =~= charset@.take(i as int));
            assert(charset@.take(i + 1).last() == c);
        }
        if !skip {
            out.push(c);
        }
        i = i + 1;
    }
    assert(charset@.take(charset.len() as int) =~= charset@);
    out
}

/// The enabled, non-empty character classes, in the order uppercase, lowercase, digits,
/// symbols.
fn enabled_charsets(config: &GeneratorConfig) -> (r: Vec<Vec<char>>)
    ensures
        r@.map_values(|s: Vec<char>| s@) == enabled_sets(*config),
{
    let mut sets: Vec<Vec<char>> = Vec::new();
    let ghost c = *config;
    let upper = filter_ambiguous(uppercase_class(), config.exclude_ambiguous);
    if config.uppercase && upper.len() > 0 {
        sets.push(upper);
    }
    assert(sets@.map_values(|s: Vec<char>| s@) =~= include_set(
        c.uppercase,
        class_chars(upper_chars(), c.exclude_ambiguous),
    ));
    let ghost after_upper = sets@.map_values(|s: Vec<char>| s@);
    let lower = filter_ambiguous(lowercase_class(), config.exclude_ambiguous);
    if config.lowercase && lower.len() > 0 {
        sets.push(lower);
    }
    assert(sets@.map_values(|s: Vec<char>| s@) =~= after_upper + include_set(
        c.lowercase,
        class_chars(lower_chars(), c.exclude_ambiguous),
    ));
    let ghost after_lower = sets@.map_values(|s: Vec<char>| s@);
    let digits = filter_ambiguous(digit_class(), config.exclude_ambiguous);
    if config.digits && digits.len() > 0 {
        sets.push(digits);
    }
    assert(sets@.map_values(|s: Vec<char>| s@) =~= after_lower + include_set(
        c.digits,
        class_chars(digit_chars(), c.exclude_ambiguous),
    ));
    let ghost after_digits = sets@.map_values(|s: Vec<char>| s@);
    let symbols = filter_ambiguous(symbol_class(), config.exclude_ambiguous);
    if config.symbols && symbols.len() > 0 {
        sets.push(symbols);
    }
    assert(sets@.map_values(|s: Vec<char>| s@) =~= after_digits + include_set(
        c.symbols,
        class_chars(symbol_chars(), c.exclude_ambiguous),
    ));
    sets
}

/// All enabled characters as one list: the enabled classes concatenated.
fn build_charset(config: &GeneratorConfig) -> (r: Vec<char>)
    ensures
        r@ == full_charset(*config),
{
    let sets = enabled_charsets(config);
    let ghost views = sets@.map_values(|s: Vec<char>| s@);
    let mut out: Vec<char> = Vec::new();
    let mut k: usize = 0;
    while k < sets.len()
        invariant
            k <= sets.len(),
            views == sets@.map_values(|s: Vec<char>| s@),
            out@ == views.take(k as int).flatten(),
        decreases sets.len() - k,
    {
        let set = &sets[k];
        let mut i: usize = 0;
        let ghost start = out@;
        while i < set.len()
            invariant
                i <= set.len(),
                out@ == start + set@.take(i as int),
            decreases set.len() - i,
        {
            out.push(set[i]);
            assert(start + set@.take(i + 1) =~= (start + set@.take(i as int)).push(set@[i as int]));
            i = i + 1;
        }
        proof {
            assert(set@.take(set.len() as int) =~= set@);
            assert(views.take(k + 1) =~= views.take(k as int).push(views[k as int]));
            views.take(k as int).lemma_flatten_push(views[k as int]);
        }
        k = k + 1;
    }
    assert(views.take(sets.len() as int) =~= views);
    out
}

/// The number of distinct characters the generator draws from for `config`; 0 when no class
/// is enabled. Entropy estimates are this many bits per character, in log2.
pub fn charset_size(config: &GeneratorConfig) -> (r: usize)
    ensures
        r == full_charset(*config).len(),
{
    build_charset(config).len()
}

/// A character of one class also belongs to the concatenation of the classes.
proof fn lemma_flatten_member(sets: Seq<Seq<char>>, k: int, c: char)
    requires
        0 <= k < sets.len(),
        sets[k].contains(c),
    ensures
        sets.flatten().contains(c),
    decreases sets.len(),
{
    if k == 0 {
        let i = choose|i: int| 0 <= i < sets[0].len() && sets[0][i] == c;
        assert(sets.flatten() == sets.first() + sets.drop_first().flatten());
        assert(sets.flatten()[i] == c);
    } else {
        lemma_flatten_member(sets.drop_first(), k - 1, c);
        let rest = sets.drop_first().flatten();
        let i = choose|i: int| 0 <= i < rest.len() && rest[i] == c;
        assert(sets.flatten() == sets.first() + rest);
        assert(sets.flatten()[sets.first().len() + i] == c);
    }
}

/// Collects characters into a string, in order.
fn string_from_chars(chars: &Vec<char>) -> (r: String)
    ensures
        r@ == chars@,
{
    let mut s = String::new();
    let mut i: usize = 0;
    while i < chars.len()
        invariant
            i <= chars.len(),
            s@ == chars@.take(i as int),
        decreases chars.len() - i,
    {
        push_char(&mut s, chars[i]);
        assert(chars@.take(i + 1) =~= chars@.take(i as int).push(chars@[i as int]));
        i = i + 1;
    }
    assert(chars@.take(chars.len() as int) =~= chars@);
    s
}

/// Draws one character from every enabled class, fills up to the clamped length from all
/// enabled characters, and shuffles. Returns the empty string when no class is enabled.
fn generate_random_password(config: &GeneratorConfig) -> (r: String)
    ensures
        is_generated_password(*config, r@),
{
    let required_sets = enabled_charsets(config);
    let full = build_charset(config);
    let ghost sets = required_sets@.map_values(|s: Vec<char>| s@);
    if required_sets.len() == 0 || full.len() == 0 {
        if required_sets.len() != 0 {
            proof {
                let s0 = sets[0];
                assert(s0.len() > 0);
                assert(s0.contains(s0[0]));
                lemma_flatten_member(sets, 0, s0[0]);
            }
        }
        return String::new();
    }
    let length = if config.length < MIN_LENGTH {
        MIN_LENGTH
    } else if config.length > MAX_LENGTH {
        MAX_LENGTH
    } else {
        config.length
    };
    let mut rng = thread_rng();
    let mut chars: Vec<char> = Vec::new();
    let mut k: usize = 0;
    assert(sets.len() <= 4);
    while k < required_sets.len()
        invariant
            k <= required_sets.len(),
            sets == required_sets@.map_values(|s: Vec<char>| s@),
            sets == enabled_sets(*config),
            sets.len() <= 4,
            full@ == full_charset(*config),
            chars@.len() == k,
            forall|j: int| 0 <= j < k ==> (#[trigger] sets[j]).contains(chars@[j]),
            forall|j: int| 0 <= j < chars@.len() ==> full@.contains(#[trigger] chars@[j]),
        decreases required_sets.len() - k,
    {
        let set = &required_sets[k];
        proof {
            include_sets_nonempty(*config, k as int);
        }
        let picked = choose_char(set, &mut rng);
        if let Some(c) = picked {
            proof {
                lemma_flatten_member(sets, k as int, c);
            }
            chars.push(c);
        }
        k = k + 1;
    }
    while chars.len() < length
        invariant
            chars@.len() <= length,
            length == clamp_length(config.length),
            full@.len() > 0,
            required_sets@.len() <= chars@.len(),
            sets == enabled_sets(*config),
            sets.len() == required_sets@.len(),
            full@ == full_charset(*config),
            forall|j: int| 0 <= j < sets.len() ==> (#[trigger] sets[j]).contains(chars@[j]),
            forall|j: int| 0 <= j < chars@.len() ==> full@.contains(#[trigger] chars@[j]),
        decreases length - chars.len(),
    {
        let picked = choose_char(&full, &mut rng);
        if let Some(c) = picked {
            chars.push(c);
        }
    }
    let ghost before = chars@;
    shuffle_chars(&mut chars, &mut rng);
    proof {
        broadcast use vstd::seq_lib::group_to_multiset_ensures;
        assert(chars@.len() == before.len()) by {
            assert(chars@.to_multiset().len() == before.to_multiset().len());
        }
        assert forall|i: int| 0 <= i < chars@.len() implies full@.contains(#[trigger] chars@[i]) by {
            assert(chars@.contains(chars@[i]));
            assert(before.to_multiset().count(chars@[i]) > 0);
            let j = choose|j: int| 0 <= j < before.len() && before[j] == chars@[i];
            assert(full@.contains(before[j]));
        }
        assert forall|k: int| 0 <= k < sets.len() implies exists|i: int|
            0 <= i < chars@.len() && (#[trigger] sets[k]).contains(chars@[i]) by {
            assert(before.contains(before[k]));
            assert(chars@.to_multiset().count(before[k]) > 0);
            let i = choose|i: int| 0 <= i < chars@.len() && chars@[i] == before[k];
            assert(sets[k].contains(chars@[i]));
        }
    }
    string_from_chars(&chars)
}

/// Every enabled class holds at least one character.
proof fn include_sets_nonempty(c: GeneratorConfig, k: int)
    requires
        0 <= k < enabled_sets(c).len(),
    ensures
        enabled_sets(c)[k].len() > 0,
{
    let a = include_set(c.uppercase, class_chars(upper_chars(), c.exclude_ambiguous));
    let b = include_set(c.lowercase, class_chars(lower_chars(), c.exclude_ambiguous));
    let d = include_set(c.digits, class_chars(digit_chars(), c.exclude_ambiguous));
    let e = include_set(c.symbols, class_chars(symbol_chars(), c.exclude_ambiguous));
    assert(enabled_sets(c) == a + b + d + e);
    if k < a.len() {
    } else if k < a.len() + b.len() {
        assert(enabled_sets(c)[k] == b[k - a.len()]);
    } else if k < a.len() + b.len() + d.len() {
        assert(enabled_sets(c)[k] == d[k - a.len() - b.len()]);
    } else {
        assert(enabled_sets(c)[k] == e[k - a.len() - b.len() - d.len()]);
    }
}

/// Generate a password for `config`. Both modes produce a random character password.
pub fn generate_password(config: &GeneratorConfig) -> (r: String)
    ensures
        is_generated_password(*config, r@),
{
    match config.mode {
        GeneratorMode::Random | GeneratorMode::Passphrase => generate_random_password(config),
    }
}

/// A character of the concatenated classes belongs to one of the classes.
proof fn lemma_flatten_member_rev(sets: Seq<Seq<char>>, c: char) -> (k: int)
    requires
        sets.flatten().contains(c),
    ensures
        0 <= k < sets.len(),
        sets[k].contains(c),
    decreases sets.len(),
{
    if sets.len() == 0 {
        assert(sets.flatten().len() == 0);
        0
    } else {
        let rest = sets.drop_first().flatten();
        assert(sets.flatten() == sets.first() + rest);
        let i = choose|i: int| 0 <= i < sets.flatten().len() && sets.flatten()[i] == c;
        if i < sets.first().len() {
            assert(sets[0][i] == c);
            0
        } else {
            assert(rest[i - sets.first().len()] == c);
            let k = lemma_flatten_member_rev(sets.drop_first(), c);
            assert(sets[k + 1] == sets.drop_first()[k]);
            k + 1
        }
    }
}

/// With ambiguous characters excluded, no enabled character is ambiguous.
proof fn lemma_charset_unambiguous(c: GeneratorConfig, x: char)
    requires
        c.exclude_ambiguous,
        full_charset(c).contains(x),
    ensures
        !ambiguous_chars().contains(x),
{
    let sets = enabled_sets(c);
    let k = lemma_flatten_member_rev(sets, x);
    let a = include_set(c.uppercase, class_chars(upper_chars(), c.exclude_ambiguous));
    let b = include_set(c.lowercase, class_chars(lower_chars(), c.exclude_ambiguous));
    let d = include_set(c.digits, class_chars(digit_chars(), c.exclude_ambiguous));
    let e = include_set(c.symbols, class_chars(symbol_chars(), c.exclude_ambiguous));
    assert(sets == a + b + d + e);
    let base = if k < a.len() {
        upper_chars()
    } else if k < a.len() + b.len() {
        assert(sets[k] == b[k - a.len()]);
        lower_chars()
    } else if k < a.len() + b.len() + d.len() {
        assert(sets[k] == d[k - a.len() - b.len()]);
        digit_chars()
    } else {
        assert(sets[k] == e[k - a.len() - b.len() - d.len()]);
        symbol_chars()
    };
    assert(sets[k] == base.filter(unambiguous_pred()));
    let f = base.filter(unambiguous_pred());
    let i = choose|i: int| 0 <= i < f.len() && f[i] == x;
    base.lemma_filter_pred(unambiguous_pred(), i);
}

/// With ambiguous characters excluded, a generated password holds none of `0 O 1 l I`.
pub proof fn generated_password_avoids_ambiguous(c: GeneratorConfig, password: Seq<char>)
    requires
        c.exclude_ambiguous,
        is_generated_password(c, password),
    ensures
        forall|i: int| 0 <= i < password.len() ==> !ambiguous_chars().contains(#[trigger] password[i]),
{
    assert forall|i: int| 0 <= i < password.len() implies !ambiguous_chars().contains(
        #[trigger] password[i],
    ) by {
        if enabled_sets(c).len() > 0 {
            lemma_charset_unambiguous(c, password[i]);
        }
    }
}

/// With at least one class enabled, a generated password is between `MIN_LENGTH` and
/// `MAX_LENGTH` characters long, and exactly the requested length when that is in range.
pub proof fn generated_password_length(c: GeneratorConfig, password: Seq<char>)
    requires
        enabled_sets(c).len() > 0,
        is_generated_password(c, password),
    ensures
        MIN_LENGTH <= password.len() <= MAX_LENGTH,
        MIN_LENGTH <= c.length <= MAX_LENGTH ==> password.len() == c.length,
{
}

/// Whether a character is an uppercase ASCII letter.
pub open spec fn is_upper_letter(x: char) -> bool {
    'A' <= x && x <= 'Z'
}

/// Whether a character is a lowercase ASCII letter.
pub open spec fn is_lower_letter(x: char) -> bool {
    'a' <= x && x <= 'z'
}

/// Whether a character is an ASCII digit.
pub open spec fn is_digit_char(x: char) -> bool {
    '0' <= x && x <= '9'
}

proof fn lemma_class_ranges(x: char)
    ensures
        upper_chars().contains(x) ==> is_upper_letter(x),
        lower_chars().contains(x) ==> is_lower_letter(x),
        digit_chars().contains(x) ==> is_digit_char(x),
        symbol_chars().contains(x) ==> !is_upper_letter(x) && !is_lower_letter(x) && !is_digit_char(x),
{
    if upper_chars().contains(x) {
        let i = choose|i: int| 0 <= i < upper_chars().len() && upper_chars()[i] == x;
        assert(is_upper_letter(upper_chars()[i]));
    }
    if lower_chars().contains(x) {
        let i = choose|i: int| 0 <= i < lower_chars().len() && lower_chars()[i] == x;
        assert(is_lower_letter(lower_chars()[i]));
    }
    if digit_chars().contains(x) {
        let i = choose|i: int| 0 <= i < digit_chars().len() && digit_chars()[i] == x;
        assert(is_digit_char(digit_chars()[i]));
    }
    if symbol_chars().contains(x) {
        let i = choose|i: int| 0 <= i < symbol_chars().len() && symbol_chars()[i] == x;
        let y = symbol_chars()[i];
        assert(!is_upper_letter(y) && !is_lower_letter(y) && !is_digit_char(y));
    }
}

proof fn lemma_class_subset(base: Seq<char>, exclude: bool, x: char)
    requires
        class_chars(base, exclude).contains(x),
    ensures
        base.contains(x),
{
    if exclude {
        base.lemma_filter_contains_rev(unambiguous_pred(), x);
    }
}

/// A character of the generator's charset belongs to a class whose flag is set.
proof fn lemma_charset_flag(c: GeneratorConfig, x: char)
    requires
        full_charset(c).contains(x),
    ensures
        (upper_chars().contains(x) && c.uppercase) || (lower_chars().contains(x) && c.lowercase)
            || (digit_chars().contains(x) && c.digits) || (symbol_chars().contains(x) && c.symbols),
{
    let sets = enabled_sets(c);
    let k = lemma_flatten_member_rev(sets, x);
    let a = include_set(c.uppercase, class_chars(upper_chars(), c.exclude_ambiguous));
    let b = include_set(c.lowercase, class_chars(lower_chars(), c.exclude_ambiguous));
    let d = include_set(c.digits, class_chars(digit_chars(), c.exclude_ambiguous));
    let e = include_set(c.symbols, class_chars(symbol_chars(), c.exclude_ambiguous));
    assert(sets == a + b + d + e);
    if k < a.len() {
        lemma_class_subset(upper_chars(), c.exclude_ambiguous, x);
    } else if k < a.len() + b.len() {
        assert(sets[k] == b[k - a.len()]);
        lemma_class_subset(lower_chars(), c.exclude_ambiguous, x);
    } else if k < a.len() + b.len() + d.len() {
        assert(sets[k] == d[k - a.len() - b.len()]);
        lemma_class_subset(digit_chars(), c.exclude_ambiguous, x);
    } else {
        assert(sets[k] == e[k - a.len() - b.len() - d.len()]);
        lemma_class_subset(symbol_chars(), c.exclude_ambiguous, x);
    }
}

proof fn lemma_class_nonempty(base: Seq<char>, exclude: bool, w: int)
    requires
        0 <= w < base.len(),
        !ambiguous_chars().contains(base[w]),
    ensures
        class_chars(base, exclude).len() > 0,
{
    if exclude {
        base.lemma_filter_contains(unambiguous_pred(), w);
    }
}

/// Every class flag governs its own class: a generated password holds an uppercase letter
/// only when `uppercase` is set, a lowercase letter only when `lowercase` is set, a digit
/// only when `digits` is set and a symbol only when `symbols` is set; and it holds at least
/// one character of each class whose flag is set.
pub proof fn generated_password_follows_class_flags(c: GeneratorConfig, password: Seq<char>)
    requires
        is_generated_password(c, password),
    ensures
        forall|i: int| 0 <= i < password.len() && is_upper_letter(#[trigger] password[i]) ==> c.uppercase,
        forall|i: int| 0 <= i < password.len() && is_lower_letter(#[trigger] password[i]) ==> c.lowercase,
        forall|i: int| 0 <= i < password.len() && is_digit_char(#[trigger] password[i]) ==> c.digits,
        forall|i: int| 0 <= i < password.len() && symbol_chars().contains(#[trigger] password[i]) ==> c.symbols,
        c.uppercase ==> exists|i: int| 0 <= i < password.len() && is_upper_letter(#[trigger] password[i]),
        c.lowercase ==> exists|i: int| 0 <= i < password.len() && is_lower_letter(#[trigger] password[i]),
        c.digits ==> exists|i: int| 0 <= i < password.len() && is_digit_char(#[trigger] password[i]),
        c.symbols ==> exists|i: int| 0 <= i < password.len() && symbol_chars().contains(#[trigger] password[i]),
{
    let sets = enabled_sets(c);
    assert forall|i: int| 0 <= i < password.len() implies {
        &&& is_upper_letter(#[trigger] password[i]) ==> c.uppercase
        &&& is_lower_letter(password[i]) ==> c.lowercase
        &&& is_digit_char(password[i]) ==> c.digits
        &&& symbol_chars().contains(password[i]) ==> c.symbols
    } by {
        if sets.len() > 0 {
            lemma_charset_flag(c, password[i]);
            lemma_class_ranges(password[i]);
        }
    }
    let a = include_set(c.uppercase, class_chars(upper_chars(), c.exclude_ambiguous));
    let b = include_set(c.lowercase, class_chars(lower_chars(), c.exclude_ambiguous));
    let d = include_set(c.digits, class_chars(digit_chars(), c.exclude_ambiguous));
    let e = include_set(c.symbols, class_chars(symbol_chars(), c.exclude_ambiguous));
    assert(sets == a + b + d + e);
    assert(upper_chars()[0] == 'A');
    assert(lower_chars()[0] == 'a');
    assert(digit_chars()[2] == '2');
    assert(symbol_chars()[0] == '!');
    lemma_class_nonempty(upper_chars(), c.exclude_ambiguous, 0);
    lemma_class_nonempty(lower_chars(), c.exclude_ambiguous, 0);
    lemma_class_nonempty(digit_chars(), c.exclude_ambiguous, 2);
    lemma_class_nonempty(symbol_chars(), c.exclude_ambiguous, 0);
    if c.uppercase {
        let k = 0int;
        assert(sets[k] == class_chars(upper_chars(), c.exclude_ambiguous));
        let i = choose|i: int| 0 <= i < password.len() && (#[trigger] sets[k]).contains(password[i]);
        lemma_class_subset(upper_chars(), c.exclude_ambiguous, password[i]);
        lemma_class_ranges(password[i]);
    }
    if c.lowercase {
        let k = a.len() as int;
        assert(sets[k] == class_chars(lower_chars(), c.exclude_ambiguous));
        let i = choose|i: int| 0 <= i < password.len() && (#[trigger] sets[k]).contains(password[i]);
        lemma_class_subset(lower_chars(), c.exclude_ambiguous, password[i]);
        lemma_class_ranges(password[i]);
    }
    if c.digits {
        let k = (a.len() + b.len()) as int;
        assert(sets[k] == class_chars(digit_chars(), c.exclude_ambiguous));
        let i = choose|i: int| 0 <= i < password.len() && (#[trigger] sets[k]).contains(password[i]);
        lemma_class_subset(digit_chars(), c.exclude_ambiguous, password[i]);
        lemma_class_ranges(password[i]);
    }
    if c.symbols {
        let k = (a.len() + b.len() + d.len()) as int;
        assert(sets[k] == class_chars(symbol_chars(), c.exclude_ambiguous));
        let i = choose|i: int| 0 <= i < password.len() && (#[trigger] sets[k]).contains(password[i]);
        lemma_class_subset(symbol_chars(), c.exclude_ambiguous, password[i]);
        lemma_class_ranges(password[i]);
    }
}

} // verus!
