//! The random password generator.
use vstd::prelude::*;
use vstd::string::*;

use rand::seq::SliceRandom;
use rand::Rng;

verus! {

broadcast use vstd::seq_lib::group_to_multiset_ensures;

/// Lower-case letters, without the easily confused `l`.
pub const LOWERCASE: &'static str = "abcdefghijkmnopqrstuvwxyz";

/// Upper-case letters, without the easily confused `I` and `O`.
pub const UPPERCASE: &'static str = "ABCDEFGHJKLMNPQRSTUVWXYZ";

/// Digits, without the easily confused `0` and `1`.
pub const DIGITS: &'static str = "23456789";

/// Symbols.
pub const SYMBOLS: &'static str = "!@#$%^&*()-_=+[]{}<>?";

/// Why no password was generated.
#[derive(Debug, PartialEq, Eq)]
pub enum PasswordError {
    /// The length is below the number of character groups asked for, the
    /// minimum that this error carries.
    TooShort(usize),
}

/// The character groups a password draws from: lower- and upper-case
/// letters, then digits and symbols where asked for.
pub open spec fn character_groups(include_numbers: bool, include_symbols: bool) -> Seq<Seq<char>> {
    let letters = seq![LOWERCASE@, UPPERCASE@];
    let with_numbers = if include_numbers {
        letters.push(DIGITS@)
    } else {
        letters
    };
    if include_symbols {
        with_numbers.push(SYMBOLS@)
    } else {
        with_numbers
    }
}

/// `c` belongs to one of `groups`.
pub open spec fn in_some_group(groups: Seq<Seq<char>>, c: char) -> bool {
    exists|g: int| 0 <= g < groups.len() && #[trigger] groups[g].contains(c)
}

/// `password` has `length` characters, each from one of `groups`, and at
/// least one from every group.
pub open spec fn is_password_from(password: Seq<char>, length: nat, groups: Seq<Seq<char>>) -> bool {
    &&& password.len() == length
    &&& forall|i: int| 0 <= i < password.len() ==> in_some_group(groups, #[trigger] password[i])
    &&& forall|g: int| 0 <= g < groups.len() ==> uses_group(password, #[trigger] groups[g])
}

/// Some character of `password` belongs to `group`.
pub open spec fn uses_group(password: Seq<char>, group: Seq<char>) -> bool {
    exists|i: int| 0 <= i < password.len() && group.contains(#[trigger] password[i])
}

/// `Rng::gen_range(0..len)` on `rand::thread_rng()`: a random index below
/// `len`. Which index comes back is chance: only its range is stated.
#[verifier::external_body]
fn random_index(len: usize) -> (i: usize)
    requires
        len > 0,
    ensures
        i < len,
{
    rand::thread_rng().gen_range(0..len)
}

/// `SliceRandom::shuffle` on `rand::thread_rng()`: a random permutation of
/// the characters, so the same characters, each as often, in an order left
/// to chance.
#[verifier::external_body]
fn shuffle_chars(chars: &mut Vec<char>)
    ensures
        final(chars)@.to_multiset() == old(chars)@.to_multiset(),
{
    chars.shuffle(&mut rand::thread_rng());
}

/// `String`'s `FromIterator<char>`: the string of these characters.
#[verifier::external_body]
fn string_from_chars(chars: Vec<char>) -> (s: String)
    ensures
        s@ == chars@,
{
    chars.into_iter().collect()
}

/// The characters of `s`.
fn chars_of(s: &str) -> (r: Vec<char>)
    ensures
        r@ == s@,
{
    let n = s.unicode_len();
    let mut r: Vec<char> = Vec::new();
    let mut i: usize = 0;
    while i < n
        invariant
            n == s@.len(),
            i <= n,
            r@ == s@.subrange(0, i as int),
        decreases n - i,
    {
        r.push(s.get_char(i));
        i = i + 1;
        assert(r@ =~= s@.subrange(0, i as int));
    }
    assert(s@.subrange(0, n as int) =~= s@);
    r
}

/// The character groups for the given options.
fn group_list(include_numbers: bool, include_symbols: bool) -> (r: Vec<Vec<char>>)
    ensures
        r@.len() == character_groups(include_numbers, include_symbols).len(),
        forall|g: int| 0 <= g < r@.len() ==> #[trigger] r@[g]@ == character_groups(
            include_numbers,
            include_symbols,
        )[g],
        forall|g: int| 0 <= g < r@.len() ==> #[trigger] r@[g]@.len() > 0,
{
    proof {
        reveal_strlit("abcdefghijkmnopqrstuvwxyz");
        reveal_strlit("ABCDEFGHJKLMNPQRSTUVWXYZ");
        reveal_strlit("23456789");
        reveal_strlit("!@#$%^&*()-_=+[]{}<>?");
    }
    let mut groups: Vec<Vec<char>> = Vec::new();
    groups.push(chars_of(LOWERCASE));
    groups.push(chars_of(UPPERCASE));
    if include_numbers {
        groups.push(chars_of(DIGITS));
    }
    if include_symbols {
        groups.push(chars_of(SYMBOLS));
    }
    groups
}

/// A random character of `group`, or nothing when the group is empty.
fn random_char(group: &Vec<char>) -> (r: Option<char>)
    ensures
        (r is None) == (group@.len() == 0),
        r matches Some(c) ==> group@.contains(c),
{
    if group.len() == 0 {
        None
    } else {
        let i = random_index(group.len());
        assert(group@[i as int] == group@[i as int]);
        Some(group[i])
    }
}

/// A random password of `length` characters drawn from lower- and upper-case
/// letters and, where asked for, digits and symbols, with at least one
/// character from each of these groups. Fails when `length` is below the
/// number of groups.
pub fn generate_password(length: usize, include_numbers: bool, include_symbols: bool) -> (r:
    Result<String, PasswordError>)
    ensures
        (r is Err) == (length < character_groups(include_numbers, include_symbols).len()),
        r matches Err(PasswordError::TooShort(min)) ==> min == character_groups(
            include_numbers,
            include_symbols,
        ).len(),
        r matches Ok(p) ==> is_password_from(
            p@,
            length as nat,
            character_groups(include_numbers, include_symbols),
        ),
{
    let ghost spec_groups = character_groups(include_numbers, include_symbols);
    let groups = group_list(include_numbers, include_symbols);
    let count = groups.len();
    if length < count {
        return Err(PasswordError::TooShort(count));
    }
    let mut chars: Vec<char> = Vec::new();
    let mut g: usize = 0;
    while g < count
        invariant
            count == groups@.len(),
            count == spec_groups.len(),
            g <= count,
            forall|k: int| 0 <= k < count ==> #[trigger] groups@[k]@ == spec_groups[k],
            forall|k: int| 0 <= k < count ==> #[trigger] groups@[k]@.len() > 0,
            chars@.len() == g,
            forall|k: int| 0 <= k < g ==> #[trigger] spec_groups[k].contains(chars@[k]),
        decreases count - g,
    {
        let c = random_char(&groups[g]).unwrap();
        chars.push(c);
        g = g + 1;
    }
    assert forall|i: int| 0 <= i < chars@.len() implies in_some_group(
        spec_groups,
        #[trigger] chars@[i],
    ) by {
        assert(spec_groups[i].contains(chars@[i]));
    }
    assert(count >= 2);
    while chars.len() < length
        invariant
            count >= 2,
            count == groups@.len(),
            count == spec_groups.len(),
            count <= length,
            forall|k: int| 0 <= k < count ==> #[trigger] groups@[k]@ == spec_groups[k],
            forall|k: int| 0 <= k < count ==> #[trigger] groups@[k]@.len() > 0,
            count <= chars@.len() <= length,
            forall|k: int| 0 <= k < count ==> #[trigger] spec_groups[k].contains(chars@[k]),
            forall|i: int| 0 <= i < chars@.len() ==> in_some_group(spec_groups, #[trigger] chars@[i]),
        decreases length - chars@.len(),
    {
        let gi = random_index(count);
        let c = random_char(&groups[gi]).unwrap();
        assert(spec_groups[gi as int].contains(c));
        chars.push(c);
    }
    let ghost before = chars@;
    assert forall|i: int| 0 <= i < before.len() implies in_some_group(spec_groups, #[trigger] before[i]) by {
        if i < count {
            assert(spec_groups[i].contains(before[i]));
        }
    }
    shuffle_chars(&mut chars);
    let ghost after = chars@;
    proof {
        assert(after.len() == before.len()) by {
            assert(after.to_multiset().len() == before.to_multiset().len());
        }
        assert forall|i: int| 0 <= i < after.len() implies in_some_group(spec_groups, #[trigger] after[i]) by {
            assert(after.contains(after[i]));
            assert(after.to_multiset().count(after[i]) > 0);
            assert(before.contains(after[i]));
            let j = choose|j: int| 0 <= j < before.len() && before[j] == after[i];
            assert(in_some_group(spec_groups, before[j]));
        }
        assert forall|k: int| 0 <= k < spec_groups.len() implies uses_group(
            after,
            #[trigger] spec_groups[k],
        ) by {
            assert(spec_groups[k].contains(before[k]));
            assert(before.contains(before[k]));
            assert(before.to_multiset().count(before[k]) > 0);
            assert(after.contains(before[k]));
            let i = choose|i: int| 0 <= i < after.len() && after[i] == before[k];
            assert(spec_groups[k].contains(after[i]));
        }
    }
    Ok(string_from_chars(chars))
}

/// The groups a password draws from are lower- and upper-case letters,
/// plus the digits exactly when numbers are asked for and the symbols
/// exactly when symbols are asked for, each independently of the other: so
/// the shortest password has 2, 3 or 4 characters, a password from them has
/// at least one character of each chosen group, and every character of it
/// belongs to a chosen group.
pub proof fn lemma_password_groups(
    include_numbers: bool,
    include_symbols: bool,
    password: Seq<char>,
    length: nat,
)
    ensures
        character_groups(include_numbers, include_symbols).len() == 2 + (if include_numbers {
            1int
        } else {
            0int
        }) + (if include_symbols {
            1int
        } else {
            0int
        }),
        is_password_from(password, length, character_groups(include_numbers, include_symbols))
            ==> {
            &&& password.len() == length
            &&& (exists|i: int| 0 <= i < password.len() && LOWERCASE@.contains(#[trigger] password[i]))
            &&& (exists|i: int| 0 <= i < password.len() && UPPERCASE@.contains(#[trigger] password[i]))
            &&& include_numbers ==> (exists|i: int|
                0 <= i < password.len() && DIGITS@.contains(#[trigger] password[i]))
            &&& include_symbols ==> (exists|i: int|
                0 <= i < password.len() && SYMBOLS@.contains(#[trigger] password[i]))
            &&& forall|i: int|
                0 <= i < password.len() ==> {
                    ||| LOWERCASE@.contains(#[trigger] password[i])
                    ||| UPPERCASE@.contains(password[i])
                    ||| (include_numbers && DIGITS@.contains(password[i]))
                    ||| (include_symbols && SYMBOLS@.contains(password[i]))
                }
        },
{
    let groups = character_groups(include_numbers, include_symbols);
    let d: int = 2;
    let y: int = if include_numbers { 3 } else { 2 };
    assert(groups[0] == LOWERCASE@);
    assert(groups[1] == UPPERCASE@);
    assert(include_numbers ==> groups[d] == DIGITS@);
    assert(include_symbols ==> groups[y] == SYMBOLS@);
    if is_password_from(password, length, groups) {
        assert(uses_group(password, groups[0]));
        assert(uses_group(password, groups[1]));
        if include_numbers {
            assert(uses_group(password, groups[d]));
        }
        if include_symbols {
            assert(uses_group(password, groups[y]));
        }
        assert forall|i: int| 0 <= i < password.len() implies {
            ||| LOWERCASE@.contains(#[trigger] password[i])
            ||| UPPERCASE@.contains(password[i])
            ||| (include_numbers && DIGITS@.contains(password[i]))
            ||| (include_symbols && SYMBOLS@.contains(password[i]))
        } by {
            assert(in_some_group(groups, password[i]));
            let g = choose|g: int| 0 <= g < groups.len() && #[trigger] groups[g].contains(password[i]);
            if g >= 2 {
                if include_numbers && g == 2 {
                    assert(groups[g] == DIGITS@);
                } else {
                    assert(include_symbols && groups[g] == SYMBOLS@);
                }
            }
        }
    }
}

} // verus!
