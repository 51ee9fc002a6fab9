//! Character-level rules on file names and paths: whitespace, the underscore
//! substitution, the extension of a name, joining a name to its directory and
//! the decimal form of a size.
use vstd::prelude::*;

verus! {

/// Whether `c` carries the Unicode `White_Space` property.
pub open spec fn is_space_char(c: char) -> bool {
    ||| ('\u{9}' <= c && c <= '\u{d}')
    ||| c == ' '
    ||| c == '\u{85}'
    ||| c == '\u{a0}'
    ||| c == '\u{1680}'
    ||| ('\u{2000}' <= c && c <= '\u{200a}')
    ||| c == '\u{2028}'
    ||| c == '\u{2029}'
    ||| c == '\u{202f}'
    ||| c == '\u{205f}'
    ||| c == '\u{3000}'
}

/// Whether some character of `s` is whitespace.
pub open spec fn has_space(s: Seq<char>) -> bool {
    exists|i: int| 0 <= i < s.len() && is_space_char(#[trigger] s[i])
}

/// `s` with every whitespace character replaced by `_`, all others kept.
pub open spec fn underscored(s: Seq<char>) -> Seq<char> {
    Seq::new(s.len(), |i: int| if is_space_char(s[i]) { '_' } else { s[i] })
}

/// `i` is the position of the last `.` in `name`.
pub open spec fn is_last_dot(name: Seq<char>, i: int) -> bool {
    &&& 0 <= i < name.len()
    &&& name[i] == '.'
    &&& forall|j: int| i < j < name.len() ==> name[j] != '.'
}

/// The extension of a file name: what follows its last `.`, where that dot is
/// not the name's first character. A name without such a dot has none.
pub open spec fn extension_of(name: Seq<char>) -> Option<Seq<char>> {
    if exists|i: int| 0 < i && is_last_dot(name, i) {
        let i = choose|i: int| 0 < i && is_last_dot(name, i);
        Some(name.subrange(i + 1, name.len() as int))
    } else {
        None
    }
}

/// The path of the entry `name` inside the directory `dir`.
pub open spec fn joined(dir: Seq<char>, name: Seq<char>) -> Seq<char> {
    if dir.len() == 0 {
        name
    } else if dir.last() == '/' {
        dir + name
    } else {
        dir + seq!['/'] + name
    }
}

/// The character of the decimal digit `d`.
pub open spec fn digit_char(d: nat) -> char {
    if d == 0 { '0' }
    else if d == 1 { '1' }
    else if d == 2 { '2' }
    else if d == 3 { '3' }
    else if d == 4 { '4' }
    else if d == 5 { '5' }
    else if d == 6 { '6' }
    else if d == 7 { '7' }
    else if d == 8 { '8' }
    else { '9' }
}

/// The decimal form of `n`, without leading zeros.
pub open spec fn decimal(n: nat) -> Seq<char>
    decreases n,
{
    if n < 10 {
        seq![digit_char(n)]
    } else {
        decimal(n / 10) + seq![digit_char(n % 10)]
    }
}

/// Tells whether `c` is a whitespace character.
pub fn is_space(c: char) -> (r: bool)
    ensures
        r == is_space_char(c),
{
    ('\u{9}' <= c && c <= '\u{d}') || c == ' ' || c == '\u{85}' || c == '\u{a0}' || c
        == '\u{1680}' || ('\u{2000}' <= c && c <= '\u{200a}') || c == '\u{2028}' || c
        == '\u{2029}' || c == '\u{202f}' || c == '\u{205f}' || c == '\u{3000}'
}

/// Tells whether the name `s` holds a whitespace character.
pub fn contains_space(s: &str) -> (r: bool)
    ensures
        r == has_space(s@),
{
    let n = s.unicode_len();
    let mut i: usize = 0;
    while i < n
        invariant
            n == s@.len(),
            i <= n,
            forall|j: int| 0 <= j < i ==> !is_space_char(#[trigger] s@[j]),
        decreases n - i,
    {
        if is_space(s.get_char(i)) {
            return true;
        }
        i = i + 1;
    }
    false
}

/// The name `s` with each whitespace character replaced by `_`.
pub fn underscore(s: &str) -> (r: String)
    ensures
        r@ == underscored(s@),
{
    let n = s.unicode_len();
    let mut r = String::new();
    let mut i: usize = 0;
    while i < n
        invariant
            n == s@.len(),
            i <= n,
            r@ == underscored(s@).subrange(0, i as int),
        decreases n - i,
    {
        let ghost before = r@;
        let c = s.get_char(i);
        if is_space(c) {
            proof {
                reveal_strlit("_");
            }
            r.append("_");
            assert(r@ =~= before + seq!['_']);
        } else {
            r.append(s.substring_char(i, i + 1));
            assert(r@ =~= before + seq![c]);
        }
        assert(r@ =~= underscored(s@).subrange(0, i + 1));
        i = i + 1;
    }
    assert(r@ =~= underscored(s@));
    r
}

/// The extension of the file name `name`, if it has one.
pub fn extension(name: &str) -> (r: Option<String>)
    ensures
        match (r, extension_of(name@)) {
            (Some(e), Some(x)) => e@ == x,
            (None, None) => true,
            _ => false,
        },
{
    let n = name.unicode_len();
    let mut i: usize = n;
    while i > 0
        invariant
            n == name@.len(),
            i <= n,
            forall|j: int| i <= j < n ==> name@[j] != '.',
        decreases i,
    {
        if name.get_char(i - 1) == '.' {
            let d = i - 1;
            assert(is_last_dot(name@, d as int));
            assert forall|k: int| is_last_dot(name@, k) implies k == d by {
                if k < d {
                    assert(name@[d as int] == '.');
                } else if k > d {
                    assert(name@[k] != '.');
                }
            }
            if d == 0 {
                return None;
            }
            return Some(String::from_str(name.substring_char(i, n)));
        }
        i = i - 1;
    }
    assert(!exists|k: int| is_last_dot(name@, k));
    None
}

/// The path of the entry `name` inside the directory `dir`.
pub fn join(dir: &str, name: &str) -> (r: String)
    ensures
        r@ == joined(dir@, name@),
{
    let n = dir.unicode_len();
    proof {
        reveal_strlit("/");
    }
    if n == 0 {
        String::from_str(name)
    } else if dir.get_char(n - 1) == '/' {
        String::from_str(dir).concat(name)
    } else {
        String::from_str(dir).concat("/").concat(name)
    }
}

/// The one-character text of the decimal digit `d`.
fn digit(d: u64) -> (r: &'static str)
    requires
        d < 10,
    ensures
        r@ == seq![digit_char(d as nat)],
{
    proof {
        reveal_strlit("0");
        reveal_strlit("1");
        reveal_strlit("2");
        reveal_strlit("3");
        reveal_strlit("4");
        reveal_strlit("5");
        reveal_strlit("6");
        reveal_strlit("7");
        reveal_strlit("8");
        reveal_strlit("9");
    }
    if d == 0 { "0" }
    else if d == 1 { "1" }
    else if d == 2 { "2" }
    else if d == 3 { "3" }
    else if d == 4 { "4" }
    else if d == 5 { "5" }
    else if d == 6 { "6" }
    else if d == 7 { "7" }
    else if d == 8 { "8" }
    else { "9" }
}

/// The decimal form of `n`.
pub fn to_decimal(n: u64) -> (r: String)
    ensures
        r@ == decimal(n as nat),
{
    let mut m: u64 = n;
    let mut acc = String::new();
    assert(acc@ =~= Seq::<char>::empty());
    while m >= 10
        invariant
            decimal(n as nat) == decimal(m as nat) + acc@,
        decreases m,
    {
        let d = digit(m % 10);
        acc = String::from_str(d).concat(acc.as_str());
        assert(decimal(m as nat) == decimal((m / 10) as nat) + seq![digit_char((m % 10) as nat)]);
        assert(decimal(n as nat) =~= decimal((m / 10) as nat) + acc@);
        m = m / 10;
    }
    let r = String::from_str(digit(m)).concat(acc.as_str());
    assert(r@ =~= decimal(n as nat));
    r
}

} // verus!
