//! Names of virtual-key codes, as the overlay shows them, and the keys
//! that a binding may take.
use vstd::prelude::*;

verus! {

/// `VK_RSHIFT`: toggles the overlay.
pub const VK_RSHIFT: i32 = 0xA1;

/// `VK_ESCAPE`.
pub const VK_ESCAPE: i32 = 0x1B;

/// `VK_LBUTTON`: the left mouse button.
pub const VK_LBUTTON: i32 = 0x01;

/// `VK_PRIOR`: page up.
pub const VK_PRIOR: i32 = 0x21;

/// `VK_NEXT`: page down.
pub const VK_NEXT: i32 = 0x22;

/// The character of a decimal digit.
pub open spec fn digit_char(d: int) -> char {
    (48 + d) as char
}

/// The decimal digits of `n`, most significant first, without leading zeros.
pub open spec fn nat_digits(n: nat) -> Seq<char>
    decreases n,
{
    if n < 10 {
        seq![digit_char(n as int)]
    } else {
        nat_digits(n / 10).push(digit_char((n % 10) as int))
    }
}

/// `n` written in decimal, with a leading `-` where it is negative.
pub open spec fn decimal(n: int) -> Seq<char> {
    if n < 0 {
        seq!['-'] + nat_digits((-n) as nat)
    } else {
        nat_digits(n as nat)
    }
}

/// The name shown for a virtual-key code: a fixed name for the navigation
/// and modifier keys, the character itself for digits and capital letters,
/// and `VK_` followed by the code in decimal for every other code.
pub open spec fn key_name(vk: i32) -> Seq<char> {
    if vk == 0x21 {
        seq!['P', 'G', 'U', 'P']
    } else if vk == 0x22 {
        seq!['P', 'G', 'D', 'N']
    } else if vk == 0x26 {
        seq!['U', 'P']
    } else if vk == 0x28 {
        seq!['D', 'O', 'W', 'N']
    } else if vk == 0x25 {
        seq!['L', 'E', 'F', 'T']
    } else if vk == 0x27 {
        seq!['R', 'I', 'G', 'H', 'T']
    } else if vk == 0x08 {
        seq!['B', 'A', 'C', 'K', 'S', 'P', 'A', 'C', 'E']
    } else if vk == 0x09 {
        seq!['T', 'A', 'B']
    } else if vk == 0x0D {
        seq!['E', 'N', 'T', 'E', 'R']
    } else if vk == 0x10 {
        seq!['S', 'H', 'I', 'F', 'T']
    } else if vk == 0x11 {
        seq!['C', 'T', 'R', 'L']
    } else if vk == 0x12 {
        seq!['A', 'L', 'T']
    } else if vk == 0x1B {
        seq!['E', 'S', 'C']
    } else if vk == 0x20 {
        seq!['S', 'P', 'A', 'C', 'E']
    } else if (0x30 <= vk <= 0x39) || (0x41 <= vk <= 0x5A) {
        seq![vk as char]
    } else {
        seq!['V', 'K', '_'] + decimal(vk as int)
    }
}

/// Appends `c` to `s` by calling `String::push`, which std documents as
/// appending the character to the end of the string; nothing else changes.
#[verifier::external_body]
fn push_char(s: &mut String, c: char)
    ensures
        final(s)@ == old(s)@.push(c),
{
    s.push(c);
}

/// Appends the decimal digits of `n` to `s`.
fn push_digits(s: &mut String, n: u64)
    ensures
        final(s)@ == old(s)@ + nat_digits(n as nat),
    decreases n,
{
    if n >= 10 {
        push_digits(s, n / 10);
    }
    let d: u8 = (n % 10) as u8;
    push_char(s, (48u8 + d) as char);
    assert(final(s)@ =~= old(s)@ + nat_digits(n as nat)) by {
        if n >= 10 {
            assert(nat_digits(n as nat) =~= nat_digits((n / 10) as nat).push(digit_char((n % 10) as int)));
        }
    }
}

/// Returns the name shown for the virtual-key code `vk`.
pub fn get_key_name(vk: i32) -> (name: String)
    ensures
        name@ == key_name(vk),
{
    let (fixed, named): (&str, bool) = if vk == 0x21 {
        ("PGUP", true)
    } else if vk == 0x22 {
        ("PGDN", true)
    } else if vk == 0x26 {
        ("UP", true)
    } else if vk == 0x28 {
        ("DOWN", true)
    } else if vk == 0x25 {
        ("LEFT", true)
    } else if vk == 0x27 {
        ("RIGHT", true)
    } else if vk == 0x08 {
        ("BACKSPACE", true)
    } else if vk == 0x09 {
        ("TAB", true)
    } else if vk == 0x0D {
        ("ENTER", true)
    } else if vk == 0x10 {
        ("SHIFT", true)
    } else if vk == 0x11 {
        ("CTRL", true)
    } else if vk == 0x12 {
        ("ALT", true)
    } else if vk == 0x1B {
        ("ESC", true)
    } else if vk == 0x20 {
        ("SPACE", true)
    } else {
        ("", false)
    };
    proof {
        reveal_strlit("PGUP");
        reveal_strlit("PGDN");
        reveal_strlit("UP");
        reveal_strlit("DOWN");
        reveal_strlit("LEFT");
        reveal_strlit("RIGHT");
        reveal_strlit("BACKSPACE");
        reveal_strlit("TAB");
        reveal_strlit("ENTER");
        reveal_strlit("SHIFT");
        reveal_strlit("CTRL");
        reveal_strlit("ALT");
        reveal_strlit("ESC");
        reveal_strlit("SPACE");
        reveal_strlit("");
    }
    if named {
        return String::from_str(fixed);
    }
    let mut name = String::new();
    if (0x30 <= vk && vk <= 0x39) || (0x41 <= vk && vk <= 0x5A) {
        push_char(&mut name, (vk as u8) as char);
        return name;
    }
    push_char(&mut name, 'V');
    push_char(&mut name, 'K');
    push_char(&mut name, '_');
    assert(name@ =~= seq!['V', 'K', '_']);
    if vk < 0 {
        push_char(&mut name, '-');
        let magnitude: u64 = (-(vk as i64)) as u64;
        push_digits(&mut name, magnitude);
        assert(magnitude as nat == (-(vk as int)) as nat);
        assert(name@ =~= seq!['V', 'K', '_'] + (seq!['-'] + nat_digits((-(vk as int)) as nat)));
    } else {
        push_digits(&mut name, vk as u64);
        assert(name@ =~= seq!['V', 'K', '_'] + nat_digits(vk as nat));
    }
    assert(name@ =~= key_name(vk));
    name
}


proof fn lemma_nat_digits_shape(n: nat)
    ensures
        nat_digits(n).len() >= 1,
        n >= 10 ==> nat_digits(n).len() >= 2,
        48 <= nat_digits(n)[0] as int <= 57,
    decreases n,
{
    if n >= 10 {
        lemma_nat_digits_shape(n / 10);
        assert(nat_digits(n)[0] == nat_digits(n / 10)[0]);
    }
}

proof fn lemma_nat_digits_injective(n: nat, m: nat)
    requires
        nat_digits(n) == nat_digits(m),
    ensures
        n == m,
    decreases n,
{
    lemma_nat_digits_shape(n);
    lemma_nat_digits_shape(m);
    if n < 10 && m < 10 {
        assert(nat_digits(n)[0] == nat_digits(m)[0]);
        assert(digit_char(n as int) as int == 48 + n);
        assert(digit_char(m as int) as int == 48 + m);
    } else if n >= 10 && m >= 10 {
        let dn = nat_digits(n);
        assert(dn.last() == digit_char((n % 10) as int));
        assert(nat_digits(m).last() == digit_char((m % 10) as int));
        assert(digit_char((n % 10) as int) as int == 48 + n % 10);
        assert(digit_char((m % 10) as int) as int == 48 + m % 10);
        assert(dn.drop_last() =~= nat_digits(n / 10));
        assert(nat_digits(m).drop_last() =~= nat_digits(m / 10));
        lemma_nat_digits_injective(n / 10, m / 10);
    } else {
        assert(nat_digits(n).len() != nat_digits(m).len());
    }
}

proof fn lemma_decimal(a: int, b: int)
    ensures
        decimal(a).len() >= 1,
        decimal(a) == decimal(b) ==> a == b,
{
    lemma_nat_digits_shape(if a < 0 { (-a) as nat } else { a as nat });
    lemma_nat_digits_shape(if b < 0 { (-b) as nat } else { b as nat });
    if decimal(a) == decimal(b) {
        assert(decimal(a)[0] == decimal(b)[0]);
        if a < 0 && b < 0 {
            assert(decimal(a).drop_first() =~= nat_digits((-a) as nat));
            assert(decimal(b).drop_first() =~= nat_digits((-b) as nat));
            lemma_nat_digits_injective((-a) as nat, (-b) as nat);
        } else if a >= 0 && b >= 0 {
            lemma_nat_digits_injective(a as nat, b as nat);
        }
    }
}

/// Every key code has a name, and distinct codes have distinct names.
pub proof fn lemma_key_names_distinct(a: i32, b: i32)
    ensures
        key_name(a).len() > 0,
        a != b ==> key_name(a) != key_name(b),
{
    lemma_decimal(a as int, b as int);
    let x = key_name(a);
    let y = key_name(b);
    if a != b && x == y {
        assert(x.len() == y.len());
        assert(x[0] == y[0]);
        if x.len() >= 2 {
            assert(x[1] == y[1]);
        }
        if x.len() >= 3 {
            assert(x[2] == y[2]);
        }
        let va = seq!['V', 'K', '_'] + decimal(a as int);
        let vb = seq!['V', 'K', '_'] + decimal(b as int);
        if x == va && y == vb {
            assert(va.skip(3) =~= decimal(a as int));
            assert(vb.skip(3) =~= decimal(b as int));
        }
        if x.len() == 1 && y.len() == 1 {
            assert(x[0] as int == a);
            assert(y[0] as int == b);
        }
    }
}


/// The number that a string of decimal digits spells.
pub open spec fn digits_value(s: Seq<char>) -> int
    decreases s.len(),
{
    if s.len() == 0 {
        0
    } else {
        digits_value(s.drop_last()) * 10 + (s.last() as int - 48)
    }
}

/// Every character of `s` is a decimal digit.
pub open spec fn all_digits(s: Seq<char>) -> bool {
    forall|i: int| 0 <= i < s.len() ==> 48 <= #[trigger] s[i] as int <= 57
}

proof fn lemma_nat_digits_spell(n: nat)
    ensures
        nat_digits(n).len() >= 1,
        all_digits(nat_digits(n)),
        digits_value(nat_digits(n)) == n,
        nat_digits(n)[0] as int == 48 ==> n == 0,
    decreases n,
{
    let d = nat_digits(n);
    if n >= 10 {
        lemma_nat_digits_spell(n / 10);
        assert(d.drop_last() =~= nat_digits(n / 10));
        assert(d[0] == nat_digits(n / 10)[0]);
        assert(digit_char((n % 10) as int) as int == 48 + n % 10);
        assert(d.last() == digit_char((n % 10) as int));
        assert(digits_value(d) == digits_value(d.drop_last()) * 10 + (d.last() as int - 48));
        assert((n / 10) * 10 + n % 10 == n);
        assert forall|i: int| 0 <= i < d.len() implies 48 <= #[trigger] d[i] as int <= 57 by {
            if i < d.len() - 1 {
                assert(d[i] == nat_digits(n / 10)[i]);
            }
        }
    } else {
        assert(digit_char(n as int) as int == 48 + n);
        assert(d.drop_last() =~= Seq::<char>::empty());
        assert(digits_value(d) == digits_value(d.drop_last()) * 10 + (d.last() as int - 48));
    }
}

/// Key names, stated as text: the fourteen named keys have their fixed
/// names; digit keys and capital-letter keys are named by their own single
/// character; every other code is named `VK_`, then `-` where the code is
/// negative, then the decimal digits of its magnitude, without leading
/// zeros.
pub proof fn lemma_key_name_law(vk: i32)
    ensures
        vk == 0x21 ==> key_name(vk) == seq!['P', 'G', 'U', 'P'],
        vk == 0x22 ==> key_name(vk) == seq!['P', 'G', 'D', 'N'],
        vk == 0x26 ==> key_name(vk) == seq!['U', 'P'],
        vk == 0x28 ==> key_name(vk) == seq!['D', 'O', 'W', 'N'],
        vk == 0x25 ==> key_name(vk) == seq!['L', 'E', 'F', 'T'],
        vk == 0x27 ==> key_name(vk) == seq!['R', 'I', 'G', 'H', 'T'],
        vk == 0x08 ==> key_name(vk) == seq!['B', 'A', 'C', 'K', 'S', 'P', 'A', 'C', 'E'],
        vk == 0x09 ==> key_name(vk) == seq!['T', 'A', 'B'],
        vk == 0x0D ==> key_name(vk) == seq!['E', 'N', 'T', 'E', 'R'],
        vk == 0x10 ==> key_name(vk) == seq!['S', 'H', 'I', 'F', 'T'],
        vk == 0x11 ==> key_name(vk) == seq!['C', 'T', 'R', 'L'],
        vk == 0x12 ==> key_name(vk) == seq!['A', 'L', 'T'],
        vk == 0x1B ==> key_name(vk) == seq!['E', 'S', 'C'],
        vk == 0x20 ==> key_name(vk) == seq!['S', 'P', 'A', 'C', 'E'],
        0x30 <= vk <= 0x39 || 0x41 <= vk <= 0x5A ==> key_name(vk).len() == 1 && key_name(vk)[0] as int == vk,
        ({
            let named = vk == 0x21 || vk == 0x22 || vk == 0x26 || vk == 0x28 || vk == 0x25 || vk == 0x27
                || vk == 0x08 || vk == 0x09 || vk == 0x0D || vk == 0x10 || vk == 0x11 || vk == 0x12
                || vk == 0x1B || vk == 0x20 || (0x30 <= vk <= 0x39) || (0x41 <= vk <= 0x5A);
            let s = key_name(vk);
            let digits = if vk < 0 { s.skip(4) } else { s.skip(3) };
            !named ==> {
                &&& s.len() >= 4 && s[0] == 'V' && s[1] == 'K' && s[2] == '_'
                &&& vk < 0 ==> s[3] == '-'
                &&& digits.len() >= 1 && all_digits(digits)
                &&& digits_value(digits) == if vk < 0 { -(vk as int) } else { vk as int }
                &&& digits[0] as int == 48 ==> vk == 0
            }
        }),
{
    let m: nat = if vk < 0 { (-(vk as int)) as nat } else { vk as nat };
    lemma_nat_digits_spell(m);
    let s = key_name(vk);
    let named = vk == 0x21 || vk == 0x22 || vk == 0x26 || vk == 0x28 || vk == 0x25 || vk == 0x27
        || vk == 0x08 || vk == 0x09 || vk == 0x0D || vk == 0x10 || vk == 0x11 || vk == 0x12
        || vk == 0x1B || vk == 0x20 || (0x30 <= vk <= 0x39) || (0x41 <= vk <= 0x5A);
    if !named {
        assert(s == seq!['V', 'K', '_'] + decimal(vk as int));
        if vk < 0 {
            assert(s.skip(4) =~= nat_digits(m));
        } else {
            assert(s.skip(3) =~= nat_digits(m));
        }
    }
}

} // verus!
