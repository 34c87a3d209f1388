//! Laws of the text forms: every canonical key name that the preset
//! importer writes is read back by the key-name parser as the same usage,
//! and a polling rate's text parses back to the rate.
use vstd::prelude::*;
use crate::button::{f_key_name, key_usage_from_name, keypad_number, keypad_prefix, named_key_usage, normalize_key_name};
use crate::capability::{parse_polling_rate_spec, polling_hz, PollingRate};
use crate::ngenuity::{fixed_usage_name, usage_name};
use crate::text::{
    all_digits, ascii_lower, decimal_chars, decimal_value, digit_char, digit_value, is_whitespace,
    parse_unsigned, trim, trim_end, trim_start,
};

verus! {

/// A character that a canonical key name is made of.
pub open spec fn canonical_char(c: char) -> bool {
    ('a' <= c <= 'z') || ('0' <= c <= '9') || c == '-'
}

pub open spec fn is_canonical_name(name: Seq<char>) -> bool {
    name.len() > 0 && forall|i: int| 0 <= i < name.len() ==> canonical_char(#[trigger] name[i])
}

/// A canonical name is its own normal form.
pub(crate) proof fn lemma_normalize_canonical(name: Seq<char>)
    requires
        is_canonical_name(name),
    ensures
        normalize_key_name(name) == name,
{
    assert(canonical_char(name[0]));
    assert(!is_whitespace(name[0]));
    assert(trim_start(name) == name);
    assert(canonical_char(name.last()));
    assert(!is_whitespace(name.last()));
    assert(trim_end(name) == name);
    assert(trim(name) == name);
    assert forall|i: int| 0 <= i < name.len() implies ascii_lower(#[trigger] name[i]) == name[i]
        && ascii_lower(name[i]) != '_' by {
        assert(canonical_char(name[i]));
    }
    assert(normalize_key_name(name) =~= name);
}

/// The decimal text of a number from 1 to 24 is canonical and parses back
/// to the number.
proof fn lemma_small_decimal(n: nat)
    requires
        1 <= n <= 24,
    ensures
        is_canonical_name(decimal_chars(n)),
        all_digits(decimal_chars(n)),
        parse_unsigned(decimal_chars(n), 65535) == Some(n),
        decimal_chars(n).len() <= 2,
        decimal_chars(n)[0] != '+',
{
    let d = decimal_chars(n);
    if n < 10 {
        assert(d == seq![digit_char(n)]);
        assert(d.drop_last() =~= Seq::<char>::empty());
        assert(decimal_value(d.drop_last()) == 0);
        assert(digit_value(digit_char(n)) == n);
        assert(decimal_value(d) == n);
    } else {
        assert(decimal_chars(n / 10) == seq![digit_char(n / 10)]);
        assert(d == seq![digit_char(n / 10), digit_char(n % 10)]);
        assert(d.drop_last() == seq![digit_char(n / 10)]);
        let e = d.drop_last();
        assert(e.drop_last() =~= Seq::<char>::empty());
        assert(decimal_value(e.drop_last()) == 0);
        assert(e.last() == digit_char(n / 10));
        assert(digit_value(digit_char(n / 10)) == n / 10);
        assert(decimal_value(e) == n / 10);
        assert(digit_value(digit_char(n % 10)) == n % 10);
        assert(decimal_value(d) == n);
    }
}

/// The name of a key in one of the numbered ranges reads back as its usage.
proof fn lemma_numbered_name_round_trip(usage: u16)
    requires
        (0x04 <= usage <= 0x27) || (0x3A <= usage <= 0x45) || (0x59 <= usage <= 0x61) || (0x68
            <= usage <= 0x73),
    ensures
        usage_name(usage) matches Some(name) && is_canonical_name(name) && key_usage_from_name(name)
            == Some(usage),
{
    if 0x04 <= usage <= 0x1D {
    } else if 0x1E <= usage <= 0x26 {
        let k = (usage - 0x1E + 1) as nat;
        lemma_small_decimal(k);
        assert(decimal_chars(k) == seq![digit_char(k)]);
    } else if usage == 0x27 {
        reveal_strlit("0");
        assert("0"@ == seq!['0']);
    } else if 0x3A <= usage <= 0x45 || 0x68 <= usage <= 0x73 {
        let k = if usage <= 0x45 {
            (usage - 0x3A + 1) as nat
        } else {
            (usage - 0x68 + 13) as nat
        };
        lemma_small_decimal(k);
        reveal_strlit("f");
        let name = "f"@ + decimal_chars(k);
        assert(name.drop_first() =~= decimal_chars(k));
        assert(f_key_name(name) == Some(k));
        assert(is_canonical_name(name)) by {
            assert forall|i: int| 0 <= i < name.len() implies canonical_char(#[trigger] name[i]) by {
                if i > 0 {
                    assert(name[i] == decimal_chars(k)[i - 1]);
                }
            }
        }
    } else {
        let k = (usage - 0x59 + 1) as nat;
        lemma_small_decimal(k);
        reveal_strlit("keypad-");
        let name = "keypad-"@ + decimal_chars(k);
        assert(name.take(7) =~= keypad_prefix());
        assert(name.skip(7) =~= decimal_chars(k));
        assert(name[0] == 'k');
        assert(f_key_name(name) is None);
        assert(keypad_number(name) == Some(k));
        assert(is_canonical_name(name)) by {
            assert forall|i: int| 0 <= i < name.len() implies canonical_char(#[trigger] name[i]) by {
                if i >= 7 {
                    assert(name[i] == decimal_chars(k)[i - 7]);
                }
            }
        }
    }
}



/// A canonical name that only the named-key table knows reads back as the
/// table's usage.
proof fn lemma_named_round_trip(name: Seq<char>, usage: u16)
    requires
        is_canonical_name(name),
        name.len() >= 2,
        name[0] != 'f',
        keypad_number(name) is None,
        named_key_usage(name) == Some(usage),
    ensures
        key_usage_from_name(normalize_key_name(name)) == Some(usage),
{
    lemma_normalize_canonical(name);
}

/// The named keys of this usage span read back as their usages.
#[verifier::spinoff_prover]
proof fn lemma_named_keys_0x28_to_0x31(usage: u16)
    requires
        usage == 0x28 || usage == 0x29 || usage == 0x2A || usage == 0x2B || usage == 0x2C || usage == 0x2D || usage == 0x2E || usage == 0x2F || usage == 0x30 || usage == 0x31,
    ensures
        fixed_usage_name(usage) matches Some(name) && is_canonical_name(name@) && key_usage_from_name(
            normalize_key_name(name@),
        ) == Some(usage),
{
    reveal_strlit("apostrophe");
    reveal_strlit("application");
    reveal_strlit("arrow-down");
    reveal_strlit("arrow-left");
    reveal_strlit("arrow-right");
    reveal_strlit("arrow-up");
    reveal_strlit("backslash");
    reveal_strlit("backspace");
    reveal_strlit("backtick");
    reveal_strlit("caps-lock");
    reveal_strlit("comma");
    reveal_strlit("delete");
    reveal_strlit("dot");
    reveal_strlit("down-arrow");
    reveal_strlit("end");
    reveal_strlit("enter");
    reveal_strlit("equal");
    reveal_strlit("equals");
    reveal_strlit("esc");
    reveal_strlit("escape");
    reveal_strlit("grave");
    reveal_strlit("home");
    reveal_strlit("insert");
    reveal_strlit("keypad-add");
    reveal_strlit("keypad-decimal");
    reveal_strlit("keypad-divide");
    reveal_strlit("keypad-enter");
    reveal_strlit("keypad-equal");
    reveal_strlit("keypad-multiply");
    reveal_strlit("keypad-subtract");
    reveal_strlit("left-alt");
    reveal_strlit("left-arrow");
    reveal_strlit("left-bracket");
    reveal_strlit("left-control");
    reveal_strlit("left-ctrl");
    reveal_strlit("left-gui");
    reveal_strlit("left-shift");
    reveal_strlit("left-win");
    reveal_strlit("left-windows");
    reveal_strlit("menu");
    reveal_strlit("minus");
    reveal_strlit("non-us-backslash");
    reveal_strlit("non-us-hash");
    reveal_strlit("num-lock");
    reveal_strlit("page-down");
    reveal_strlit("page-up");
    reveal_strlit("pause");
    reveal_strlit("period");
    reveal_strlit("power");
    reveal_strlit("print-screen");
    reveal_strlit("quote");
    reveal_strlit("return");
    reveal_strlit("right-alt");
    reveal_strlit("right-arrow");
    reveal_strlit("right-bracket");
    reveal_strlit("right-control");
    reveal_strlit("right-ctrl");
    reveal_strlit("right-gui");
    reveal_strlit("right-shift");
    reveal_strlit("right-win");
    reveal_strlit("right-windows");
    reveal_strlit("scroll-lock");
    reveal_strlit("semicolon");
    reveal_strlit("slash");
    reveal_strlit("space");
    reveal_strlit("tab");
    reveal_strlit("up-arrow");
    if usage == 0x28 {
        lemma_named_round_trip("enter"@, usage);
    } else if usage == 0x29 {
        lemma_named_round_trip("escape"@, usage);
    } else if usage == 0x2A {
        lemma_named_round_trip("backspace"@, usage);
    } else if usage == 0x2B {
        lemma_named_round_trip("tab"@, usage);
    } else if usage == 0x2C {
        lemma_named_round_trip("space"@, usage);
    } else if usage == 0x2D {
        lemma_named_round_trip("minus"@, usage);
    } else if usage == 0x2E {
        lemma_named_round_trip("equal"@, usage);
    } else if usage == 0x2F {
        lemma_named_round_trip("left-bracket"@, usage);
    } else if usage == 0x30 {
        lemma_named_round_trip("right-bracket"@, usage);
    } else if usage == 0x31 {
        lemma_named_round_trip("backslash"@, usage);
    }
}

/// The named keys of this usage span read back as their usages.
#[verifier::spinoff_prover]
proof fn lemma_named_keys_0x32_to_0x47(usage: u16)
    requires
        usage == 0x32 || usage == 0x33 || usage == 0x34 || usage == 0x35 || usage == 0x36 || usage == 0x37 || usage == 0x38 || usage == 0x39 || usage == 0x46 || usage == 0x47,
    ensures
        fixed_usage_name(usage) matches Some(name) && is_canonical_name(name@) && key_usage_from_name(
            normalize_key_name(name@),
        ) == Some(usage),
{
    reveal_strlit("apostrophe");
    reveal_strlit("application");
    reveal_strlit("arrow-down");
    reveal_strlit("arrow-left");
    reveal_strlit("arrow-right");
    reveal_strlit("arrow-up");
    reveal_strlit("backslash");
    reveal_strlit("backspace");
    reveal_strlit("backtick");
    reveal_strlit("caps-lock");
    reveal_strlit("comma");
    reveal_strlit("delete");
    reveal_strlit("dot");
    reveal_strlit("down-arrow");
    reveal_strlit("end");
    reveal_strlit("enter");
    reveal_strlit("equal");
    reveal_strlit("equals");
    reveal_strlit("esc");
    reveal_strlit("escape");
    reveal_strlit("grave");
    reveal_strlit("home");
    reveal_strlit("insert");
    reveal_strlit("keypad-add");
    reveal_strlit("keypad-decimal");
    reveal_strlit("keypad-divide");
    reveal_strlit("keypad-enter");
    reveal_strlit("keypad-equal");
    reveal_strlit("keypad-multiply");
    reveal_strlit("keypad-subtract");
    reveal_strlit("left-alt");
    reveal_strlit("left-arrow");
    reveal_strlit("left-bracket");
    reveal_strlit("left-control");
    reveal_strlit("left-ctrl");
    reveal_strlit("left-gui");
    reveal_strlit("left-shift");
    reveal_strlit("left-win");
    reveal_strlit("left-windows");
    reveal_strlit("menu");
    reveal_strlit("minus");
    reveal_strlit("non-us-backslash");
    reveal_strlit("non-us-hash");
    reveal_strlit("num-lock");
    reveal_strlit("page-down");
    reveal_strlit("page-up");
    reveal_strlit("pause");
    reveal_strlit("period");
    reveal_strlit("power");
    reveal_strlit("print-screen");
    reveal_strlit("quote");
    reveal_strlit("return");
    reveal_strlit("right-alt");
    reveal_strlit("right-arrow");
    reveal_strlit("right-bracket");
    reveal_strlit("right-control");
    reveal_strlit("right-ctrl");
    reveal_strlit("right-gui");
    reveal_strlit("right-shift");
    reveal_strlit("right-win");
    reveal_strlit("right-windows");
    reveal_strlit("scroll-lock");
    reveal_strlit("semicolon");
    reveal_strlit("slash");
    reveal_strlit("space");
    reveal_strlit("tab");
    reveal_strlit("up-arrow");
    if usage == 0x32 {
        lemma_named_round_trip("non-us-hash"@, usage);
    } else if usage == 0x33 {
        lemma_named_round_trip("semicolon"@, usage);
    } else if usage == 0x34 {
        lemma_named_round_trip("apostrophe"@, usage);
    } else if usage == 0x35 {
        lemma_named_round_trip("grave"@, usage);
    } else if usage == 0x36 {
        lemma_named_round_trip("comma"@, usage);
    } else if usage == 0x37 {
        lemma_named_round_trip("period"@, usage);
    } else if usage == 0x38 {
        lemma_named_round_trip("slash"@, usage);
    } else if usage == 0x39 {
        lemma_named_round_trip("caps-lock"@, usage);
    } else if usage == 0x46 {
        lemma_named_round_trip("print-screen"@, usage);
    } else if usage == 0x47 {
        lemma_named_round_trip("scroll-lock"@, usage);
    }
}

/// The named keys of this usage span read back as their usages.
#[verifier::spinoff_prover]
proof fn lemma_named_keys_0x48_to_0x51(usage: u16)
    requires
        usage == 0x48 || usage == 0x49 || usage == 0x4A || usage == 0x4B || usage == 0x4C || usage == 0x4D || usage == 0x4E || usage == 0x4F || usage == 0x50 || usage == 0x51,
    ensures
        fixed_usage_name(usage) matches Some(name) && is_canonical_name(name@) && key_usage_from_name(
            normalize_key_name(name@),
        ) == Some(usage),
{
    reveal_strlit("apostrophe");
    reveal_strlit("application");
    reveal_strlit("arrow-down");
    reveal_strlit("arrow-left");
    reveal_strlit("arrow-right");
    reveal_strlit("arrow-up");
    reveal_strlit("backslash");
    reveal_strlit("backspace");
    reveal_strlit("backtick");
    reveal_strlit("caps-lock");
    reveal_strlit("comma");
    reveal_strlit("delete");
    reveal_strlit("dot");
    reveal_strlit("down-arrow");
    reveal_strlit("end");
    reveal_strlit("enter");
    reveal_strlit("equal");
    reveal_strlit("equals");
    reveal_strlit("esc");
    reveal_strlit("escape");
    reveal_strlit("grave");
    reveal_strlit("home");
    reveal_strlit("insert");
    reveal_strlit("keypad-add");
    reveal_strlit("keypad-decimal");
    reveal_strlit("keypad-divide");
    reveal_strlit("keypad-enter");
    reveal_strlit("keypad-equal");
    reveal_strlit("keypad-multiply");
    reveal_strlit("keypad-subtract");
    reveal_strlit("left-alt");
    reveal_strlit("left-arrow");
    reveal_strlit("left-bracket");
    reveal_strlit("left-control");
    reveal_strlit("left-ctrl");
    reveal_strlit("left-gui");
    reveal_strlit("left-shift");
    reveal_strlit("left-win");
    reveal_strlit("left-windows");
    reveal_strlit("menu");
    reveal_strlit("minus");
    reveal_strlit("non-us-backslash");
    reveal_strlit("non-us-hash");
    reveal_strlit("num-lock");
    reveal_strlit("page-down");
    reveal_strlit("page-up");
    reveal_strlit("pause");
    reveal_strlit("period");
    reveal_strlit("power");
    reveal_strlit("print-screen");
    reveal_strlit("quote");
    reveal_strlit("return");
    reveal_strlit("right-alt");
    reveal_strlit("right-arrow");
    reveal_strlit("right-bracket");
    reveal_strlit("right-control");
    reveal_strlit("right-ctrl");
    reveal_strlit("right-gui");
    reveal_strlit("right-shift");
    reveal_strlit("right-win");
    reveal_strlit("right-windows");
    reveal_strlit("scroll-lock");
    reveal_strlit("semicolon");
    reveal_strlit("slash");
    reveal_strlit("space");
    reveal_strlit("tab");
    reveal_strlit("up-arrow");
    if usage == 0x48 {
        lemma_named_round_trip("pause"@, usage);
    } else if usage == 0x49 {
        lemma_named_round_trip("insert"@, usage);
    } else if usage == 0x4A {
        lemma_named_round_trip("home"@, usage);
    } else if usage == 0x4B {
        lemma_named_round_trip("page-up"@, usage);
    } else if usage == 0x4C {
        lemma_named_round_trip("delete"@, usage);
    } else if usage == 0x4D {
        lemma_named_round_trip("end"@, usage);
    } else if usage == 0x4E {
        lemma_named_round_trip("page-down"@, usage);
    } else if usage == 0x4F {
        lemma_named_round_trip("arrow-right"@, usage);
    } else if usage == 0x50 {
        lemma_named_round_trip("arrow-left"@, usage);
    } else if usage == 0x51 {
        lemma_named_round_trip("arrow-down"@, usage);
    }
}

/// The named keys of this usage span read back as their usages.
#[verifier::spinoff_prover]
proof fn lemma_named_keys_0x52_to_0x64(usage: u16)
    requires
        usage == 0x52 || usage == 0x53 || usage == 0x54 || usage == 0x55 || usage == 0x56 || usage == 0x57 || usage == 0x58 || usage == 0x62 || usage == 0x63 || usage == 0x64,
    ensures
        fixed_usage_name(usage) matches Some(name) && is_canonical_name(name@) && key_usage_from_name(
            normalize_key_name(name@),
        ) == Some(usage),
{
    reveal_strlit("apostrophe");
    reveal_strlit("application");
    reveal_strlit("arrow-down");
    reveal_strlit("arrow-left");
    reveal_strlit("arrow-right");
    reveal_strlit("arrow-up");
    reveal_strlit("backslash");
    reveal_strlit("backspace");
    reveal_strlit("backtick");
    reveal_strlit("caps-lock");
    reveal_strlit("comma");
    reveal_strlit("delete");
    reveal_strlit("dot");
    reveal_strlit("down-arrow");
    reveal_strlit("end");
    reveal_strlit("enter");
    reveal_strlit("equal");
    reveal_strlit("equals");
    reveal_strlit("esc");
    reveal_strlit("escape");
    reveal_strlit("grave");
    reveal_strlit("home");
    reveal_strlit("insert");
    reveal_strlit("keypad-0");
    reveal_strlit("keypad-add");
    reveal_strlit("keypad-decimal");
    reveal_strlit("keypad-divide");
    reveal_strlit("keypad-enter");
    reveal_strlit("keypad-equal");
    reveal_strlit("keypad-multiply");
    reveal_strlit("keypad-subtract");
    reveal_strlit("left-alt");
    reveal_strlit("left-arrow");
    reveal_strlit("left-bracket");
    reveal_strlit("left-control");
    reveal_strlit("left-ctrl");
    reveal_strlit("left-gui");
    reveal_strlit("left-shift");
    reveal_strlit("left-win");
    reveal_strlit("left-windows");
    reveal_strlit("menu");
    reveal_strlit("minus");
    reveal_strlit("non-us-backslash");
    reveal_strlit("non-us-hash");
    reveal_strlit("num-lock");
    reveal_strlit("page-down");
    reveal_strlit("page-up");
    reveal_strlit("pause");
    reveal_strlit("period");
    reveal_strlit("power");
    reveal_strlit("print-screen");
    reveal_strlit("quote");
    reveal_strlit("return");
    reveal_strlit("right-alt");
    reveal_strlit("right-arrow");
    reveal_strlit("right-bracket");
    reveal_strlit("right-control");
    reveal_strlit("right-ctrl");
    reveal_strlit("right-gui");
    reveal_strlit("right-shift");
    reveal_strlit("right-win");
    reveal_strlit("right-windows");
    reveal_strlit("scroll-lock");
    reveal_strlit("semicolon");
    reveal_strlit("slash");
    reveal_strlit("space");
    reveal_strlit("tab");
    reveal_strlit("up-arrow");
    if usage == 0x52 {
        lemma_named_round_trip("arrow-up"@, usage);
    } else if usage == 0x53 {
        lemma_named_round_trip("num-lock"@, usage);
    } else if usage == 0x54 {
        let name = "keypad-divide"@;
        assert(name.take(7) =~= keypad_prefix());
        assert(!('0' <= name.skip(7)[0] <= '9'));
        assert(keypad_number(name) is None);
        lemma_named_round_trip(name, usage);
    } else if usage == 0x55 {
        let name = "keypad-multiply"@;
        assert(name.take(7) =~= keypad_prefix());
        assert(!('0' <= name.skip(7)[0] <= '9'));
        assert(keypad_number(name) is None);
        lemma_named_round_trip(name, usage);
    } else if usage == 0x56 {
        let name = "keypad-subtract"@;
        assert(name.take(7) =~= keypad_prefix());
        assert(!('0' <= name.skip(7)[0] <= '9'));
        assert(keypad_number(name) is None);
        lemma_named_round_trip(name, usage);
    } else if usage == 0x57 {
        let name = "keypad-add"@;
        assert(name.take(7) =~= keypad_prefix());
        assert(!('0' <= name.skip(7)[0] <= '9'));
        assert(keypad_number(name) is None);
        lemma_named_round_trip(name, usage);
    } else if usage == 0x58 {
        let name = "keypad-enter"@;
        assert(name.take(7) =~= keypad_prefix());
        assert(!('0' <= name.skip(7)[0] <= '9'));
        assert(keypad_number(name) is None);
        lemma_named_round_trip(name, usage);
    } else if usage == 0x62 {
        reveal_strlit("keypad-0");
        let name = "keypad-0"@;
        assert(name.take(7) =~= keypad_prefix());
        assert(name.skip(7) =~= seq!['0']);
        let zero = seq!['0'];
        assert(zero.drop_last() =~= Seq::<char>::empty());
        assert(decimal_value(Seq::<char>::empty()) == 0);
        assert(zero.last() == '0');
        assert(digit_value('0') == 0);
        assert(decimal_value(zero) == 0);
        assert(all_digits(seq!['0']));
        assert(keypad_number(name) == Some(0nat));
        lemma_normalize_canonical(name);
    } else if usage == 0x63 {
        let name = "keypad-decimal"@;
        assert(name.take(7) =~= keypad_prefix());
        assert(!('0' <= name.skip(7)[0] <= '9'));
        assert(keypad_number(name) is None);
        lemma_named_round_trip(name, usage);
    } else if usage == 0x64 {
        lemma_named_round_trip("non-us-backslash"@, usage);
    }
}

/// The named keys of this usage span read back as their usages.
#[verifier::spinoff_prover]
proof fn lemma_named_keys_0x65_to_0xe6(usage: u16)
    requires
        usage == 0x65 || usage == 0x66 || usage == 0x67 || usage == 0xE0 || usage == 0xE1 || usage == 0xE2 || usage == 0xE3 || usage == 0xE4 || usage == 0xE5 || usage == 0xE6,
    ensures
        fixed_usage_name(usage) matches Some(name) && is_canonical_name(name@) && key_usage_from_name(
            normalize_key_name(name@),
        ) == Some(usage),
{
    reveal_strlit("apostrophe");
    reveal_strlit("application");
    reveal_strlit("arrow-down");
    reveal_strlit("arrow-left");
    reveal_strlit("arrow-right");
    reveal_strlit("arrow-up");
    reveal_strlit("backslash");
    reveal_strlit("backspace");
    reveal_strlit("backtick");
    reveal_strlit("caps-lock");
    reveal_strlit("comma");
    reveal_strlit("delete");
    reveal_strlit("dot");
    reveal_strlit("down-arrow");
    reveal_strlit("end");
    reveal_strlit("enter");
    reveal_strlit("equal");
    reveal_strlit("equals");
    reveal_strlit("esc");
    reveal_strlit("escape");
    reveal_strlit("grave");
    reveal_strlit("home");
    reveal_strlit("insert");
    reveal_strlit("keypad-add");
    reveal_strlit("keypad-decimal");
    reveal_strlit("keypad-divide");
    reveal_strlit("keypad-enter");
    reveal_strlit("keypad-equal");
    reveal_strlit("keypad-multiply");
    reveal_strlit("keypad-subtract");
    reveal_strlit("left-alt");
    reveal_strlit("left-arrow");
    reveal_strlit("left-bracket");
    reveal_strlit("left-control");
    reveal_strlit("left-ctrl");
    reveal_strlit("left-gui");
    reveal_strlit("left-shift");
    reveal_strlit("left-win");
    reveal_strlit("left-windows");
    reveal_strlit("menu");
    reveal_strlit("minus");
    reveal_strlit("non-us-backslash");
    reveal_strlit("non-us-hash");
    reveal_strlit("num-lock");
    reveal_strlit("page-down");
    reveal_strlit("page-up");
    reveal_strlit("pause");
    reveal_strlit("period");
    reveal_strlit("power");
    reveal_strlit("print-screen");
    reveal_strlit("quote");
    reveal_strlit("return");
    reveal_strlit("right-alt");
    reveal_strlit("right-arrow");
    reveal_strlit("right-bracket");
    reveal_strlit("right-control");
    reveal_strlit("right-ctrl");
    reveal_strlit("right-gui");
    reveal_strlit("right-shift");
    reveal_strlit("right-win");
    reveal_strlit("right-windows");
    reveal_strlit("scroll-lock");
    reveal_strlit("semicolon");
    reveal_strlit("slash");
    reveal_strlit("space");
    reveal_strlit("tab");
    reveal_strlit("up-arrow");
    if usage == 0x65 {
        lemma_named_round_trip("application"@, usage);
    } else if usage == 0x66 {
        lemma_named_round_trip("power"@, usage);
    } else if usage == 0x67 {
        let name = "keypad-equal"@;
        assert(name.take(7) =~= keypad_prefix());
        assert(!('0' <= name.skip(7)[0] <= '9'));
        assert(keypad_number(name) is None);
        lemma_named_round_trip(name, usage);
    } else if usage == 0xE0 {
        lemma_named_round_trip("left-control"@, usage);
    } else if usage == 0xE1 {
        lemma_named_round_trip("left-shift"@, usage);
    } else if usage == 0xE2 {
        lemma_named_round_trip("left-alt"@, usage);
    } else if usage == 0xE3 {
        lemma_named_round_trip("left-windows"@, usage);
    } else if usage == 0xE4 {
        lemma_named_round_trip("right-control"@, usage);
    } else if usage == 0xE5 {
        lemma_named_round_trip("right-shift"@, usage);
    } else if usage == 0xE6 {
        lemma_named_round_trip("right-alt"@, usage);
    }
}

/// The named keys of this usage span read back as their usages.
#[verifier::spinoff_prover]
proof fn lemma_named_key_0xe7(usage: u16)
    requires
        usage == 0xE7,
    ensures
        fixed_usage_name(usage) matches Some(name) && is_canonical_name(name@) && key_usage_from_name(
            normalize_key_name(name@),
        ) == Some(usage),
{
    reveal_strlit("apostrophe");
    reveal_strlit("application");
    reveal_strlit("arrow-down");
    reveal_strlit("arrow-left");
    reveal_strlit("arrow-right");
    reveal_strlit("arrow-up");
    reveal_strlit("backslash");
    reveal_strlit("backspace");
    reveal_strlit("backtick");
    reveal_strlit("caps-lock");
    reveal_strlit("comma");
    reveal_strlit("delete");
    reveal_strlit("dot");
    reveal_strlit("down-arrow");
    reveal_strlit("end");
    reveal_strlit("enter");
    reveal_strlit("equal");
    reveal_strlit("equals");
    reveal_strlit("esc");
    reveal_strlit("escape");
    reveal_strlit("grave");
    reveal_strlit("home");
    reveal_strlit("insert");
    reveal_strlit("keypad-add");
    reveal_strlit("keypad-decimal");
    reveal_strlit("keypad-divide");
    reveal_strlit("keypad-enter");
    reveal_strlit("keypad-equal");
    reveal_strlit("keypad-multiply");
    reveal_strlit("keypad-subtract");
    reveal_strlit("left-alt");
    reveal_strlit("left-arrow");
    reveal_strlit("left-bracket");
    reveal_strlit("left-control");
    reveal_strlit("left-ctrl");
    reveal_strlit("left-gui");
    reveal_strlit("left-shift");
    reveal_strlit("left-win");
    reveal_strlit("left-windows");
    reveal_strlit("menu");
    reveal_strlit("minus");
    reveal_strlit("non-us-backslash");
    reveal_strlit("non-us-hash");
    reveal_strlit("num-lock");
    reveal_strlit("page-down");
    reveal_strlit("page-up");
    reveal_strlit("pause");
    reveal_strlit("period");
    reveal_strlit("power");
    reveal_strlit("print-screen");
    reveal_strlit("quote");
    reveal_strlit("return");
    reveal_strlit("right-alt");
    reveal_strlit("right-arrow");
    reveal_strlit("right-bracket");
    reveal_strlit("right-control");
    reveal_strlit("right-ctrl");
    reveal_strlit("right-gui");
    reveal_strlit("right-shift");
    reveal_strlit("right-win");
    reveal_strlit("right-windows");
    reveal_strlit("scroll-lock");
    reveal_strlit("semicolon");
    reveal_strlit("slash");
    reveal_strlit("space");
    reveal_strlit("tab");
    reveal_strlit("up-arrow");
    if usage == 0xE7 {
        lemma_named_round_trip("right-windows"@, usage);
    }
}


/// Every keyboard usage that has a canonical name is read back from that
/// name, by the key-name parser, as the same usage.
pub proof fn lemma_usage_name_round_trip(usage: u16)
    requires
        usage_name(usage) is Some,
    ensures
        key_usage_from_name(normalize_key_name(usage_name(usage)->Some_0)) == Some(usage),
{
    if (0x04 <= usage <= 0x27) || (0x3A <= usage <= 0x45) || (0x59 <= usage <= 0x61) || (0x68
        <= usage <= 0x73) {
        lemma_numbered_name_round_trip(usage);
        lemma_normalize_canonical(usage_name(usage)->Some_0);
    } else {
        assert(fixed_usage_name(usage) is Some);
        if usage == 0x28 || usage == 0x29 || usage == 0x2A || usage == 0x2B || usage == 0x2C || usage == 0x2D || usage == 0x2E || usage == 0x2F || usage == 0x30 || usage == 0x31 {
        lemma_named_keys_0x28_to_0x31(usage);
    } else if usage == 0x32 || usage == 0x33 || usage == 0x34 || usage == 0x35 || usage == 0x36 || usage == 0x37 || usage == 0x38 || usage == 0x39 || usage == 0x46 || usage == 0x47 {
        lemma_named_keys_0x32_to_0x47(usage);
    } else if usage == 0x48 || usage == 0x49 || usage == 0x4A || usage == 0x4B || usage == 0x4C || usage == 0x4D || usage == 0x4E || usage == 0x4F || usage == 0x50 || usage == 0x51 {
        lemma_named_keys_0x48_to_0x51(usage);
    } else if usage == 0x52 || usage == 0x53 || usage == 0x54 || usage == 0x55 || usage == 0x56 || usage == 0x57 || usage == 0x58 || usage == 0x62 || usage == 0x63 || usage == 0x64 {
        lemma_named_keys_0x52_to_0x64(usage);
    } else if usage == 0x65 || usage == 0x66 || usage == 0x67 || usage == 0xE0 || usage == 0xE1 || usage == 0xE2 || usage == 0xE3 || usage == 0xE4 || usage == 0xE5 || usage == 0xE6 {
        lemma_named_keys_0x65_to_0xe6(usage);
    } else if usage == 0xE7 {
        lemma_named_key_0xe7(usage);
    } else {
            assert(false);
        }
    }
}


/// The decimal text of a polling rate parses back to that rate.
pub proof fn lemma_polling_rate_text_round_trip(rate: PollingRate)
    ensures
        parse_polling_rate_spec(decimal_chars(polling_hz(rate) as nat)) == Some(rate),
{
    reveal_strlit("125");
    reveal_strlit("250");
    reveal_strlit("500");
    reveal_strlit("1000");
    reveal_with_fuel(decimal_chars, 5);
    let text = decimal_chars(polling_hz(rate) as nat);
    match rate {
        PollingRate::Hz125 => {
            assert(text =~= "125"@);
        },
        PollingRate::Hz250 => {
            assert(text =~= "250"@);
            assert(text[0] != "125"@[0]);
        },
        PollingRate::Hz500 => {
            assert(text =~= "500"@);
            assert(text[0] != "125"@[0] && text[0] != "250"@[0]);
        },
        PollingRate::Hz1000 => {
            assert(text =~= "1000"@);
            assert(text.len() != "125"@.len());
        },
    }
}

/// The character map of key-name normalization: ASCII lower case, `_`
/// read as `-`.
spec fn key_char(c: char) -> char {
    if ascii_lower(c) == '_' {
        '-'
    } else {
        ascii_lower(c)
    }
}

proof fn lemma_trim_start_shape(s: Seq<char>)
    ensures
        trim_start(s).len() == 0 || !is_whitespace(trim_start(s)[0]),
    decreases s.len(),
{
    if s.len() > 0 && is_whitespace(s[0]) {
        lemma_trim_start_shape(s.drop_first());
    }
}

proof fn lemma_trim_end_shape(s: Seq<char>)
    ensures
        trim_end(s).len() <= s.len(),
        trim_end(s) == s.take(trim_end(s).len() as int),
        trim_end(s).len() == 0 || !is_whitespace(trim_end(s).last()),
    decreases s.len(),
{
    if s.len() > 0 && is_whitespace(s.last()) {
        lemma_trim_end_shape(s.drop_last());
        assert(s.drop_last().take(trim_end(s).len() as int) =~= s.take(trim_end(s).len() as int));
    } else {
        assert(s.take(s.len() as int) =~= s);
    }
}

/// A trimmed text starts and ends with a non-blank character.
proof fn lemma_trim_shape(s: Seq<char>)
    ensures
        trim(s).len() == 0 || (!is_whitespace(trim(s)[0]) && !is_whitespace(trim(s).last())),
{
    lemma_trim_start_shape(s);
    lemma_trim_end_shape(trim_start(s));
    if trim(s).len() > 0 {
        assert(trim(s)[0] == trim_start(s)[0]);
    }
}

/// Normalizing a key name a second time changes nothing: the normal form is
/// trimmed, lower case and free of `_`. So the parser reads a name and its
/// normal form, trimmed and lower-cased with `_` read as `-`, as the same
/// key.
pub proof fn lemma_key_name_normalization_idempotent(input: Seq<char>)
    ensures
        normalize_key_name(normalize_key_name(input)) == normalize_key_name(input),
        key_usage_from_name(normalize_key_name(normalize_key_name(input))) == key_usage_from_name(
            normalize_key_name(input),
        ),
{
    let n = normalize_key_name(input);
    let t = trim(input);
    lemma_trim_shape(input);
    assert(n.len() == t.len());
    assert forall|i: int| 0 <= i < t.len() implies #[trigger] n[i] == key_char(t[i]) && (is_whitespace(n[i])
        <==> is_whitespace(t[i])) && key_char(n[i]) == n[i] by {
    }
    if n.len() > 0 {
        assert(!is_whitespace(n[0]));
        assert(!is_whitespace(n.last()));
        assert(trim_start(n) == n);
        assert(trim_end(n) == n);
    } else {
        assert(trim_start(n) == n);
        assert(trim_end(n) == n);
    }
    assert(trim(n) == n);
    assert(normalize_key_name(n) =~= n);
}

} // verus!
