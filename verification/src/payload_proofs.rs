//! Why different requests have different canonical payloads: every piece of
//! the payload can be told from what follows it, so the text can be taken
//! apart again in one way only.

use crate::codec::hex_digit;
use crate::inputs::{OutputView, PrivateInputsView, ProofInputsView, PublicInputsView};
use crate::payload::{
    array_text, canonical_payload, decimal_digit, decimal_text, decimal_texts, escaped_char,
    escaped_text, is_decimal_digit, joined, json_string_literal, output_text, output_texts,
    private_inputs_text, public_inputs_text, quoted_texts,
};
use vstd::prelude::*;

verus! {

/// Two texts that are equal after the same prefix are equal.
proof fn lemma_cancel_prefix(prefix: Seq<char>, x: Seq<char>, y: Seq<char>)
    requires
        prefix + x == prefix + y,
    ensures
        x == y,
{
    assert(x =~= (prefix + x).subrange(prefix.len() as int, (prefix + x).len() as int));
    assert(y =~= (prefix + y).subrange(prefix.len() as int, (prefix + y).len() as int));
}

/// A number in decimal has at least one character, and all of them are
/// digits.
pub proof fn lemma_decimal_text_digits(n: nat)
    ensures
        decimal_text(n).len() >= 1,
        forall|i: int|
            0 <= i < decimal_text(n).len() ==> is_decimal_digit(#[trigger] decimal_text(n)[i]),
    decreases n,
{
    if n >= 10 {
        lemma_decimal_text_digits(n / 10);
    }
}

/// The number that a sequence of decimal digits stands for.
pub open spec fn decimal_value(digits: Seq<char>) -> nat
    decreases digits.len(),
{
    if digits.len() == 0 {
        0
    } else {
        (decimal_value(digits.drop_last()) * 10 + (digits.last() as int - 0x30)) as nat
    }
}

/// Reading a number's decimal text gives the number back.
pub proof fn lemma_decimal_value(n: nat)
    ensures
        decimal_value(decimal_text(n)) == n,
    decreases n,
{
    let text = decimal_text(n);
    if n < 10 {
        assert(text.drop_last() =~= Seq::<char>::empty());
        assert(decimal_value(text.drop_last()) == 0);
    } else {
        lemma_decimal_value(n / 10);
        assert(text.drop_last() =~= decimal_text(n / 10));
        assert(text.last() == decimal_digit(n % 10));
    }
}

/// A number in decimal can be told from what follows it, as long as that
/// does not begin with a digit.
pub proof fn lemma_decimal_text_delimited(n: nat, m: nat, x: Seq<char>, y: Seq<char>)
    requires
        decimal_text(n) + x == decimal_text(m) + y,
        x.len() > 0 && !is_decimal_digit(x[0]),
        y.len() > 0 && !is_decimal_digit(y[0]),
    ensures
        n == m,
        x == y,
{
    let a = decimal_text(n);
    let b = decimal_text(m);
    lemma_decimal_text_digits(n);
    lemma_decimal_text_digits(m);
    if a.len() < b.len() {
        assert((a + x)[a.len() as int] == x[0]);
        assert((b + y)[a.len() as int] == b[a.len() as int]);
        assert(false);
    }
    if b.len() < a.len() {
        assert((b + y)[b.len() as int] == y[0]);
        assert((a + x)[b.len() as int] == a[b.len() as int]);
        assert(false);
    }
    assert(a =~= (a + x).subrange(0, a.len() as int));
    assert(b =~= (b + y).subrange(0, b.len() as int));
    lemma_decimal_value(n);
    lemma_decimal_value(m);
    lemma_cancel_prefix(a, x, y);
}

/// Whether a character is written with a backslash inside a string literal.
spec fn is_escaped(c: char) -> bool {
    c == '\u{22}' || c == '\u{5c}' || (c as int) < 0x20
}

/// What stands for a character in a string literal never begins with a
/// quotation mark, and begins with a backslash exactly where the character
/// is escaped.
proof fn lemma_escaped_char_start(c: char)
    ensures
        escaped_char(c).len() >= 1,
        escaped_char(c)[0] != '\u{22}',
        is_escaped(c) <==> escaped_char(c)[0] == '\u{5c}',
        !is_escaped(c) ==> escaped_char(c) == seq![c],
        is_escaped(c) ==> escaped_char(c).len() >= 2,
{
}

/// What stands for a character in a string literal can be told from what
/// follows it.
pub proof fn lemma_escaped_char_delimited(c: char, d: char, x: Seq<char>, y: Seq<char>)
    requires
        escaped_char(c) + x == escaped_char(d) + y,
    ensures
        c == d,
        x == y,
{
    let a = escaped_char(c);
    let b = escaped_char(d);
    lemma_escaped_char_start(c);
    lemma_escaped_char_start(d);
    assert((a + x)[0] == a[0]);
    assert((b + y)[0] == b[0]);
    if is_escaped(c) {
        assert(is_escaped(d));
        assert((a + x)[1] == a[1]);
        assert((b + y)[1] == b[1]);
        if a[1] == 'u' {
            assert(a.len() == 6 && b.len() == 6);
            assert((a + x)[4] == a[4]);
            assert((b + y)[4] == b[4]);
            assert((a + x)[5] == a[5]);
            assert((b + y)[5] == b[5]);
            let ci = c as int;
            let di = d as int;
            assert(hex_digit(ci / 16) == hex_digit(di / 16));
            assert(hex_digit(ci % 16) == hex_digit(di % 16));
            assert(ci / 16 == di / 16);
            assert(ci % 16 == di % 16);
            assert(ci == di);
        }
        assert(c == d);
    } else {
        assert(!is_escaped(d));
        assert(c == d);
    }
    lemma_cancel_prefix(a, x, y);
}

/// An escaped text and its closing quotation mark can be told from what
/// follows them.
pub proof fn lemma_escaped_text_delimited(s: Seq<char>, t: Seq<char>, x: Seq<char>, y: Seq<char>)
    requires
        escaped_text(s) + (seq!['\u{22}'] + x) == escaped_text(t) + (seq!['\u{22}'] + y),
    ensures
        s == t,
        x == y,
    decreases s.len(),
{
    let quote = seq!['\u{22}'];
    let left = escaped_text(s) + (quote + x);
    let right = escaped_text(t) + (quote + y);
    if s.len() == 0 {
        assert(left[0] == '\u{22}');
        if t.len() == 0 {
            assert(left =~= quote + x);
            assert(right =~= quote + y);
            lemma_cancel_prefix(quote, x, y);
            assert(s =~= t);
        } else {
            lemma_escaped_char_start(t[0]);
            assert(right[0] == escaped_char(t[0])[0]);
            assert(false);
        }
    } else if t.len() == 0 {
        lemma_escaped_char_start(s[0]);
        assert(left[0] == escaped_char(s[0])[0]);
        assert(right[0] == '\u{22}');
        assert(false);
    } else {
        let rest_left = escaped_text(s.drop_first()) + (quote + x);
        let rest_right = escaped_text(t.drop_first()) + (quote + y);
        assert(left =~= escaped_char(s[0]) + rest_left);
        assert(right =~= escaped_char(t[0]) + rest_right);
        lemma_escaped_char_delimited(s[0], t[0], rest_left, rest_right);
        lemma_escaped_text_delimited(s.drop_first(), t.drop_first(), x, y);
        assert(s =~= seq![s[0]] + s.drop_first());
        assert(t =~= seq![t[0]] + t.drop_first());
    }
}

/// A JSON string literal can be told from what follows it.
pub proof fn lemma_json_string_delimited(s: Seq<char>, t: Seq<char>, x: Seq<char>, y: Seq<char>)
    requires
        json_string_literal(s) + x == json_string_literal(t) + y,
    ensures
        s == t,
        x == y,
{
    let quote = seq!['\u{22}'];
    let left = escaped_text(s) + (quote + x);
    let right = escaped_text(t) + (quote + y);
    assert(json_string_literal(s) + x =~= quote + left);
    assert(json_string_literal(t) + y =~= quote + right);
    lemma_cancel_prefix(quote, left, right);
    lemma_escaped_text_delimited(s, t, x, y);
}

/// What follows the first item of a comma-separated list.
spec fn after_first(items: Seq<Seq<char>>) -> Seq<char> {
    if items.len() <= 1 {
        Seq::empty()
    } else {
        ","@ + joined(items.drop_first())
    }
}

/// A list that is not empty is its first item and what follows it.
proof fn lemma_joined_first(items: Seq<Seq<char>>)
    requires
        items.len() >= 1,
    ensures
        joined(items) == items[0] + after_first(items),
    decreases items.len(),
{
    if items.len() == 1 {
        assert(joined(items) =~= items[0] + after_first(items));
    } else if items.len() == 2 {
        assert(joined(items.drop_last()) == items[0]);
        assert(joined(items.drop_first()) == items[1]);
        assert(joined(items) =~= items[0] + after_first(items));
    } else {
        let front = items.drop_last();
        let back = items.drop_first();
        lemma_joined_first(front);
        assert(front.drop_first() =~= back.drop_last());
        assert(back.last() == items.last());
        assert(joined(back) == joined(back.drop_last()) + ","@ + back.last());
        assert(joined(items) == joined(front) + ","@ + items.last());
        assert(after_first(front) == ","@ + joined(front.drop_first()));
        assert(joined(items) =~= items[0] + after_first(items));
    }
}

/// A tail that begins with a comma or with a closing bracket.
spec fn separated(tail: Seq<char>) -> bool {
    tail.len() > 0 && (tail[0] == ',' || tail[0] == ']')
}

/// Two items of a list, each followed by a tail, that make the same text
/// are the same item followed by the same tail.
spec fn told_apart<T>(
    write: spec_fn(T) -> Seq<char>,
    s: T,
    t: T,
    x: Seq<char>,
    y: Seq<char>,
) -> bool {
    write(s) + x == write(t) + y && separated(x) && separated(y) ==> s == t && x == y
}

/// A way of writing items such that, inside a list, each item can be told
/// from what follows it, and none begins with a closing bracket.
spec fn delimited<T>(write: spec_fn(T) -> Seq<char>) -> bool {
    &&& forall|s: T, t: T, x: Seq<char>, y: Seq<char>| #[trigger] told_apart(write, s, t, x, y)
    &&& forall|s: T| (#[trigger] write(s)).len() > 0 && write(s)[0] != ']'
}

/// A comma-separated list and its closing bracket can be told from what
/// follows them.
proof fn lemma_joined_delimited<T>(
    write: spec_fn(T) -> Seq<char>,
    a: Seq<T>,
    b: Seq<T>,
    x: Seq<char>,
    y: Seq<char>,
)
    requires
        delimited(write),
        joined(a.map_values(write)) + ("]"@ + x) == joined(b.map_values(write)) + ("]"@ + y),
    ensures
        a == b,
        x == y,
    decreases a.len(),
{
    reveal_strlit("]");
    reveal_strlit(",");
    let items_a = a.map_values(write);
    let items_b = b.map_values(write);
    let left = joined(items_a) + ("]"@ + x);
    let right = joined(items_b) + ("]"@ + y);
    if a.len() == 0 {
        assert(left =~= "]"@ + x);
        if b.len() == 0 {
            assert(right =~= "]"@ + y);
            lemma_cancel_prefix("]"@, x, y);
            assert(a =~= b);
        } else {
            lemma_joined_first(items_b);
            assert(write(b[0]).len() > 0);
            assert(right[0] == write(b[0])[0]);
            assert(left[0] == ']');
            assert(false);
        }
    } else if b.len() == 0 {
        assert(right =~= "]"@ + y);
        lemma_joined_first(items_a);
        assert(write(a[0]).len() > 0);
        assert(left[0] == write(a[0])[0]);
        assert(right[0] == ']');
        assert(false);
    } else {
        lemma_joined_first(items_a);
        lemma_joined_first(items_b);
        let tail_a = after_first(items_a) + ("]"@ + x);
        let tail_b = after_first(items_b) + ("]"@ + y);
        assert(left =~= write(a[0]) + tail_a);
        assert(right =~= write(b[0]) + tail_b);
        assert(separated(tail_a));
        assert(separated(tail_b));
        assert(told_apart(write, a[0], b[0], tail_a, tail_b));
        if a.len() == 1 {
            assert(tail_a =~= "]"@ + x);
            if b.len() == 1 {
                assert(tail_b =~= "]"@ + y);
                lemma_cancel_prefix("]"@, x, y);
                assert(a =~= b);
            } else {
                assert(tail_b[0] == ',');
                assert(false);
            }
        } else if b.len() == 1 {
            assert(tail_b =~= "]"@ + y);
            assert(tail_a[0] == ',');
            assert(false);
        } else {
            let rest_a = joined(items_a.drop_first()) + ("]"@ + x);
            let rest_b = joined(items_b.drop_first()) + ("]"@ + y);
            assert(tail_a =~= ","@ + rest_a);
            assert(tail_b =~= ","@ + rest_b);
            lemma_cancel_prefix(","@, rest_a, rest_b);
            assert(items_a.drop_first() =~= a.drop_first().map_values(write));
            assert(items_b.drop_first() =~= b.drop_first().map_values(write));
            lemma_joined_delimited(write, a.drop_first(), b.drop_first(), x, y);
            assert(a =~= seq![a[0]] + a.drop_first());
            assert(b =~= seq![b[0]] + b.drop_first());
        }
    }
}

/// A JSON array can be told from what follows it.
proof fn lemma_array_delimited<T>(
    write: spec_fn(T) -> Seq<char>,
    a: Seq<T>,
    b: Seq<T>,
    x: Seq<char>,
    y: Seq<char>,
)
    requires
        delimited(write),
        array_text(a.map_values(write)) + x == array_text(b.map_values(write)) + y,
    ensures
        a == b,
        x == y,
{
    let left = joined(a.map_values(write)) + ("]"@ + x);
    let right = joined(b.map_values(write)) + ("]"@ + y);
    assert(array_text(a.map_values(write)) + x =~= "["@ + left);
    assert(array_text(b.map_values(write)) + y =~= "["@ + right);
    lemma_cancel_prefix("["@, left, right);
    lemma_joined_delimited(write, a, b, x, y);
}

/// String literals can be items of a list.
proof fn lemma_strings_delimited()
    ensures
        delimited(|t: Seq<char>| json_string_literal(t)),
{
    let write = |t: Seq<char>| json_string_literal(t);
    assert forall|s: Seq<char>, t: Seq<char>, x: Seq<char>, y: Seq<char>| #[trigger]
        told_apart(write, s, t, x, y) by {
        if write(s) + x == write(t) + y {
            lemma_json_string_delimited(s, t, x, y);
        }
    }
    assert forall|s: Seq<char>| (#[trigger] write(s)).len() > 0 && write(s)[0] != ']' by {
        assert(json_string_literal(s)[0] == '\u{22}');
    }
}

/// Numbers in decimal can be items of a list.
proof fn lemma_numbers_delimited()
    ensures
        delimited(|n: u32| decimal_text(n as nat)),
{
    let write = |n: u32| decimal_text(n as nat);
    assert forall|s: u32, t: u32, x: Seq<char>, y: Seq<char>| #[trigger]
        told_apart(write, s, t, x, y) by {
        if write(s) + x == write(t) + y && separated(x) && separated(y) {
            lemma_decimal_text_delimited(s as nat, t as nat, x, y);
        }
    }
    assert forall|s: u32| (#[trigger] write(s)).len() > 0 && write(s)[0] != ']' by {
        lemma_decimal_text_digits(s as nat);
        assert(is_decimal_digit(decimal_text(s as nat)[0]));
    }
}

/// The object of an output can be told from what follows it.
pub proof fn lemma_output_delimited(s: OutputView, t: OutputView, x: Seq<char>, y: Seq<char>)
    requires
        output_text(s) + x == output_text(t) + y,
    ensures
        s == t,
        x == y,
{
    reveal_strlit("}");
    let s3 = "}"@ + x;
    let t3 = "}"@ + y;
    let s2 = decimal_text(s.amount as nat) + s3;
    let t2 = decimal_text(t.amount as nat) + t3;
    let s1 = json_string_literal(s.address) + (",\"amount\":"@ + s2);
    let t1 = json_string_literal(t.address) + (",\"amount\":"@ + t2);
    assert(output_text(s) + x =~= "{\"address\":"@ + s1);
    assert(output_text(t) + y =~= "{\"address\":"@ + t1);
    lemma_cancel_prefix("{\"address\":"@, s1, t1);
    lemma_json_string_delimited(s.address, t.address, ",\"amount\":"@ + s2, ",\"amount\":"@ + t2);
    lemma_cancel_prefix(",\"amount\":"@, s2, t2);
    lemma_decimal_text_delimited(s.amount as nat, t.amount as nat, s3, t3);
    lemma_cancel_prefix("}"@, x, y);
}

/// The objects of outputs can be items of a list.
proof fn lemma_outputs_delimited()
    ensures
        delimited(|o: OutputView| output_text(o)),
{
    let write = |o: OutputView| output_text(o);
    reveal_strlit("{\"address\":");
    assert forall|s: OutputView, t: OutputView, x: Seq<char>, y: Seq<char>| #[trigger]
        told_apart(write, s, t, x, y) by {
        if write(s) + x == write(t) + y {
            lemma_output_delimited(s, t, x, y);
        }
    }
    assert forall|s: OutputView| (#[trigger] write(s)).len() > 0 && write(s)[0] != ']' by {
        assert(output_text(s)[0] == "{\"address\":"@[0]);
    }
}

/// Concatenation may be regrouped.
proof fn lemma_regroup(a: Seq<char>, b: Seq<char>, c: Seq<char>)
    ensures
        (a + b) + c == a + (b + c),
{
    assert((a + b) + c =~= a + (b + c));
}

/// The names that follow a number in the payload begin with a comma, which
/// is no digit.
proof fn lemma_names_after_numbers(rest: Seq<char>)
    ensures
        (",\"leaf_index\":"@ + rest).len() > 0,
        !is_decimal_digit((",\"leaf_index\":"@ + rest)[0]),
        (",\"merkle_path_elements\":"@ + rest).len() > 0,
        !is_decimal_digit((",\"merkle_path_elements\":"@ + rest)[0]),
        (",\"nf\":"@ + rest).len() > 0,
        !is_decimal_digit((",\"nf\":"@ + rest)[0]),
{
    reveal_strlit(",\"leaf_index\":");
    reveal_strlit(",\"merkle_path_elements\":");
    reveal_strlit(",\"nf\":");
}

/// The object of the private inputs, followed by a tail, piece by piece.
spec fn private_inputs_pieces(inputs: PrivateInputsView, tail: Seq<char>) -> Seq<char> {
    "{\"amount\":"@ + (decimal_text(inputs.amount as nat) + (",\"leaf_index\":"@ + (decimal_text(
        inputs.leaf_index as nat,
    ) + (",\"merkle_path_elements\":"@ + (array_text(quoted_texts(inputs.merkle_path_elements))
        + (",\"merkle_path_indices\":"@ + (array_text(decimal_texts(inputs.merkle_path_indices))
        + (",\"r\":"@ + (json_string_literal(inputs.r) + (",\"sk_spend\":"@ + (json_string_literal(
        inputs.sk_spend,
    ) + ("}"@ + tail))))))))))))
}

/// The object of the private inputs followed by a tail is its pieces one
/// after another.
proof fn lemma_private_inputs_pieces(inputs: PrivateInputsView, tail: Seq<char>)
    ensures
        private_inputs_text(inputs) + tail == private_inputs_pieces(inputs, tail),
{
    let k1 = "{\"amount\":"@;
    let v1 = decimal_text(inputs.amount as nat);
    let k2 = ",\"leaf_index\":"@;
    let v2 = decimal_text(inputs.leaf_index as nat);
    let k3 = ",\"merkle_path_elements\":"@;
    let v3 = array_text(quoted_texts(inputs.merkle_path_elements));
    let k4 = ",\"merkle_path_indices\":"@;
    let v4 = array_text(decimal_texts(inputs.merkle_path_indices));
    let k5 = ",\"r\":"@;
    let v5 = json_string_literal(inputs.r);
    let k6 = ",\"sk_spend\":"@;
    let v6 = json_string_literal(inputs.sk_spend);
    let k7 = "}"@;
    let front1 = k1 + v1;
    let front2 = front1 + k2;
    let front3 = front2 + v2;
    let front4 = front3 + k3;
    let front5 = front4 + v3;
    let front6 = front5 + k4;
    let front7 = front6 + v4;
    let front8 = front7 + k5;
    let front9 = front8 + v5;
    let front10 = front9 + k6;
    let front11 = front10 + v6;
    assert(private_inputs_text(inputs) == front11 + k7);
    let t12 = k7 + tail;
    lemma_regroup(front11, k7, tail);
    let t11 = v6 + t12;
    lemma_regroup(front10, v6, t12);
    let t10 = k6 + t11;
    lemma_regroup(front9, k6, t11);
    let t9 = v5 + t10;
    lemma_regroup(front8, v5, t10);
    let t8 = k5 + t9;
    lemma_regroup(front7, k5, t9);
    let t7 = v4 + t8;
    lemma_regroup(front6, v4, t8);
    let t6 = k4 + t7;
    lemma_regroup(front5, k4, t7);
    let t5 = v3 + t6;
    lemma_regroup(front4, v3, t6);
    let t4 = k3 + t5;
    lemma_regroup(front3, k3, t5);
    let t3 = v2 + t4;
    lemma_regroup(front2, v2, t4);
    let t2 = k2 + t3;
    lemma_regroup(front1, k2, t3);
    let t1 = v1 + t2;
    lemma_regroup(k1, v1, t2);
}

/// The object of the private inputs can be told from what follows it.
pub proof fn lemma_private_inputs_delimited(
    s: PrivateInputsView,
    t: PrivateInputsView,
    x: Seq<char>,
    y: Seq<char>,
)
    requires
        private_inputs_text(s) + x == private_inputs_text(t) + y,
    ensures
        s == t,
        x == y,
{
    lemma_private_inputs_pieces(s, x);
    lemma_private_inputs_pieces(t, y);
    let s6 = json_string_literal(s.sk_spend) + ("}"@ + x);
    let t6 = json_string_literal(t.sk_spend) + ("}"@ + y);
    let s5 = json_string_literal(s.r) + (",\"sk_spend\":"@ + s6);
    let t5 = json_string_literal(t.r) + (",\"sk_spend\":"@ + t6);
    let s4 = array_text(decimal_texts(s.merkle_path_indices)) + (",\"r\":"@ + s5);
    let t4 = array_text(decimal_texts(t.merkle_path_indices)) + (",\"r\":"@ + t5);
    let s3 = array_text(quoted_texts(s.merkle_path_elements)) + (",\"merkle_path_indices\":"@
        + s4);
    let t3 = array_text(quoted_texts(t.merkle_path_elements)) + (",\"merkle_path_indices\":"@
        + t4);
    let s2 = decimal_text(s.leaf_index as nat) + (",\"merkle_path_elements\":"@ + s3);
    let t2 = decimal_text(t.leaf_index as nat) + (",\"merkle_path_elements\":"@ + t3);
    let s1 = decimal_text(s.amount as nat) + (",\"leaf_index\":"@ + s2);
    let t1 = decimal_text(t.amount as nat) + (",\"leaf_index\":"@ + t2);
    assert("{\"amount\":"@ + s1 == "{\"amount\":"@ + t1);

    lemma_cancel_prefix("{\"amount\":"@, s1, t1);
    lemma_names_after_numbers(s2);
    lemma_names_after_numbers(t2);
    lemma_decimal_text_delimited(
        s.amount as nat,
        t.amount as nat,
        ",\"leaf_index\":"@ + s2,
        ",\"leaf_index\":"@ + t2,
    );
    lemma_cancel_prefix(",\"leaf_index\":"@, s2, t2);
    lemma_names_after_numbers(s3);
    lemma_names_after_numbers(t3);
    lemma_decimal_text_delimited(
        s.leaf_index as nat,
        t.leaf_index as nat,
        ",\"merkle_path_elements\":"@ + s3,
        ",\"merkle_path_elements\":"@ + t3,
    );
    lemma_cancel_prefix(",\"merkle_path_elements\":"@, s3, t3);
    lemma_string_array_delimited(
        s.merkle_path_elements,
        t.merkle_path_elements,
        ",\"merkle_path_indices\":"@ + s4,
        ",\"merkle_path_indices\":"@ + t4,
    );
    lemma_cancel_prefix(",\"merkle_path_indices\":"@, s4, t4);
    lemma_number_array_delimited(
        s.merkle_path_indices,
        t.merkle_path_indices,
        ",\"r\":"@ + s5,
        ",\"r\":"@ + t5,
    );
    lemma_cancel_prefix(",\"r\":"@, s5, t5);
    lemma_json_string_delimited(s.r, t.r, ",\"sk_spend\":"@ + s6, ",\"sk_spend\":"@ + t6);
    lemma_cancel_prefix(",\"sk_spend\":"@, s6, t6);
    lemma_json_string_delimited(s.sk_spend, t.sk_spend, "}"@ + x, "}"@ + y);
    lemma_cancel_prefix("}"@, x, y);
}

/// An array of string literals can be told from what follows it.
pub proof fn lemma_string_array_delimited(
    a: Seq<Seq<char>>,
    b: Seq<Seq<char>>,
    x: Seq<char>,
    y: Seq<char>,
)
    requires
        array_text(quoted_texts(a)) + x == array_text(quoted_texts(b)) + y,
    ensures
        a == b,
        x == y,
{
    let strings = |e: Seq<char>| json_string_literal(e);
    lemma_strings_delimited();
    assert(quoted_texts(a) =~= a.map_values(strings));
    assert(quoted_texts(b) =~= b.map_values(strings));
    lemma_array_delimited(strings, a, b, x, y);
}

/// An array of numbers can be told from what follows it.
pub proof fn lemma_number_array_delimited(a: Seq<u32>, b: Seq<u32>, x: Seq<char>, y: Seq<char>)
    requires
        array_text(decimal_texts(a)) + x == array_text(decimal_texts(b)) + y,
    ensures
        a == b,
        x == y,
{
    let numbers = |n: u32| decimal_text(n as nat);
    lemma_numbers_delimited();
    assert(decimal_texts(a) =~= a.map_values(numbers));
    assert(decimal_texts(b) =~= b.map_values(numbers));
    lemma_array_delimited(numbers, a, b, x, y);
}

/// An array of output objects can be told from what follows it.
pub proof fn lemma_output_array_delimited(
    a: Seq<OutputView>,
    b: Seq<OutputView>,
    x: Seq<char>,
    y: Seq<char>,
)
    requires
        array_text(output_texts(a)) + x == array_text(output_texts(b)) + y,
    ensures
        a == b,
        x == y,
{
    let outputs = |o: OutputView| output_text(o);
    lemma_outputs_delimited();
    assert(output_texts(a) =~= a.map_values(outputs));
    assert(output_texts(b) =~= b.map_values(outputs));
    lemma_array_delimited(outputs, a, b, x, y);
}

/// The object of the public inputs, followed by a tail, piece by piece.
spec fn public_inputs_pieces(inputs: PublicInputsView, tail: Seq<char>) -> Seq<char> {
    "{\"amount\":"@ + (decimal_text(inputs.amount as nat) + (",\"nf\":"@ + (json_string_literal(
        inputs.nf,
    ) + (",\"outputs_hash\":"@ + (json_string_literal(inputs.outputs_hash) + (",\"root\":"@ + (
    json_string_literal(inputs.root) + ("}"@ + tail))))))))
}

/// The object of the public inputs followed by a tail is its pieces one
/// after another.
proof fn lemma_public_inputs_pieces(inputs: PublicInputsView, tail: Seq<char>)
    ensures
        public_inputs_text(inputs) + tail == public_inputs_pieces(inputs, tail),
{
    let k1 = "{\"amount\":"@;
    let v1 = decimal_text(inputs.amount as nat);
    let k2 = ",\"nf\":"@;
    let v2 = json_string_literal(inputs.nf);
    let k3 = ",\"outputs_hash\":"@;
    let v3 = json_string_literal(inputs.outputs_hash);
    let k4 = ",\"root\":"@;
    let v4 = json_string_literal(inputs.root);
    let k5 = "}"@;
    let front1 = k1 + v1;
    let front2 = front1 + k2;
    let front3 = front2 + v2;
    let front4 = front3 + k3;
    let front5 = front4 + v3;
    let front6 = front5 + k4;
    let front7 = front6 + v4;
    assert(public_inputs_text(inputs) == front7 + k5);
    let t8 = k5 + tail;
    lemma_regroup(front7, k5, tail);
    let t7 = v4 + t8;
    lemma_regroup(front6, v4, t8);
    let t6 = k4 + t7;
    lemma_regroup(front5, k4, t7);
    let t5 = v3 + t6;
    lemma_regroup(front4, v3, t6);
    let t4 = k3 + t5;
    lemma_regroup(front3, k3, t5);
    let t3 = v2 + t4;
    lemma_regroup(front2, v2, t4);
    let t2 = k2 + t3;
    lemma_regroup(front1, k2, t3);
    lemma_regroup(k1, v1, t2);
}

/// The object of the public inputs can be told from what follows it.
pub proof fn lemma_public_inputs_delimited(
    s: PublicInputsView,
    t: PublicInputsView,
    x: Seq<char>,
    y: Seq<char>,
)
    requires
        public_inputs_text(s) + x == public_inputs_text(t) + y,
    ensures
        s == t,
        x == y,
{
    lemma_public_inputs_pieces(s, x);
    lemma_public_inputs_pieces(t, y);
    let s4 = json_string_literal(s.root) + ("}"@ + x);
    let t4 = json_string_literal(t.root) + ("}"@ + y);
    let s3 = json_string_literal(s.outputs_hash) + (",\"root\":"@ + s4);
    let t3 = json_string_literal(t.outputs_hash) + (",\"root\":"@ + t4);
    let s2 = json_string_literal(s.nf) + (",\"outputs_hash\":"@ + s3);
    let t2 = json_string_literal(t.nf) + (",\"outputs_hash\":"@ + t3);
    let s1 = decimal_text(s.amount as nat) + (",\"nf\":"@ + s2);
    let t1 = decimal_text(t.amount as nat) + (",\"nf\":"@ + t2);
    assert("{\"amount\":"@ + s1 == "{\"amount\":"@ + t1);

    lemma_cancel_prefix("{\"amount\":"@, s1, t1);
    lemma_names_after_numbers(s2);
    lemma_names_after_numbers(t2);
    lemma_decimal_text_delimited(
        s.amount as nat,
        t.amount as nat,
        ",\"nf\":"@ + s2,
        ",\"nf\":"@ + t2,
    );
    lemma_cancel_prefix(",\"nf\":"@, s2, t2);
    lemma_json_string_delimited(
        s.nf,
        t.nf,
        ",\"outputs_hash\":"@ + s3,
        ",\"outputs_hash\":"@ + t3,
    );
    lemma_cancel_prefix(",\"outputs_hash\":"@, s3, t3);
    lemma_json_string_delimited(
        s.outputs_hash,
        t.outputs_hash,
        ",\"root\":"@ + s4,
        ",\"root\":"@ + t4,
    );
    lemma_cancel_prefix(",\"root\":"@, s4, t4);
    lemma_json_string_delimited(s.root, t.root, "}"@ + x, "}"@ + y);
    lemma_cancel_prefix("}"@, x, y);
}

/// Canonicalisation is injective: two requests with the same canonical
/// payload are the same request, in every field, in every element of the
/// Merkle path and in every output.
pub proof fn lemma_canonical_payload_injective(a: ProofInputsView, b: ProofInputsView)
    requires
        canonical_payload(a) == canonical_payload(b),
    ensures
        a == b,
{
    let end = "}"@;
    let a3 = public_inputs_text(a.public_inputs) + end;
    let b3 = public_inputs_text(b.public_inputs) + end;
    let a2 = private_inputs_text(a.private_inputs) + (",\"public_inputs\":"@ + a3);
    let b2 = private_inputs_text(b.private_inputs) + (",\"public_inputs\":"@ + b3);
    let a1 = array_text(output_texts(a.outputs)) + (",\"private_inputs\":"@ + a2);
    let b1 = array_text(output_texts(b.outputs)) + (",\"private_inputs\":"@ + b2);
    assert(canonical_payload(a) == "{\"outputs\":"@ + a1) by {
        let front1 = "{\"outputs\":"@ + array_text(output_texts(a.outputs));
        let front2 = front1 + ",\"private_inputs\":"@;
        let front3 = front2 + private_inputs_text(a.private_inputs);
        let front4 = front3 + ",\"public_inputs\":"@;
        let front5 = front4 + public_inputs_text(a.public_inputs);
        assert(canonical_payload(a) == front5 + end);
        lemma_regroup(front4, public_inputs_text(a.public_inputs), end);
        lemma_regroup(front3, ",\"public_inputs\":"@, a3);
        lemma_regroup(front2, private_inputs_text(a.private_inputs), ",\"public_inputs\":"@ + a3);
        lemma_regroup(front1, ",\"private_inputs\":"@, a2);
        lemma_regroup(
            "{\"outputs\":"@,
            array_text(output_texts(a.outputs)),
            ",\"private_inputs\":"@ + a2,
        );
    }
    assert(canonical_payload(b) == "{\"outputs\":"@ + b1) by {
        let front1 = "{\"outputs\":"@ + array_text(output_texts(b.outputs));
        let front2 = front1 + ",\"private_inputs\":"@;
        let front3 = front2 + private_inputs_text(b.private_inputs);
        let front4 = front3 + ",\"public_inputs\":"@;
        let front5 = front4 + public_inputs_text(b.public_inputs);
        assert(canonical_payload(b) == front5 + end);
        lemma_regroup(front4, public_inputs_text(b.public_inputs), end);
        lemma_regroup(front3, ",\"public_inputs\":"@, b3);
        lemma_regroup(front2, private_inputs_text(b.private_inputs), ",\"public_inputs\":"@ + b3);
        lemma_regroup(front1, ",\"private_inputs\":"@, b2);
        lemma_regroup(
            "{\"outputs\":"@,
            array_text(output_texts(b.outputs)),
            ",\"private_inputs\":"@ + b2,
        );
    }
    lemma_cancel_prefix("{\"outputs\":"@, a1, b1);
    lemma_output_array_delimited(
        a.outputs,
        b.outputs,
        ",\"private_inputs\":"@ + a2,
        ",\"private_inputs\":"@ + b2,
    );
    lemma_cancel_prefix(",\"private_inputs\":"@, a2, b2);
    lemma_private_inputs_delimited(
        a.private_inputs,
        b.private_inputs,
        ",\"public_inputs\":"@ + a3,
        ",\"public_inputs\":"@ + b3,
    );
    lemma_cancel_prefix(",\"public_inputs\":"@, a3, b3);
    lemma_public_inputs_delimited(a.public_inputs, b.public_inputs, end, end);
    assert(a.outputs == b.outputs);
    assert(a.private_inputs == b.private_inputs);
    assert(a.public_inputs == b.public_inputs);
}

} // verus!
