//! Integers of any size, held as decimal texts.
//!
//! A number written in a script is a text until a type is known for it. The
//! arithmetic on such texts is reached by `candid::Int`; this module says which texts
//! are integers, which integer each one writes, and how a result is written.
use vstd::prelude::*;
use vstd::string::*;
use vstd::utf8::*;

verus! {

pub open spec fn is_digit(c: char) -> bool {
    '0' <= c <= '9'
}

pub open spec fn digit_value(c: char) -> nat {
    (c as u32 - 48) as nat
}

pub open spec fn digit_char(d: nat) -> char
    recommends
        d < 10,
{
    (d + 48) as u8 as char
}

/// The digits of a literal may be spaced with underscores, but a digit comes first.
pub open spec fn is_digits(s: Seq<char>) -> bool {
    &&& s.len() > 0
    &&& is_digit(s[0])
    &&& forall|i: int| 0 <= i < s.len() ==> is_digit(#[trigger] s[i]) || s[i] == '_'
}

pub open spec fn has_sign(s: Seq<char>) -> bool {
    s.len() > 0 && (s[0] == '-' || s[0] == '+')
}

pub open spec fn unsigned_part(s: Seq<char>) -> Seq<char> {
    if has_sign(s) {
        s.subrange(1, s.len() as int)
    } else {
        s
    }
}

/// An integer literal: an optional sign, then digits.
pub open spec fn is_int_literal(s: Seq<char>) -> bool {
    is_digits(unsigned_part(s))
}

/// The natural number that digits write, underscores skipped.
pub open spec fn digits_value(s: Seq<char>) -> nat
    decreases s.len(),
{
    if s.len() == 0 {
        0
    } else if s.last() == '_' {
        digits_value(s.drop_last())
    } else {
        digits_value(s.drop_last()) * 10 + digit_value(s.last())
    }
}

/// The integer that a literal writes.
pub open spec fn int_value(s: Seq<char>) -> int {
    if s.len() > 0 && s[0] == '-' {
        -(digits_value(unsigned_part(s)) as int)
    } else {
        digits_value(unsigned_part(s)) as int
    }
}

/// A natural number in decimal, without leading zeros.
pub open spec fn nat_text(n: nat) -> Seq<char>
    decreases n,
{
    if n < 10 {
        seq![digit_char(n)]
    } else {
        nat_text(n / 10).push(digit_char(n % 10))
    }
}

/// A natural number in decimal, its digits in groups of three from the right with
/// an underscore between the groups.
pub open spec fn grouped_text(n: nat) -> Seq<char>
    decreases n,
{
    if n < 1000 {
        nat_text(n)
    } else {
        grouped_text(n / 1000) + seq![
            '_',
            digit_char(n / 100 % 10),
            digit_char(n / 10 % 10),
            digit_char(n % 10),
        ]
    }
}

/// How an integer result is written: a minus sign where it is negative, then the
/// grouped digits.
pub open spec fn int_text(i: int) -> Seq<char> {
    if i < 0 {
        seq!['-'] + grouped_text((-i) as nat)
    } else {
        grouped_text(i as nat)
    }
}

/// Division that rounds toward zero.
pub open spec fn trunc_div(a: int, b: int) -> int
    recommends
        b != 0,
{
    if a >= 0 && b > 0 {
        a / b
    } else if a >= 0 {
        -(a / (-b))
    } else if b > 0 {
        -((-a) / b)
    } else {
        (-a) / (-b)
    }
}

proof fn lemma_digits_push(s: Seq<char>, c: char)
    requires
        c != '_',
    ensures
        digits_value(s.push(c)) == digits_value(s) * 10 + digit_value(c),
{
    assert(s.push(c).drop_last() =~= s);
}

proof fn lemma_digits_push_underscore(s: Seq<char>)
    ensures
        digits_value(s.push('_')) == digits_value(s),
{
    assert(s.push('_').drop_last() =~= s);
}

proof fn lemma_digit_char(d: nat)
    requires
        d < 10,
    ensures
        is_digit(digit_char(d)),
        digit_value(digit_char(d)) == d,
        digit_char(d) != '_',
{
}

proof fn lemma_nat_text(n: nat)
    ensures
        is_digits(nat_text(n)),
        digits_value(nat_text(n)) == n,
        forall|i: int| 0 <= i < nat_text(n).len() ==> is_digit(#[trigger] nat_text(n)[i]),
    decreases n,
{
    if n < 10 {
        lemma_digit_char(n);
        lemma_digits_push(Seq::<char>::empty(), digit_char(n));
        assert(seq![digit_char(n)] =~= Seq::<char>::empty().push(digit_char(n)));
    } else {
        lemma_nat_text(n / 10);
        lemma_digit_char(n % 10);
        lemma_digits_push(nat_text(n / 10), digit_char(n % 10));
    }
}

proof fn lemma_grouped_text(n: nat)
    ensures
        is_digits(grouped_text(n)),
        digits_value(grouped_text(n)) == n,
    decreases n,
{
    if n < 1000 {
        lemma_nat_text(n);
    } else {
        let head = grouped_text(n / 1000);
        lemma_grouped_text(n / 1000);
        let a = digit_char(n / 100 % 10);
        let b = digit_char(n / 10 % 10);
        let c = digit_char(n % 10);
        lemma_digit_char(n / 100 % 10);
        lemma_digit_char(n / 10 % 10);
        lemma_digit_char(n % 10);
        let s1 = head.push('_');
        let s2 = s1.push(a);
        let s3 = s2.push(b);
        let s4 = s3.push(c);
        assert(s4 =~= grouped_text(n));
        lemma_digits_push_underscore(head);
        lemma_digits_push(s1, a);
        lemma_digits_push(s2, b);
        lemma_digits_push(s3, c);
        assert(n == (n / 1000) * 1000 + (n / 100 % 10) * 100 + (n / 10 % 10) * 10 + n % 10);
    }
}

/// What is written for an integer is a literal, and writes that integer.
pub proof fn lemma_int_text(i: int)
    ensures
        is_int_literal(int_text(i)),
        int_value(int_text(i)) == i,
{
    if i < 0 {
        let g = grouped_text((-i) as nat);
        lemma_grouped_text((-i) as nat);
        assert(unsigned_part(int_text(i)) =~= g);
    } else {
        lemma_grouped_text(i as nat);
        assert(unsigned_part(int_text(i)) =~= grouped_text(i as nat));
    }
}

/// Whether a text is an integer literal.
pub fn is_int_literal_text(s: &str) -> (r: bool)
    ensures
        r == is_int_literal(s@),
{
    if !s.is_ascii() {
        proof {
            let i = choose|i: int| 0 <= i < s@.len() && !('\0' <= #[trigger] s@[i] <= '\u{7f}');
            if has_sign(s@) && i > 0 {
                assert(unsigned_part(s@)[i - 1] == s@[i]);
            } else {
                assert(unsigned_part(s@)[i] == s@[i]);
            }
        }
        return false;
    }
    let b = s.as_bytes();
    proof {
        is_ascii_chars_encode_utf8(s@);
    }
    let n: usize = b.len();
    let start: usize = if n > 0 && (b[0] == 45 || b[0] == 43) {
        1
    } else {
        0
    };
    assert(has_sign(s@) == (start == 1));
    if start >= n {
        return false;
    }
    let ghost body = unsigned_part(s@);
    assert(body.len() == n - start);
    assert(forall|k: int| 0 <= k < body.len() ==> body[k] == s@[k + start]);
    if !(48 <= b[start] && b[start] <= 57) {
        assert(!is_digit(body[0]));
        return false;
    }
    let mut i: usize = start;
    while i < n
        invariant
            start <= i <= n,
            n == b@.len(),
            n == s@.len(),
            is_ascii_chars(s@),
            body == unsigned_part(s@),
            body.len() == n - start,
            forall|k: int| 0 <= k < body.len() ==> body[k] == s@[k + start],
            forall|k: int| 0 <= k < n ==> s@[k] as u8 == b@[k],
            forall|k: int| start <= k < i ==> is_digit(#[trigger] s@[k]) || s@[k] == '_',
        decreases n - i,
    {
        let c: u8 = b[i];
        if !((48 <= c && c <= 57) || c == 95) {
            assert(!(is_digit(body[i - start]) || body[i - start] == '_'));
            return false;
        }
        i += 1;
    }
    assert(is_digit(body[0]));
    assert forall|k: int| 0 <= k < body.len() implies is_digit(#[trigger] body[k]) || body[k]
        == '_' by {
        assert(is_digit(s@[k + start]) || s@[k + start] == '_');
    }
    true
}

/// Calls the parser of `candid::Int` on both texts, then `+` and `to_string`.
/// The contract claims that the result writes the sum of the two integers, in
/// the grouped form.
#[verifier::external_body]
fn int_sum(a: &str, b: &str) -> (r: String)
    requires
        is_int_literal(a@),
        is_int_literal(b@),
    ensures
        r@ == int_text(int_value(a@) + int_value(b@)),
{
    let x: candid::Int = a.parse().unwrap();
    let y: candid::Int = b.parse().unwrap();
    (x + y).to_string()
}

/// Calls the parser of `candid::Int` on both texts, then `-` and `to_string`.
/// The contract claims that the result writes the first integer less the second,
/// in the grouped form.
#[verifier::external_body]
fn int_difference(a: &str, b: &str) -> (r: String)
    requires
        is_int_literal(a@),
        is_int_literal(b@),
    ensures
        r@ == int_text(int_value(a@) - int_value(b@)),
{
    let x: candid::Int = a.parse().unwrap();
    let y: candid::Int = b.parse().unwrap();
    (x - y).to_string()
}

/// Calls the parser of `candid::Int` on both texts, then `*` and `to_string`.
/// The contract claims that the result writes the product of the two integers,
/// in the grouped form.
#[verifier::external_body]
fn int_product(a: &str, b: &str) -> (r: String)
    requires
        is_int_literal(a@),
        is_int_literal(b@),
    ensures
        r@ == int_text(int_value(a@) * int_value(b@)),
{
    let x: candid::Int = a.parse().unwrap();
    let y: candid::Int = b.parse().unwrap();
    (x * y).to_string()
}

/// Calls the parser of `candid::Int` on both texts, then `/` and `to_string`.
/// The divisor is not zero, on which `/` panics. The contract claims that the
/// result writes the quotient rounded toward zero, in the grouped form.
#[verifier::external_body]
fn int_quotient(a: &str, b: &str) -> (r: String)
    requires
        is_int_literal(a@),
        is_int_literal(b@),
        int_value(b@) != 0,
    ensures
        r@ == int_text(trunc_div(int_value(a@), int_value(b@))),
{
    let x: candid::Int = a.parse().unwrap();
    let y: candid::Int = b.parse().unwrap();
    (x / y).to_string()
}

/// Calls the parser of `candid::Int` on both texts, then `<`. The contract
/// claims that the result tells whether the first integer is below the second.
#[verifier::external_body]
fn int_less(a: &str, b: &str) -> (r: bool)
    requires
        is_int_literal(a@),
        is_int_literal(b@),
    ensures
        r == (int_value(a@) < int_value(b@)),
{
    let x: candid::Int = a.parse().unwrap();
    let y: candid::Int = b.parse().unwrap();
    x < y
}

/// Calls `candid::Int::from` on an unsigned machine integer, then `to_string`.
/// The contract claims that the result writes that integer, in the grouped form.
#[verifier::external_body]
pub(crate) fn text_of_u64(n: u64) -> (r: String)
    ensures
        r@ == int_text(n as int),
{
    candid::Int::from(n).to_string()
}

/// Calls `candid::Int::from` on a signed machine integer, then `to_string`.
/// The contract claims that the result writes that integer, in the grouped form.
#[verifier::external_body]
pub(crate) fn text_of_i64(n: i64) -> (r: String)
    ensures
        r@ == int_text(n as int),
{
    candid::Int::from(n).to_string()
}

/// The four operations of integer arithmetic.
#[derive(Debug, Clone, Copy, PartialEq, Eq)]
pub enum ArithOp {
    Add,
    Sub,
    Mul,
    Div,
}

/// The four order tests.
#[derive(Debug, Clone, Copy, PartialEq, Eq)]
pub enum OrderOp {
    Lt,
    Lte,
    Gt,
    Gte,
}

/// The result of an operation on two integers; none where it divides by zero.
pub open spec fn arith_result(op: ArithOp, a: int, b: int) -> Option<int> {
    match op {
        ArithOp::Add => Some(a + b),
        ArithOp::Sub => Some(a - b),
        ArithOp::Mul => Some(a * b),
        ArithOp::Div => if b == 0 {
            None
        } else {
            Some(trunc_div(a, b))
        },
    }
}

/// The result of an order test on two integers.
pub open spec fn order_result(op: OrderOp, a: int, b: int) -> bool {
    match op {
        OrderOp::Lt => a < b,
        OrderOp::Lte => a <= b,
        OrderOp::Gt => a > b,
        OrderOp::Gte => a >= b,
    }
}

/// Whether a literal writes zero.
pub(crate) fn is_zero_literal(a: &str) -> (r: bool)
    requires
        is_int_literal(a@),
    ensures
        r == (int_value(a@) == 0),
{
    let zero = "0";
    proof {
        reveal_strlit("0");
        assert(unsigned_part(zero@) =~= zero@);
        assert(zero@.drop_last() =~= Seq::<char>::empty());
        assert(digits_value(zero@) == 0) by {
            reveal_with_fuel(digits_value, 2);
        }
    }
    !int_less(a, zero) && !int_less(zero, a)
}

/// Arithmetic on two integer literals. The result is written in the grouped form;
/// there is none where the operation divides by zero.
pub(crate) fn int_arith(op: ArithOp, a: &str, b: &str) -> (r: Option<String>)
    requires
        is_int_literal(a@),
        is_int_literal(b@),
    ensures
        match arith_result(op, int_value(a@), int_value(b@)) {
            Some(i) => r matches Some(s) && s@ == int_text(i),
            None => r is None,
        },
{
    match op {
        ArithOp::Add => Some(int_sum(a, b)),
        ArithOp::Sub => Some(int_difference(a, b)),
        ArithOp::Mul => Some(int_product(a, b)),
        ArithOp::Div => {
            if is_zero_literal(b) {
                None
            } else {
                Some(int_quotient(a, b))
            }
        },
    }
}

/// An order test on two integer literals.
pub(crate) fn int_order(op: OrderOp, a: &str, b: &str) -> (r: bool)
    requires
        is_int_literal(a@),
        is_int_literal(b@),
    ensures
        r == order_result(op, int_value(a@), int_value(b@)),
{
    match op {
        OrderOp::Lt => int_less(a, b),
        OrderOp::Lte => !int_less(b, a),
        OrderOp::Gt => int_less(b, a),
        OrderOp::Gte => !int_less(a, b),
    }
}

fn digit_text(d: usize) -> (r: &'static str)
    requires
        d < 10,
    ensures
        r@ == seq![digit_char(d as nat)],
{
    proof {
        reveal_strlit("0");
        reveal_strlit("1");
        reveal_strlit("2");
        reveal_strlit("3");
        reveal_strlit("4");
        reveal_strlit("5");
        reveal_strlit("6");
        reveal_strlit("7");
        reveal_strlit("8");
        reveal_strlit("9");
    }
    let r: &'static str = if d == 0 {
        "0"
    } else if d == 1 {
        "1"
    } else if d == 2 {
        "2"
    } else if d == 3 {
        "3"
    } else if d == 4 {
        "4"
    } else if d == 5 {
        "5"
    } else if d == 6 {
        "6"
    } else if d == 7 {
        "7"
    } else if d == 8 {
        "8"
    } else {
        "9"
    };
    assert(r@ =~= seq![digit_char(d as nat)]);
    r
}

/// A count in decimal.
pub fn count_text(n: usize) -> (r: String)
    ensures
        r@ == nat_text(n as nat),
    decreases n,
{
    if n < 10 {
        crate::text::text_copy(digit_text(n))
    } else {
        let head = count_text(n / 10);
        let r = crate::text::text_join(head.as_str(), digit_text(n % 10));
        assert(r@ =~= nat_text((n / 10) as nat).push(digit_char((n % 10) as nat)));
        r
    }
}

/// One or more digits and nothing else.
pub open spec fn is_plain_digits(s: Seq<char>) -> bool {
    s.len() > 0 && forall|i: int| 0 <= i < s.len() ==> is_digit(#[trigger] s[i])
}

/// A text without the plus sign that may stand in front of it.
pub open spec fn without_plus(s: Seq<char>) -> Seq<char> {
    if s.len() > 0 && s[0] == '+' {
        s.subrange(1, s.len() as int)
    } else {
        s
    }
}

/// The natural number below 2^64 that a text writes: digits alone, or a plus
/// sign and digits.
pub open spec fn u64_literal(s: Seq<char>) -> Option<u64> {
    let body = without_plus(s);
    if is_plain_digits(body) && digits_value(body) <= u64::MAX {
        Some(digits_value(body) as u64)
    } else {
        None
    }
}

proof fn lemma_digits_prefix(s: Seq<char>, k: int)
    requires
        0 <= k <= s.len(),
    ensures
        digits_value(s.subrange(0, k)) <= digits_value(s),
    decreases s.len() - k,
{
    if k < s.len() {
        lemma_digits_prefix(s, k + 1);
        assert(s.subrange(0, k + 1).drop_last() =~= s.subrange(0, k));
    } else {
        assert(s.subrange(0, k) =~= s);
    }
}

/// Reads a natural number below 2^64.
pub fn parse_u64(s: &str) -> (r: Option<u64>)
    ensures
        r == u64_literal(s@),
{
    if !s.is_ascii() {
        proof {
            let i = choose|i: int| 0 <= i < s@.len() && !('\0' <= #[trigger] s@[i] <= '\u{7f}');
            if s@.len() > 0 && s@[0] == '+' {
                assert(i > 0);
                assert(without_plus(s@)[i - 1] == s@[i]);
            } else {
                assert(without_plus(s@)[i] == s@[i]);
            }
        }
        return None;
    }
    let b = s.as_bytes();
    proof {
        is_ascii_chars_encode_utf8(s@);
    }
    let n: usize = b.len();
    let start: usize = if n > 0 && b[0] == 43 {
        1
    } else {
        0
    };
    let ghost body = without_plus(s@);
    assert(body.len() == n - start);
    assert(forall|k: int| 0 <= k < body.len() ==> body[k] == s@[k + start]);
    if start >= n {
        return None;
    }
    let mut acc: u64 = 0;
    let mut i: usize = start;
    assert(body.subrange(0, 0) =~= Seq::<char>::empty());
    while i < n
        invariant
            start <= i <= n,
            n == b@.len(),
            n == s@.len(),
            is_ascii_chars(s@),
            body == without_plus(s@),
            body.len() == n - start,
            body.len() > 0,
            forall|k: int| 0 <= k < body.len() ==> body[k] == s@[k + start],
            forall|k: int| 0 <= k < n ==> s@[k] as u8 == b@[k],
            forall|k: int| 0 <= k < i - start ==> is_digit(#[trigger] body[k]),
            acc == digits_value(body.subrange(0, i - start)),
        decreases n - i,
    {
        let c: u8 = b[i];
        if !(48 <= c && c <= 57) {
            assert(!is_digit(body[i - start]));
            return None;
        }
        let d: u64 = (c - 48) as u64;
        let ghost next = body.subrange(0, i - start + 1);
        assert(next.drop_last() =~= body.subrange(0, i - start));
        assert(next.last() == body[i - start]);
        assert(digit_value(body[i - start]) == d);
        assert(digits_value(next) == acc * 10 + d);
        if acc > (u64::MAX - d) / 10 {
            proof {
                lemma_digits_prefix(body, i - start + 1);
            }
            return None;
        }
        acc = acc * 10 + d;
        i += 1;
    }
    assert(body.subrange(0, n - start) =~= body);
    Some(acc)
}

} // verus!
